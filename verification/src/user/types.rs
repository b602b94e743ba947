//! The user entities exchanged with the server, and the permissions a user
//! can be granted.

use vstd::prelude::*;
use crate::api::arg::IntoText;
use crate::api::types::Empty;

verus! {

/// The password given to a new user that is created without one of its own.
pub const DEFAULT_ROOT_PASSWORD: &'static str = "ARANGODB_DEFAULT_ROOT_PASSWORD";

/// A type that can be stored as the extra data of a user.
pub trait UserExtra {}

impl UserExtra for Empty {}

impl<K, V> UserExtra for std::collections::HashMap<K, V> {}

/// A user as the server describes it.
#[derive(Clone, Debug)]
pub struct User<E: UserExtra> {
    user: String,
    active: bool,
    extra: E,
}

/// The content of a `User`.
pub struct UserView<E: UserExtra> {
    pub user: Seq<char>,
    pub active: bool,
    pub extra: E,
}

impl<E: UserExtra> View for User<E> {
    type V = UserView<E>;

    closed spec fn view(&self) -> UserView<E> {
        UserView {
            user: self.user@,
            active: self.active,
            extra: self.extra,
        }
    }
}

impl<E: UserExtra> User<E> {
    pub fn new<N: IntoText>(name: N, active: bool, extra: E) -> (r: Self)
        ensures
            r@ == (UserView { user: name.text_view(), active, extra }),
    {
        User { user: name.into_text(), active, extra }
    }

    pub fn name(&self) -> (r: &str)
        ensures
            r@ == self@.user,
    {
        self.user.as_str()
    }

    pub fn is_active(&self) -> (r: bool)
        ensures
            r == self@.active,
    {
        self.active
    }

    pub fn extra(&self) -> (r: &E)
        ensures
            *r == self@.extra,
    {
        &self.extra
    }
}

/// A user to be created.
#[derive(Clone, Debug, PartialEq)]
pub struct NewUser<E: UserExtra> {
    user: String,
    passwd: Option<String>,
    active: Option<bool>,
    extra: Option<E>,
}

/// The content of a `NewUser`.
pub struct NewUserView<E: UserExtra> {
    pub user: Seq<char>,
    pub passwd: Option<Seq<char>>,
    pub active: Option<bool>,
    pub extra: Option<E>,
}

impl<E: UserExtra> View for NewUser<E> {
    type V = NewUserView<E>;

    closed spec fn view(&self) -> NewUserView<E> {
        NewUserView {
            user: self.user@,
            passwd: self.passwd.deep_view(),
            active: self.active,
            extra: self.extra,
        }
    }
}

impl<E: UserExtra> NewUser<E> {
    pub fn new(name: String, password: Option<String>, active: Option<bool>, extra: Option<E>) -> (r: Self)
        ensures
            r@ == (NewUserView { user: name@, passwd: password.deep_view(), active, extra }),
    {
        NewUser { user: name, passwd: password, active, extra }
    }

    /// A user with a name and a password, its other properties left unset.
    pub fn with_name<N: IntoText, P: IntoText>(name: N, password: P) -> (r: Self)
        ensures
            r@ == (NewUserView::<E> { user: name.text_view(), passwd: Some(password.text_view()), active: None, extra: None }),
    {
        NewUser { user: name.into_text(), passwd: Some(password.into_text()), active: None, extra: None }
    }

    /// A user with a name and the default root password.
    pub fn with_default_root_password<N: IntoText>(name: N) -> (r: Self)
        ensures
            r@ == (NewUserView::<E> { user: name.text_view(), passwd: Some(DEFAULT_ROOT_PASSWORD@), active: None,
                extra: None }),
    {
        NewUser { user: name.into_text(), passwd: Some(DEFAULT_ROOT_PASSWORD.to_owned()), active: None, extra: None }
    }

    pub fn set_extra(&mut self, extra: Option<E>)
        ensures
            final(self)@ == (NewUserView { extra: extra, ..old(self)@ }),
    {
        self.extra = extra;
    }

    pub fn set_active(&mut self, active: Option<bool>)
        ensures
            final(self)@ == (NewUserView { active: active, ..old(self)@ }),
    {
        self.active = active;
    }

    pub fn name(&self) -> (r: &str)
        ensures
            r@ == self@.user,
    {
        self.user.as_str()
    }

    pub fn password(&self) -> (r: Option<&String>)
        ensures
            r.deep_view() == self@.passwd,
    {
        self.passwd.as_ref()
    }

    pub fn is_active(&self) -> (r: Option<bool>)
        ensures
            r == self@.active,
    {
        self.active
    }

    pub fn extra(&self) -> (r: Option<&E>)
        ensures
            r == match self@.extra { Some(e) => Some(&e), None => None },
    {
        self.extra.as_ref()
    }
}

/// The changes to be made to a user.
#[derive(Clone, Debug, PartialEq)]
pub struct UserUpdate<E: UserExtra> {
    passwd: Option<String>,
    active: Option<bool>,
    extra: Option<E>,
}

/// The content of a `UserUpdate`.
pub struct UserUpdateView<E: UserExtra> {
    pub passwd: Option<Seq<char>>,
    pub active: Option<bool>,
    pub extra: Option<E>,
}

impl<E: UserExtra> View for UserUpdate<E> {
    type V = UserUpdateView<E>;

    closed spec fn view(&self) -> UserUpdateView<E> {
        UserUpdateView {
            passwd: self.passwd.deep_view(),
            active: self.active,
            extra: self.extra,
        }
    }
}

impl<E: UserExtra> UserUpdate<E> {
    pub fn new(password: Option<String>, active: Option<bool>, extra: Option<E>) -> (r: Self)
        ensures
            r@ == (UserUpdateView { passwd: password.deep_view(), active, extra }),
    {
        UserUpdate { passwd: password, active, extra }
    }

    /// An update that changes nothing.
    pub fn empty() -> (r: Self)
        ensures
            r@ == (UserUpdateView::<E> { passwd: None, active: None, extra: None }),
    {
        UserUpdate { passwd: None, active: None, extra: None }
    }

    pub fn set_password(&mut self, password: Option<String>)
        ensures
            final(self)@ == (UserUpdateView { passwd: password.deep_view(), ..old(self)@ }),
    {
        self.passwd = password;
    }

    pub fn set_extra(&mut self, extra: Option<E>)
        ensures
            final(self)@ == (UserUpdateView { extra: extra, ..old(self)@ }),
    {
        self.extra = extra;
    }

    pub fn set_active(&mut self, active: Option<bool>)
        ensures
            final(self)@ == (UserUpdateView { active: active, ..old(self)@ }),
    {
        self.active = active;
    }

    pub fn password(&self) -> (r: Option<&String>)
        ensures
            r.deep_view() == self@.passwd,
    {
        self.passwd.as_ref()
    }

    pub fn is_active(&self) -> (r: Option<bool>)
        ensures
            r == self@.active,
    {
        self.active
    }

    pub fn extra(&self) -> (r: Option<&E>)
        ensures
            r == match self@.extra { Some(e) => Some(&e), None => None },
    {
        self.extra.as_ref()
    }
}

impl<E: UserExtra> From<User<E>> for UserUpdate<E> {
    /// The update that sets a user's active flag and extra data to those of
    /// `user` and keeps its password.
    fn from(user: User<E>) -> (r: Self)
        ensures
            r@ == (UserUpdateView { passwd: None, active: Some(user@.active), extra: Some(user@.extra) }),
    {
        UserUpdate { passwd: None, active: Some(user.active), extra: Some(user.extra) }
    }
}

impl<E: UserExtra> vstd::std_specs::convert::FromSpecImpl<User<E>> for UserUpdate<E> {
    open spec fn obeys_from_spec() -> bool {
        false
    }

    closed spec fn from_spec(v: User<E>) -> Self {
        arbitrary()
    }
}

/// A permission a user can be granted on a database or a collection.
#[derive(Clone, Copy, Debug, PartialEq, Eq, Structural)]
pub enum Permission {
    ReadWrite,
    ReadOnly,
    NoAccess,
}

/// The text by which the server names a permission.
pub open spec fn permission_text(p: Permission) -> Seq<char> {
    match p {
        Permission::ReadWrite => "rw"@,
        Permission::ReadOnly => "ro"@,
        Permission::NoAccess => "none"@,
    }
}

/// The permission a text names, if any.
pub open spec fn permission_of(s: Seq<char>) -> Option<Permission> {
    if s == "rw"@ {
        Some(Permission::ReadWrite)
    } else if s == "ro"@ {
        Some(Permission::ReadOnly)
    } else if s == "none"@ {
        Some(Permission::NoAccess)
    } else {
        None
    }
}

/// The message for a text that names no permission.
pub open spec fn invalid_permission_message(s: Seq<char>) -> Seq<char> {
    "Not a valid permission string: "@ + s
}

/// How a permission is displayed.
pub open spec fn permission_display(p: Permission) -> Seq<char> {
    match p {
        Permission::ReadWrite => "Read/Write"@,
        Permission::ReadOnly => "Read Only"@,
        Permission::NoAccess => "No access"@,
    }
}

impl Permission {
    /// The permission named by `value`: `rw`, `ro` or `none`.
    pub fn from_str(value: &str) -> (r: Result<Self, String>)
        ensures
            match permission_of(value@) {
                Some(p) => r == Ok::<Permission, String>(p),
                None => r matches Err(e) && e@ == invalid_permission_message(value@),
            },
    {
        if crate::api::text::str_eq(value, "rw") {
            Ok(Permission::ReadWrite)
        } else if crate::api::text::str_eq(value, "ro") {
            Ok(Permission::ReadOnly)
        } else if crate::api::text::str_eq(value, "none") {
            Ok(Permission::NoAccess)
        } else {
            let mut e = "Not a valid permission string: ".to_owned();
            e.append(value);
            Err(e)
        }
    }

    /// The text by which the server names this permission.
    pub fn as_str(&self) -> (r: &'static str)
        ensures
            r@ == permission_text(*self),
    {
        match *self {
            Permission::ReadWrite => "rw",
            Permission::ReadOnly => "ro",
            Permission::NoAccess => "none",
        }
    }

    /// How this permission is displayed: `Read/Write`, `Read Only` or
    /// `No access`.
    pub fn to_string(&self) -> (r: String)
        ensures
            r@ == permission_display(*self),
    {
        match *self {
            Permission::ReadWrite => "Read/Write".to_owned(),
            Permission::ReadOnly => "Read Only".to_owned(),
            Permission::NoAccess => "No access".to_owned(),
        }
    }
}

/// Reading back the text of a permission gives the permission.
pub proof fn lemma_permission_text_read_back(p: Permission)
    ensures
        permission_of(permission_text(p)) == Some(p),
{
    reveal_strlit("rw");
    reveal_strlit("ro");
    reveal_strlit("none");
    assert("rw"@.len() == 2);
    assert("ro"@.len() == 2);
    assert("none"@.len() == 4);
    assert("rw"@[1] != "ro"@[1]);
}

/// A texts that names a permission is the text of that permission.
pub proof fn lemma_permission_of_text(s: Seq<char>)
    ensures
        permission_of(s) matches Some(p) ==> permission_text(p) == s,
{
}

/// The server's names of the access levels: `rw` grants read and write
/// access, `ro` read-only access and `none` no access; each name reads back
/// as its level, and so does no other text. They are displayed as
/// `Read/Write`, `Read Only` and `No access`.
pub proof fn lemma_permission_names()
    ensures
        permission_text(Permission::ReadWrite) == "rw"@,
        permission_text(Permission::ReadOnly) == "ro"@,
        permission_text(Permission::NoAccess) == "none"@,
        permission_of("rw"@) == Some(Permission::ReadWrite),
        permission_of("ro"@) == Some(Permission::ReadOnly),
        permission_of("none"@) == Some(Permission::NoAccess),
        forall|s: Seq<char>| s != "rw"@ && s != "ro"@ && s != "none"@ ==> permission_of(s) is None,
        permission_display(Permission::ReadWrite) == "Read/Write"@,
        permission_display(Permission::ReadOnly) == "Read Only"@,
        permission_display(Permission::NoAccess) == "No access"@,
{
    lemma_permission_text_read_back(Permission::ReadWrite);
    lemma_permission_text_read_back(Permission::ReadOnly);
    lemma_permission_text_read_back(Permission::NoAccess);
}

/// The permission to be granted to a user.
#[derive(Clone, Debug, PartialEq)]
pub struct NewAccessLevel {
    grant: Permission,
}

/// The content of a `NewAccessLevel`.
pub struct NewAccessLevelView {
    pub grant: Permission,
}

impl View for NewAccessLevel {
    type V = NewAccessLevelView;

    closed spec fn view(&self) -> NewAccessLevelView {
        NewAccessLevelView {
            grant: self.grant,
        }
    }
}

impl NewAccessLevel {
    pub fn new(grant: Permission) -> (r: Self)
        ensures
            r@.grant == grant,
    {
        NewAccessLevel { grant }
    }

    pub fn grant(&self) -> (r: &Permission)
        ensures
            *r == self@.grant,
    {
        &self.grant
    }
}

} // verus!
