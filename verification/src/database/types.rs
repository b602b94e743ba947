//! The database entities exchanged with the server.

use vstd::prelude::*;
use crate::api::arg::IntoText;
use crate::user::types::{NewUser, NewUserView, UserExtra};

verus! {

/// A database as the server describes it.
#[derive(Debug)]
pub struct DatabaseInfo {
    id: String,
    name: String,
    path: String,
    is_system: bool,
}

/// The content of a `DatabaseInfo`.
pub struct DatabaseInfoView {
    pub id: Seq<char>,
    pub name: Seq<char>,
    pub path: Seq<char>,
    pub is_system: bool,
}

impl View for DatabaseInfo {
    type V = DatabaseInfoView;

    closed spec fn view(&self) -> DatabaseInfoView {
        DatabaseInfoView {
            id: self.id@,
            name: self.name@,
            path: self.path@,
            is_system: self.is_system,
        }
    }
}

impl DatabaseInfo {
    pub fn new<I: IntoText, N: IntoText, P: IntoText>(id: I, name: N, path: P, is_system: bool) -> (r: Self)
        ensures
            r@ == (DatabaseInfoView { id: id.text_view(), name: name.text_view(), path: path.text_view(), is_system }),
    {
        DatabaseInfo { id: id.into_text(), name: name.into_text(), path: path.into_text(), is_system }
    }

    pub fn id(&self) -> (r: &str)
        ensures
            r@ == self@.id,
    {
        self.id.as_str()
    }

    pub fn name(&self) -> (r: &str)
        ensures
            r@ == self@.name,
    {
        self.name.as_str()
    }

    pub fn path(&self) -> (r: &str)
        ensures
            r@ == self@.path,
    {
        self.path.as_str()
    }

    pub fn is_system(&self) -> (r: bool)
        ensures
            r == self@.is_system,
    {
        self.is_system
    }
}

/// A database to be created, with the users that shall have access to it.
#[derive(Debug, PartialEq)]
pub struct NewDatabase<'a, T: 'a + UserExtra> {
    name: &'a str,
    users: &'a [NewUser<T>],
}

/// The content of a `NewDatabase`.
pub struct NewDatabaseView<T: UserExtra> {
    pub name: Seq<char>,
    pub users: Seq<NewUserView<T>>,
}

impl<'a, T: 'a + UserExtra> View for NewDatabase<'a, T> {
    type V = NewDatabaseView<T>;

    closed spec fn view(&self) -> NewDatabaseView<T> {
        NewDatabaseView { name: self.name@, users: self.users@.map_values(|u: NewUser<T>| u@) }
    }
}

impl<'a, T: 'a + UserExtra> NewDatabase<'a, T> {
    /// A database with the name `name` and no users.
    pub fn with_name(name: &'a str) -> (r: Self)
        ensures
            r@.name == name@,
            r@.users == Seq::<NewUserView<T>>::empty(),
    {
        let r = NewDatabase { name, users: &[] };
        assert(r@.users =~= Seq::<NewUserView<T>>::empty());
        r
    }

    /// The same database for the users `users`.
    pub fn for_users(&self, users: &'a [NewUser<T>]) -> (r: Self)
        ensures
            r@.name == self@.name,
            r@.users == users@.map_values(|u: NewUser<T>| u@),
    {
        NewDatabase { name: self.name, users }
    }

    pub fn name(&self) -> (r: &str)
        ensures
            r@ == self@.name,
    {
        self.name
    }

    pub fn users(&self) -> (r: &[NewUser<T>])
        ensures
            r@.map_values(|u: NewUser<T>| u@) == self@.users,
    {
        self.users
    }
}

} // verus!
