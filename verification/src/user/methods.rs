//! The request methods on users and their permissions.

use vstd::prelude::*;
use core::marker::PhantomData;
use std::collections::HashMap;
use crate::api::arg::IntoText;
use crate::api::method::{Method, Operation, Parameters, Prepare, RpcReturnType};
use crate::api::text::push_segment;
use crate::api::types::Empty;
use crate::arango::protocol::{FIELD_CODE, FIELD_RESULT, PATH_API_USER, PATH_DATABASE};
use crate::user::types::{NewAccessLevel, NewAccessLevelView, NewUser, NewUserView, Permission, User, UserExtra,
    UserUpdate, UserUpdateView};

verus! {

/// Creates a user.
#[derive(Clone, Debug, PartialEq)]
pub struct CreateUser<E: UserExtra> {
    user: NewUser<E>,
}

/// The content of a `CreateUser`.
pub struct CreateUserView<E: UserExtra> {
    pub user: NewUserView<E>,
}

impl<E: UserExtra> View for CreateUser<E> {
    type V = CreateUserView<E>;

    closed spec fn view(&self) -> CreateUserView<E> {
        CreateUserView {
            user: self.user@,
        }
    }
}

impl<E: UserExtra> CreateUser<E> {
    pub fn new(user: NewUser<E>) -> (r: Self)
        ensures
            r@.user == user@,
    {
        CreateUser { user }
    }

    pub fn user(&self) -> (r: &NewUser<E>)
        ensures
            r@ == self@.user,
    {
        &self.user
    }
}

impl<E: UserExtra> Method for CreateUser<E> {
    type Result = User<E>;

    fn return_type(&self) -> (r: RpcReturnType)
        ensures
            r == (RpcReturnType { result_field: None, code_field: Some(FIELD_CODE) }),
    {
        RpcReturnType { result_field: None, code_field: Some(FIELD_CODE) }
    }
}

impl<E: UserExtra> Prepare for CreateUser<E> {
    type Content = NewUser<E>;

    fn operation(&self) -> (r: Operation)
        ensures
            r == Operation::Create,
    {
        Operation::Create
    }

    fn path(&self) -> (r: String)
        ensures
            r@ == PATH_API_USER@,
    {
        let mut r = PATH_API_USER.to_owned();
        r
    }

    fn parameters(&self) -> (r: Parameters)
        ensures
            r@ == Seq::<(Seq<char>, Seq<char>)>::empty(),
    {
        Parameters::empty()
    }

    fn header(&self) -> (r: Parameters)
        ensures
            r@ == Seq::<(Seq<char>, Seq<char>)>::empty(),
    {
        Parameters::empty()
    }

    fn content(&self) -> (r: Option<&Self::Content>)
        ensures
            r matches Some(c) && c@ == self@.user,
    {
        Some(&self.user)
    }
}

/// Lists the users.
#[derive(Debug, PartialEq)]
pub struct ListAvailableUsers<E: UserExtra> {
    user_info_type: PhantomData<E>,
}

impl<E: UserExtra> ListAvailableUsers<E> {
    pub fn new() -> (r: Self) {
        ListAvailableUsers { user_info_type: PhantomData }
    }
}

impl<E: UserExtra> Clone for ListAvailableUsers<E> {
    fn clone(&self) -> (r: Self) {
        ListAvailableUsers { user_info_type: PhantomData }
    }
}

impl<E: UserExtra> Method for ListAvailableUsers<E> {
    type Result = Vec<User<E>>;

    fn return_type(&self) -> (r: RpcReturnType)
        ensures
            r == (RpcReturnType { result_field: Some(FIELD_RESULT), code_field: Some(FIELD_CODE) }),
    {
        RpcReturnType { result_field: Some(FIELD_RESULT), code_field: Some(FIELD_CODE) }
    }
}

impl<E: UserExtra> Prepare for ListAvailableUsers<E> {
    type Content = ();

    fn operation(&self) -> (r: Operation)
        ensures
            r == Operation::Read,
    {
        Operation::Read
    }

    fn path(&self) -> (r: String)
        ensures
            r@ == PATH_API_USER@,
    {
        let mut r = PATH_API_USER.to_owned();
        r
    }

    fn parameters(&self) -> (r: Parameters)
        ensures
            r@ == Seq::<(Seq<char>, Seq<char>)>::empty(),
    {
        Parameters::empty()
    }

    fn header(&self) -> (r: Parameters)
        ensures
            r@ == Seq::<(Seq<char>, Seq<char>)>::empty(),
    {
        Parameters::empty()
    }

    fn content(&self) -> (r: Option<&Self::Content>)
        ensures
            r is None,
    {
        None
    }
}

/// Removes a user.
#[derive(Clone, Debug, PartialEq)]
pub struct RemoveUser {
    name: String,
}

/// The content of a `RemoveUser`.
pub struct RemoveUserView {
    pub name: Seq<char>,
}

impl View for RemoveUser {
    type V = RemoveUserView;

    closed spec fn view(&self) -> RemoveUserView {
        RemoveUserView {
            name: self.name@,
        }
    }
}

impl RemoveUser {
    pub fn with_name<S: IntoText>(user_name: S) -> (r: Self)
        ensures
            r@.name == user_name.text_view(),
    {
        RemoveUser { name: user_name.into_text() }
    }

    pub fn name(&self) -> (r: &str)
        ensures
            r@ == self@.name,
    {
        self.name.as_str()
    }
}

impl Method for RemoveUser {
    type Result = Empty;

    fn return_type(&self) -> (r: RpcReturnType)
        ensures
            r == (RpcReturnType { result_field: None, code_field: Some(FIELD_CODE) }),
    {
        RpcReturnType { result_field: None, code_field: Some(FIELD_CODE) }
    }
}

impl Prepare for RemoveUser {
    type Content = ();

    fn operation(&self) -> (r: Operation)
        ensures
            r == Operation::Delete,
    {
        Operation::Delete
    }

    fn path(&self) -> (r: String)
        ensures
            r@ == PATH_API_USER@ + "/"@ + self@.name,
    {
        let mut r = PATH_API_USER.to_owned();
        push_segment(&mut r, self.name.as_str());
        r
    }

    fn parameters(&self) -> (r: Parameters)
        ensures
            r@ == Seq::<(Seq<char>, Seq<char>)>::empty(),
    {
        Parameters::empty()
    }

    fn header(&self) -> (r: Parameters)
        ensures
            r@ == Seq::<(Seq<char>, Seq<char>)>::empty(),
    {
        Parameters::empty()
    }

    fn content(&self) -> (r: Option<&Self::Content>)
        ensures
            r is None,
    {
        None
    }
}

/// Reads the description of a user.
#[derive(Debug, PartialEq)]
pub struct GetUser<E: UserExtra> {
    name: String,
    user_info_type: PhantomData<E>,
}

/// The content of a `GetUser`.
pub struct GetUserView {
    pub name: Seq<char>,
}

impl<E: UserExtra> View for GetUser<E> {
    type V = GetUserView;

    closed spec fn view(&self) -> GetUserView {
        GetUserView { name: self.name@ }
    }
}

impl<E: UserExtra> GetUser<E> {
    pub fn new(user_name: String) -> (r: Self)
        ensures
            r@.name == user_name@,
    {
        GetUser { name: user_name, user_info_type: PhantomData }
    }

    pub fn with_name<S: IntoText>(user_name: S) -> (r: Self)
        ensures
            r@.name == user_name.text_view(),
    {
        GetUser { name: user_name.into_text(), user_info_type: PhantomData }
    }

    pub fn name(&self) -> (r: &str)
        ensures
            r@ == self@.name,
    {
        self.name.as_str()
    }
}

impl<E: UserExtra> Clone for GetUser<E> {
    fn clone(&self) -> (r: Self)
        ensures
            r@ == self@,
    {
        GetUser { name: self.name.clone(), user_info_type: PhantomData }
    }
}

impl<E: UserExtra> Method for GetUser<E> {
    type Result = User<E>;

    fn return_type(&self) -> (r: RpcReturnType)
        ensures
            r == (RpcReturnType { result_field: None, code_field: Some(FIELD_CODE) }),
    {
        RpcReturnType { result_field: None, code_field: Some(FIELD_CODE) }
    }
}

impl<E: UserExtra> Prepare for GetUser<E> {
    type Content = ();

    fn operation(&self) -> (r: Operation)
        ensures
            r == Operation::Read,
    {
        Operation::Read
    }

    fn path(&self) -> (r: String)
        ensures
            r@ == PATH_API_USER@ + "/"@ + self@.name,
    {
        let mut r = PATH_API_USER.to_owned();
        push_segment(&mut r, self.name.as_str());
        r
    }

    fn parameters(&self) -> (r: Parameters)
        ensures
            r@ == Seq::<(Seq<char>, Seq<char>)>::empty(),
    {
        Parameters::empty()
    }

    fn header(&self) -> (r: Parameters)
        ensures
            r@ == Seq::<(Seq<char>, Seq<char>)>::empty(),
    {
        Parameters::empty()
    }

    fn content(&self) -> (r: Option<&Self::Content>)
        ensures
            r is None,
    {
        None
    }
}

/// Changes the given properties of a user.
#[derive(Clone, Debug, PartialEq)]
pub struct ModifyUser<E: UserExtra> {
    user_name: String,
    updates: UserUpdate<E>,
}

/// The content of a `ModifyUser`.
pub struct ModifyUserView<E: UserExtra> {
    pub user_name: Seq<char>,
    pub updates: UserUpdateView<E>,
}

impl<E: UserExtra> View for ModifyUser<E> {
    type V = ModifyUserView<E>;

    closed spec fn view(&self) -> ModifyUserView<E> {
        ModifyUserView {
            user_name: self.user_name@,
            updates: self.updates@,
        }
    }
}

impl<E: UserExtra> ModifyUser<E> {
    pub fn new(user_name: String, updates: UserUpdate<E>) -> (r: Self)
        ensures
            r@ == (ModifyUserView { user_name: user_name@, updates: updates@ }),
    {
        ModifyUser { user_name, updates }
    }

    /// The request for the user `name` that changes nothing yet.
    pub fn with_name<N: IntoText>(name: N) -> (r: Self)
        ensures
            r@ == (ModifyUserView::<E> { user_name: name.text_view(),
                updates: UserUpdateView { passwd: None, active: None, extra: None } }),
    {
        ModifyUser { user_name: name.into_text(), updates: UserUpdate::empty() }
    }

    pub fn user_name(&self) -> (r: &str)
        ensures
            r@ == self@.user_name,
    {
        self.user_name.as_str()
    }

    pub fn updates(&self) -> (r: &UserUpdate<E>)
        ensures
            r@ == self@.updates,
    {
        &self.updates
    }
}

impl<E: UserExtra> Method for ModifyUser<E> {
    type Result = User<E>;

    fn return_type(&self) -> (r: RpcReturnType)
        ensures
            r == (RpcReturnType { result_field: None, code_field: Some(FIELD_CODE) }),
    {
        RpcReturnType { result_field: None, code_field: Some(FIELD_CODE) }
    }
}

impl<E: UserExtra> Prepare for ModifyUser<E> {
    type Content = UserUpdate<E>;

    fn operation(&self) -> (r: Operation)
        ensures
            r == Operation::Modify,
    {
        Operation::Modify
    }

    fn path(&self) -> (r: String)
        ensures
            r@ == PATH_API_USER@ + "/"@ + self@.user_name,
    {
        let mut r = PATH_API_USER.to_owned();
        push_segment(&mut r, self.user_name.as_str());
        r
    }

    fn parameters(&self) -> (r: Parameters)
        ensures
            r@ == Seq::<(Seq<char>, Seq<char>)>::empty(),
    {
        Parameters::empty()
    }

    fn header(&self) -> (r: Parameters)
        ensures
            r@ == Seq::<(Seq<char>, Seq<char>)>::empty(),
    {
        Parameters::empty()
    }

    fn content(&self) -> (r: Option<&Self::Content>)
        ensures
            r matches Some(c) && c@ == self@.updates,
    {
        Some(&self.updates)
    }
}

/// Replaces the properties of a user.
#[derive(Clone, Debug, PartialEq)]
pub struct ReplaceUser<E: UserExtra> {
    user_name: String,
    updates: UserUpdate<E>,
}

/// The content of a `ReplaceUser`.
pub struct ReplaceUserView<E: UserExtra> {
    pub user_name: Seq<char>,
    pub updates: UserUpdateView<E>,
}

impl<E: UserExtra> View for ReplaceUser<E> {
    type V = ReplaceUserView<E>;

    closed spec fn view(&self) -> ReplaceUserView<E> {
        ReplaceUserView {
            user_name: self.user_name@,
            updates: self.updates@,
        }
    }
}

impl<E: UserExtra> ReplaceUser<E> {
    pub fn new(user_name: String, updates: UserUpdate<E>) -> (r: Self)
        ensures
            r@ == (ReplaceUserView { user_name: user_name@, updates: updates@ }),
    {
        ReplaceUser { user_name, updates }
    }

    /// The request for the user `name` that changes nothing yet.
    pub fn with_name<N: IntoText>(name: N) -> (r: Self)
        ensures
            r@ == (ReplaceUserView::<E> { user_name: name.text_view(),
                updates: UserUpdateView { passwd: None, active: None, extra: None } }),
    {
        ReplaceUser { user_name: name.into_text(), updates: UserUpdate::empty() }
    }

    pub fn user_name(&self) -> (r: &str)
        ensures
            r@ == self@.user_name,
    {
        self.user_name.as_str()
    }

    pub fn updates(&self) -> (r: &UserUpdate<E>)
        ensures
            r@ == self@.updates,
    {
        &self.updates
    }

    /// The updates, to be changed in place.
    pub fn updates_mut(&mut self) -> (r: &mut UserUpdate<E>)
        ensures
            r@ == old(self)@.updates,
            final(self)@ == (ReplaceUserView { updates: final(r)@, ..old(self)@ }),
    {
        &mut self.updates
    }
}

impl<E: UserExtra> Method for ReplaceUser<E> {
    type Result = User<E>;

    fn return_type(&self) -> (r: RpcReturnType)
        ensures
            r == (RpcReturnType { result_field: None, code_field: Some(FIELD_CODE) }),
    {
        RpcReturnType { result_field: None, code_field: Some(FIELD_CODE) }
    }
}

impl<E: UserExtra> Prepare for ReplaceUser<E> {
    type Content = UserUpdate<E>;

    fn operation(&self) -> (r: Operation)
        ensures
            r == Operation::Replace,
    {
        Operation::Replace
    }

    fn path(&self) -> (r: String)
        ensures
            r@ == PATH_API_USER@ + "/"@ + self@.user_name,
    {
        let mut r = PATH_API_USER.to_owned();
        push_segment(&mut r, self.user_name.as_str());
        r
    }

    fn parameters(&self) -> (r: Parameters)
        ensures
            r@ == Seq::<(Seq<char>, Seq<char>)>::empty(),
    {
        Parameters::empty()
    }

    fn header(&self) -> (r: Parameters)
        ensures
            r@ == Seq::<(Seq<char>, Seq<char>)>::empty(),
    {
        Parameters::empty()
    }

    fn content(&self) -> (r: Option<&Self::Content>)
        ensures
            r matches Some(c) && c@ == self@.updates,
    {
        Some(&self.updates)
    }
}

/// Lists the databases a user can access, with its permission on each.
#[derive(Clone, Debug, PartialEq)]
pub struct ListDatabasesForUser {
    user_name: String,
}

/// The content of a `ListDatabasesForUser`.
pub struct ListDatabasesForUserView {
    pub user_name: Seq<char>,
}

impl View for ListDatabasesForUser {
    type V = ListDatabasesForUserView;

    closed spec fn view(&self) -> ListDatabasesForUserView {
        ListDatabasesForUserView {
            user_name: self.user_name@,
        }
    }
}

impl ListDatabasesForUser {
    pub fn new(user_name: String) -> (r: Self)
        ensures
            r@.user_name == user_name@,
    {
        ListDatabasesForUser { user_name }
    }

    pub fn for_user<N: IntoText>(name: N) -> (r: Self)
        ensures
            r@.user_name == name.text_view(),
    {
        ListDatabasesForUser { user_name: name.into_text() }
    }

    pub fn user_name(&self) -> (r: &str)
        ensures
            r@ == self@.user_name,
    {
        self.user_name.as_str()
    }
}

impl Method for ListDatabasesForUser {
    type Result = HashMap<String, Permission>;

    fn return_type(&self) -> (r: RpcReturnType)
        ensures
            r == (RpcReturnType { result_field: Some(FIELD_RESULT), code_field: Some(FIELD_CODE) }),
    {
        RpcReturnType { result_field: Some(FIELD_RESULT), code_field: Some(FIELD_CODE) }
    }
}

impl Prepare for ListDatabasesForUser {
    type Content = ();

    fn operation(&self) -> (r: Operation)
        ensures
            r == Operation::Read,
    {
        Operation::Read
    }

    fn path(&self) -> (r: String)
        ensures
            r@ == PATH_API_USER@ + "/"@ + self@.user_name + "/"@ + PATH_DATABASE@,
    {
        let mut r = PATH_API_USER.to_owned();
        push_segment(&mut r, self.user_name.as_str());
        push_segment(&mut r, PATH_DATABASE);
        r
    }

    fn parameters(&self) -> (r: Parameters)
        ensures
            r@ == Seq::<(Seq<char>, Seq<char>)>::empty(),
    {
        Parameters::empty()
    }

    fn header(&self) -> (r: Parameters)
        ensures
            r@ == Seq::<(Seq<char>, Seq<char>)>::empty(),
    {
        Parameters::empty()
    }

    fn content(&self) -> (r: Option<&Self::Content>)
        ensures
            r is None,
    {
        None
    }
}

/// Reads the permission of a user on a database.
#[derive(Clone, Debug, PartialEq)]
pub struct GetDatabaseAccessLevel {
    user_name: String,
    database: String,
}

/// The content of a `GetDatabaseAccessLevel`.
pub struct GetDatabaseAccessLevelView {
    pub user_name: Seq<char>,
    pub database: Seq<char>,
}

impl View for GetDatabaseAccessLevel {
    type V = GetDatabaseAccessLevelView;

    closed spec fn view(&self) -> GetDatabaseAccessLevelView {
        GetDatabaseAccessLevelView {
            user_name: self.user_name@,
            database: self.database@,
        }
    }
}

impl GetDatabaseAccessLevel {
    pub fn new(user_name: String, database: String) -> (r: Self)
        ensures
            r@ == (GetDatabaseAccessLevelView { user_name: user_name@, database: database@ }),
    {
        GetDatabaseAccessLevel { user_name, database }
    }

    pub fn user_name(&self) -> (r: &str)
        ensures
            r@ == self@.user_name,
    {
        self.user_name.as_str()
    }

    pub fn database(&self) -> (r: &str)
        ensures
            r@ == self@.database,
    {
        self.database.as_str()
    }
}

impl Method for GetDatabaseAccessLevel {
    type Result = Permission;

    fn return_type(&self) -> (r: RpcReturnType)
        ensures
            r == (RpcReturnType { result_field: Some(FIELD_RESULT), code_field: Some(FIELD_CODE) }),
    {
        RpcReturnType { result_field: Some(FIELD_RESULT), code_field: Some(FIELD_CODE) }
    }
}

impl Prepare for GetDatabaseAccessLevel {
    type Content = ();

    fn operation(&self) -> (r: Operation)
        ensures
            r == Operation::Read,
    {
        Operation::Read
    }

    fn path(&self) -> (r: String)
        ensures
            r@ == PATH_API_USER@ + "/"@ + self@.user_name + "/"@ + PATH_DATABASE@ + "/"@ + self@.database,
    {
        let mut r = PATH_API_USER.to_owned();
        push_segment(&mut r, self.user_name.as_str());
        push_segment(&mut r, PATH_DATABASE);
        push_segment(&mut r, self.database.as_str());
        r
    }

    fn parameters(&self) -> (r: Parameters)
        ensures
            r@ == Seq::<(Seq<char>, Seq<char>)>::empty(),
    {
        Parameters::empty()
    }

    fn header(&self) -> (r: Parameters)
        ensures
            r@ == Seq::<(Seq<char>, Seq<char>)>::empty(),
    {
        Parameters::empty()
    }

    fn content(&self) -> (r: Option<&Self::Content>)
        ensures
            r is None,
    {
        None
    }
}

/// Grants a user a permission on a database.
#[derive(Clone, Debug, PartialEq)]
pub struct SetDatabaseAccessLevel {
    user_name: String,
    database: String,
    access_level: NewAccessLevel,
}

/// The content of a `SetDatabaseAccessLevel`.
pub struct SetDatabaseAccessLevelView {
    pub user_name: Seq<char>,
    pub database: Seq<char>,
    pub access_level: NewAccessLevelView,
}

impl View for SetDatabaseAccessLevel {
    type V = SetDatabaseAccessLevelView;

    closed spec fn view(&self) -> SetDatabaseAccessLevelView {
        SetDatabaseAccessLevelView {
            user_name: self.user_name@,
            database: self.database@,
            access_level: self.access_level@,
        }
    }
}

impl SetDatabaseAccessLevel {
    pub fn new(user_name: String, database: String, grant: Permission) -> (r: Self)
        ensures
            r@ == (SetDatabaseAccessLevelView { user_name: user_name@, database: database@, access_level: NewAccessLevelView { grant } }),
    {
        SetDatabaseAccessLevel { user_name, database, access_level: NewAccessLevel::new(grant) }
    }

    pub fn user_name(&self) -> (r: &str)
        ensures
            r@ == self@.user_name,
    {
        self.user_name.as_str()
    }

    pub fn database(&self) -> (r: &str)
        ensures
            r@ == self@.database,
    {
        self.database.as_str()
    }

    pub fn access_level(&self) -> (r: &NewAccessLevel)
        ensures
            r@ == self@.access_level,
    {
        &self.access_level
    }
}

impl Method for SetDatabaseAccessLevel {
    type Result = Empty;

    fn return_type(&self) -> (r: RpcReturnType)
        ensures
            r == (RpcReturnType { result_field: None, code_field: Some(FIELD_CODE) }),
    {
        RpcReturnType { result_field: None, code_field: Some(FIELD_CODE) }
    }
}

impl Prepare for SetDatabaseAccessLevel {
    type Content = NewAccessLevel;

    fn operation(&self) -> (r: Operation)
        ensures
            r == Operation::Replace,
    {
        Operation::Replace
    }

    fn path(&self) -> (r: String)
        ensures
            r@ == PATH_API_USER@ + "/"@ + self@.user_name + "/"@ + PATH_DATABASE@ + "/"@ + self@.database,
    {
        let mut r = PATH_API_USER.to_owned();
        push_segment(&mut r, self.user_name.as_str());
        push_segment(&mut r, PATH_DATABASE);
        push_segment(&mut r, self.database.as_str());
        r
    }

    fn parameters(&self) -> (r: Parameters)
        ensures
            r@ == Seq::<(Seq<char>, Seq<char>)>::empty(),
    {
        Parameters::empty()
    }

    fn header(&self) -> (r: Parameters)
        ensures
            r@ == Seq::<(Seq<char>, Seq<char>)>::empty(),
    {
        Parameters::empty()
    }

    fn content(&self) -> (r: Option<&Self::Content>)
        ensures
            r matches Some(c) && c@ == self@.access_level,
    {
        Some(&self.access_level)
    }
}

/// Takes back the permission a user was granted on a database.
#[derive(Clone, Debug, PartialEq)]
pub struct ResetDatabaseAccessLevel {
    user_name: String,
    database: String,
}

/// The content of a `ResetDatabaseAccessLevel`.
pub struct ResetDatabaseAccessLevelView {
    pub user_name: Seq<char>,
    pub database: Seq<char>,
}

impl View for ResetDatabaseAccessLevel {
    type V = ResetDatabaseAccessLevelView;

    closed spec fn view(&self) -> ResetDatabaseAccessLevelView {
        ResetDatabaseAccessLevelView {
            user_name: self.user_name@,
            database: self.database@,
        }
    }
}

impl ResetDatabaseAccessLevel {
    pub fn new(user_name: String, database: String) -> (r: Self)
        ensures
            r@ == (ResetDatabaseAccessLevelView { user_name: user_name@, database: database@ }),
    {
        ResetDatabaseAccessLevel { user_name, database }
    }

    pub fn user_name(&self) -> (r: &str)
        ensures
            r@ == self@.user_name,
    {
        self.user_name.as_str()
    }

    pub fn database(&self) -> (r: &str)
        ensures
            r@ == self@.database,
    {
        self.database.as_str()
    }
}

impl Method for ResetDatabaseAccessLevel {
    type Result = Empty;

    fn return_type(&self) -> (r: RpcReturnType)
        ensures
            r == (RpcReturnType { result_field: None, code_field: Some(FIELD_CODE) }),
    {
        RpcReturnType { result_field: None, code_field: Some(FIELD_CODE) }
    }
}

impl Prepare for ResetDatabaseAccessLevel {
    type Content = ();

    fn operation(&self) -> (r: Operation)
        ensures
            r == Operation::Delete,
    {
        Operation::Delete
    }

    fn path(&self) -> (r: String)
        ensures
            r@ == PATH_API_USER@ + "/"@ + self@.user_name + "/"@ + PATH_DATABASE@ + "/"@ + self@.database,
    {
        let mut r = PATH_API_USER.to_owned();
        push_segment(&mut r, self.user_name.as_str());
        push_segment(&mut r, PATH_DATABASE);
        push_segment(&mut r, self.database.as_str());
        r
    }

    fn parameters(&self) -> (r: Parameters)
        ensures
            r@ == Seq::<(Seq<char>, Seq<char>)>::empty(),
    {
        Parameters::empty()
    }

    fn header(&self) -> (r: Parameters)
        ensures
            r@ == Seq::<(Seq<char>, Seq<char>)>::empty(),
    {
        Parameters::empty()
    }

    fn content(&self) -> (r: Option<&Self::Content>)
        ensures
            r is None,
    {
        None
    }
}

/// Reads the permission of a user on a collection.
#[derive(Clone, Debug, PartialEq)]
pub struct GetCollectionAccessLevel {
    user_name: String,
    database: String,
    collection: String,
}

/// The content of a `GetCollectionAccessLevel`.
pub struct GetCollectionAccessLevelView {
    pub user_name: Seq<char>,
    pub database: Seq<char>,
    pub collection: Seq<char>,
}

impl View for GetCollectionAccessLevel {
    type V = GetCollectionAccessLevelView;

    closed spec fn view(&self) -> GetCollectionAccessLevelView {
        GetCollectionAccessLevelView {
            user_name: self.user_name@,
            database: self.database@,
            collection: self.collection@,
        }
    }
}

impl GetCollectionAccessLevel {
    pub fn new(user_name: String, database: String, collection: String) -> (r: Self)
        ensures
            r@ == (GetCollectionAccessLevelView { user_name: user_name@, database: database@, collection: collection@ }),
    {
        GetCollectionAccessLevel { user_name, database, collection }
    }

    pub fn user_name(&self) -> (r: &str)
        ensures
            r@ == self@.user_name,
    {
        self.user_name.as_str()
    }

    pub fn database(&self) -> (r: &str)
        ensures
            r@ == self@.database,
    {
        self.database.as_str()
    }

    pub fn collection(&self) -> (r: &str)
        ensures
            r@ == self@.collection,
    {
        self.collection.as_str()
    }
}

impl Method for GetCollectionAccessLevel {
    type Result = Permission;

    fn return_type(&self) -> (r: RpcReturnType)
        ensures
            r == (RpcReturnType { result_field: Some(FIELD_RESULT), code_field: Some(FIELD_CODE) }),
    {
        RpcReturnType { result_field: Some(FIELD_RESULT), code_field: Some(FIELD_CODE) }
    }
}

impl Prepare for GetCollectionAccessLevel {
    type Content = ();

    fn operation(&self) -> (r: Operation)
        ensures
            r == Operation::Read,
    {
        Operation::Read
    }

    fn path(&self) -> (r: String)
        ensures
            r@ == PATH_API_USER@ + "/"@ + self@.user_name + "/"@ + PATH_DATABASE@ + "/"@ + self@.database + "/"@ + self@.collection,
    {
        let mut r = PATH_API_USER.to_owned();
        push_segment(&mut r, self.user_name.as_str());
        push_segment(&mut r, PATH_DATABASE);
        push_segment(&mut r, self.database.as_str());
        push_segment(&mut r, self.collection.as_str());
        r
    }

    fn parameters(&self) -> (r: Parameters)
        ensures
            r@ == Seq::<(Seq<char>, Seq<char>)>::empty(),
    {
        Parameters::empty()
    }

    fn header(&self) -> (r: Parameters)
        ensures
            r@ == Seq::<(Seq<char>, Seq<char>)>::empty(),
    {
        Parameters::empty()
    }

    fn content(&self) -> (r: Option<&Self::Content>)
        ensures
            r is None,
    {
        None
    }
}

/// Grants a user a permission on a collection.
#[derive(Clone, Debug, PartialEq)]
pub struct SetCollectionAccessLevel {
    user_name: String,
    database: String,
    collection: String,
    access_level: NewAccessLevel,
}

/// The content of a `SetCollectionAccessLevel`.
pub struct SetCollectionAccessLevelView {
    pub user_name: Seq<char>,
    pub database: Seq<char>,
    pub collection: Seq<char>,
    pub access_level: NewAccessLevelView,
}

impl View for SetCollectionAccessLevel {
    type V = SetCollectionAccessLevelView;

    closed spec fn view(&self) -> SetCollectionAccessLevelView {
        SetCollectionAccessLevelView {
            user_name: self.user_name@,
            database: self.database@,
            collection: self.collection@,
            access_level: self.access_level@,
        }
    }
}

impl SetCollectionAccessLevel {
    pub fn new(user_name: String, database: String, collection: String, grant: Permission) -> (r: Self)
        ensures
            r@ == (SetCollectionAccessLevelView { user_name: user_name@, database: database@, collection: collection@, access_level: NewAccessLevelView { grant } }),
    {
        SetCollectionAccessLevel { user_name, database, collection, access_level: NewAccessLevel::new(grant) }
    }

    pub fn user_name(&self) -> (r: &str)
        ensures
            r@ == self@.user_name,
    {
        self.user_name.as_str()
    }

    pub fn database(&self) -> (r: &str)
        ensures
            r@ == self@.database,
    {
        self.database.as_str()
    }

    pub fn collection(&self) -> (r: &str)
        ensures
            r@ == self@.collection,
    {
        self.collection.as_str()
    }

    pub fn access_level(&self) -> (r: &NewAccessLevel)
        ensures
            r@ == self@.access_level,
    {
        &self.access_level
    }
}

impl Method for SetCollectionAccessLevel {
    type Result = Empty;

    fn return_type(&self) -> (r: RpcReturnType)
        ensures
            r == (RpcReturnType { result_field: None, code_field: Some(FIELD_CODE) }),
    {
        RpcReturnType { result_field: None, code_field: Some(FIELD_CODE) }
    }
}

impl Prepare for SetCollectionAccessLevel {
    type Content = NewAccessLevel;

    fn operation(&self) -> (r: Operation)
        ensures
            r == Operation::Replace,
    {
        Operation::Replace
    }

    fn path(&self) -> (r: String)
        ensures
            r@ == PATH_API_USER@ + "/"@ + self@.user_name + "/"@ + PATH_DATABASE@ + "/"@ + self@.database + "/"@ + self@.collection,
    {
        let mut r = PATH_API_USER.to_owned();
        push_segment(&mut r, self.user_name.as_str());
        push_segment(&mut r, PATH_DATABASE);
        push_segment(&mut r, self.database.as_str());
        push_segment(&mut r, self.collection.as_str());
        r
    }

    fn parameters(&self) -> (r: Parameters)
        ensures
            r@ == Seq::<(Seq<char>, Seq<char>)>::empty(),
    {
        Parameters::empty()
    }

    fn header(&self) -> (r: Parameters)
        ensures
            r@ == Seq::<(Seq<char>, Seq<char>)>::empty(),
    {
        Parameters::empty()
    }

    fn content(&self) -> (r: Option<&Self::Content>)
        ensures
            r matches Some(c) && c@ == self@.access_level,
    {
        Some(&self.access_level)
    }
}

/// Takes back the permission a user was granted on a collection.
#[derive(Clone, Debug, PartialEq)]
pub struct ResetCollectionAccessLevel {
    user_name: String,
    database: String,
    collection: String,
}

/// The content of a `ResetCollectionAccessLevel`.
pub struct ResetCollectionAccessLevelView {
    pub user_name: Seq<char>,
    pub database: Seq<char>,
    pub collection: Seq<char>,
}

impl View for ResetCollectionAccessLevel {
    type V = ResetCollectionAccessLevelView;

    closed spec fn view(&self) -> ResetCollectionAccessLevelView {
        ResetCollectionAccessLevelView {
            user_name: self.user_name@,
            database: self.database@,
            collection: self.collection@,
        }
    }
}

impl ResetCollectionAccessLevel {
    pub fn new(user_name: String, database: String, collection: String) -> (r: Self)
        ensures
            r@ == (ResetCollectionAccessLevelView { user_name: user_name@, database: database@, collection: collection@ }),
    {
        ResetCollectionAccessLevel { user_name, database, collection }
    }

    pub fn user_name(&self) -> (r: &str)
        ensures
            r@ == self@.user_name,
    {
        self.user_name.as_str()
    }

    pub fn database(&self) -> (r: &str)
        ensures
            r@ == self@.database,
    {
        self.database.as_str()
    }

    pub fn collection(&self) -> (r: &str)
        ensures
            r@ == self@.collection,
    {
        self.collection.as_str()
    }
}

impl Method for ResetCollectionAccessLevel {
    type Result = Empty;

    fn return_type(&self) -> (r: RpcReturnType)
        ensures
            r == (RpcReturnType { result_field: None, code_field: Some(FIELD_CODE) }),
    {
        RpcReturnType { result_field: None, code_field: Some(FIELD_CODE) }
    }
}

impl Prepare for ResetCollectionAccessLevel {
    type Content = ();

    fn operation(&self) -> (r: Operation)
        ensures
            r == Operation::Delete,
    {
        Operation::Delete
    }

    fn path(&self) -> (r: String)
        ensures
            r@ == PATH_API_USER@ + "/"@ + self@.user_name + "/"@ + PATH_DATABASE@ + "/"@ + self@.database + "/"@ + self@.collection,
    {
        let mut r = PATH_API_USER.to_owned();
        push_segment(&mut r, self.user_name.as_str());
        push_segment(&mut r, PATH_DATABASE);
        push_segment(&mut r, self.database.as_str());
        push_segment(&mut r, self.collection.as_str());
        r
    }

    fn parameters(&self) -> (r: Parameters)
        ensures
            r@ == Seq::<(Seq<char>, Seq<char>)>::empty(),
    {
        Parameters::empty()
    }

    fn header(&self) -> (r: Parameters)
        ensures
            r@ == Seq::<(Seq<char>, Seq<char>)>::empty(),
    {
        Parameters::empty()
    }

    fn content(&self) -> (r: Option<&Self::Content>)
        ensures
            r is None,
    {
        None
    }
}

} // verus!
