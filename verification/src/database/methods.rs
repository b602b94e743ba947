//! The request methods on databases.

use vstd::prelude::*;
use crate::api::arg::IntoText;
use crate::api::method::{Method, Operation, Parameters, Prepare, RpcReturnType};
use crate::api::text::push_segment;
use crate::arango::protocol::{FIELD_CODE, FIELD_RESULT, PATH_API_DATABASE, PATH_CURRENT, PATH_USER};
use crate::database::types::{DatabaseInfo, NewDatabase, NewDatabaseView};
use crate::user::types::UserExtra;

verus! {

/// Reads the description of the database the request is sent to.
#[derive(Debug, PartialEq, Eq)]
pub struct GetCurrentDatabase {}

impl GetCurrentDatabase {
    pub fn new() -> (r: Self)
        ensures
            r == (GetCurrentDatabase {}),
    {
        GetCurrentDatabase {}
    }
}

impl Method for GetCurrentDatabase {
    type Result = DatabaseInfo;

    fn return_type(&self) -> (r: RpcReturnType)
        ensures
            r == (RpcReturnType { result_field: Some(FIELD_RESULT), code_field: Some(FIELD_CODE) }),
    {
        RpcReturnType { result_field: Some(FIELD_RESULT), code_field: Some(FIELD_CODE) }
    }
}

impl Prepare for GetCurrentDatabase {
    type Content = ();

    fn operation(&self) -> (r: Operation)
        ensures
            r == Operation::Read,
    {
        Operation::Read
    }

    fn path(&self) -> (r: String)
        ensures
            r@ == PATH_API_DATABASE@ + "/"@ + PATH_CURRENT@,
    {
        let mut r = PATH_API_DATABASE.to_owned();
        push_segment(&mut r, PATH_CURRENT);
        r
    }

    fn parameters(&self) -> (r: Parameters)
        ensures
            r@ == Seq::<(Seq<char>, Seq<char>)>::empty(),
    {
        Parameters::empty()
    }

    fn header(&self) -> (r: Parameters)
        ensures
            r@ == Seq::<(Seq<char>, Seq<char>)>::empty(),
    {
        Parameters::empty()
    }

    fn content(&self) -> (r: Option<&Self::Content>)
        ensures
            r is None,
    {
        None
    }
}

/// Lists the names of all databases.
#[derive(Debug, PartialEq, Eq)]
pub struct ListOfDatabases {}

impl ListOfDatabases {
    pub fn new() -> (r: Self)
        ensures
            r == (ListOfDatabases {}),
    {
        ListOfDatabases {}
    }
}

impl Method for ListOfDatabases {
    type Result = Vec<String>;

    fn return_type(&self) -> (r: RpcReturnType)
        ensures
            r == (RpcReturnType { result_field: Some(FIELD_RESULT), code_field: Some(FIELD_CODE) }),
    {
        RpcReturnType { result_field: Some(FIELD_RESULT), code_field: Some(FIELD_CODE) }
    }
}

impl Prepare for ListOfDatabases {
    type Content = ();

    fn operation(&self) -> (r: Operation)
        ensures
            r == Operation::Read,
    {
        Operation::Read
    }

    fn path(&self) -> (r: String)
        ensures
            r@ == PATH_API_DATABASE@,
    {
        let mut r = PATH_API_DATABASE.to_owned();
        r
    }

    fn parameters(&self) -> (r: Parameters)
        ensures
            r@ == Seq::<(Seq<char>, Seq<char>)>::empty(),
    {
        Parameters::empty()
    }

    fn header(&self) -> (r: Parameters)
        ensures
            r@ == Seq::<(Seq<char>, Seq<char>)>::empty(),
    {
        Parameters::empty()
    }

    fn content(&self) -> (r: Option<&Self::Content>)
        ensures
            r is None,
    {
        None
    }
}

/// Lists the names of the databases the current user can access.
#[derive(Debug, PartialEq, Eq)]
pub struct ListAccessibleDatabases {}

impl ListAccessibleDatabases {
    pub fn new() -> (r: Self)
        ensures
            r == (ListAccessibleDatabases {}),
    {
        ListAccessibleDatabases {}
    }
}

impl Method for ListAccessibleDatabases {
    type Result = Vec<String>;

    fn return_type(&self) -> (r: RpcReturnType)
        ensures
            r == (RpcReturnType { result_field: Some(FIELD_RESULT), code_field: Some(FIELD_CODE) }),
    {
        RpcReturnType { result_field: Some(FIELD_RESULT), code_field: Some(FIELD_CODE) }
    }
}

impl Prepare for ListAccessibleDatabases {
    type Content = ();

    fn operation(&self) -> (r: Operation)
        ensures
            r == Operation::Read,
    {
        Operation::Read
    }

    fn path(&self) -> (r: String)
        ensures
            r@ == PATH_API_DATABASE@ + "/"@ + PATH_USER@,
    {
        let mut r = PATH_API_DATABASE.to_owned();
        push_segment(&mut r, PATH_USER);
        r
    }

    fn parameters(&self) -> (r: Parameters)
        ensures
            r@ == Seq::<(Seq<char>, Seq<char>)>::empty(),
    {
        Parameters::empty()
    }

    fn header(&self) -> (r: Parameters)
        ensures
            r@ == Seq::<(Seq<char>, Seq<char>)>::empty(),
    {
        Parameters::empty()
    }

    fn content(&self) -> (r: Option<&Self::Content>)
        ensures
            r is None,
    {
        None
    }
}

/// Creates a database.
#[derive(Debug, PartialEq)]
pub struct CreateDatabase<'a, T: 'a + UserExtra> {
    database: NewDatabase<'a, T>,
}

/// The content of a `CreateDatabase`.
pub struct CreateDatabaseView<T: UserExtra> {
    pub database: NewDatabaseView<T>,
}

impl<'a, T: 'a + UserExtra> View for CreateDatabase<'a, T> {
    type V = CreateDatabaseView<T>;

    closed spec fn view(&self) -> CreateDatabaseView<T> {
        CreateDatabaseView { database: self.database@ }
    }
}

impl<'a, T: 'a + UserExtra> CreateDatabase<'a, T> {
    pub fn new(database: NewDatabase<'a, T>) -> (r: Self)
        ensures
            r@.database == database@,
    {
        CreateDatabase { database }
    }

    pub fn database(&self) -> (r: &NewDatabase<'a, T>)
        ensures
            r@ == self@.database,
    {
        &self.database
    }
}

impl<'a, T: 'a + UserExtra> Method for CreateDatabase<'a, T> {
    type Result = bool;

    fn return_type(&self) -> (r: RpcReturnType)
        ensures
            r == (RpcReturnType { result_field: Some(FIELD_RESULT), code_field: Some(FIELD_CODE) }),
    {
        RpcReturnType { result_field: Some(FIELD_RESULT), code_field: Some(FIELD_CODE) }
    }
}

impl<'a, T: 'a + UserExtra> Prepare for CreateDatabase<'a, T> {
    type Content = NewDatabase<'a, T>;

    fn operation(&self) -> (r: Operation)
        ensures
            r == Operation::Create,
    {
        Operation::Create
    }

    fn path(&self) -> (r: String)
        ensures
            r@ == PATH_API_DATABASE@,
    {
        let mut r = PATH_API_DATABASE.to_owned();
        r
    }

    fn parameters(&self) -> (r: Parameters)
        ensures
            r@ == Seq::<(Seq<char>, Seq<char>)>::empty(),
    {
        Parameters::empty()
    }

    fn header(&self) -> (r: Parameters)
        ensures
            r@ == Seq::<(Seq<char>, Seq<char>)>::empty(),
    {
        Parameters::empty()
    }

    fn content(&self) -> (r: Option<&Self::Content>)
        ensures
            r matches Some(c) && c@ == self@.database,
    {
        Some(&self.database)
    }
}

/// Drops a database.
#[derive(Debug, PartialEq, Eq)]
pub struct DropDatabase {
    database_name: String,
}

/// The content of a `DropDatabase`.
pub struct DropDatabaseView {
    pub database_name: Seq<char>,
}

impl View for DropDatabase {
    type V = DropDatabaseView;

    closed spec fn view(&self) -> DropDatabaseView {
        DropDatabaseView {
            database_name: self.database_name@,
        }
    }
}

impl DropDatabase {
    pub fn new<N: IntoText>(database_name: N) -> (r: Self)
        ensures
            r@.database_name == database_name.text_view(),
    {
        DropDatabase { database_name: database_name.into_text() }
    }

    pub fn database_name(&self) -> (r: &str)
        ensures
            r@ == self@.database_name,
    {
        self.database_name.as_str()
    }
}

impl Method for DropDatabase {
    type Result = bool;

    fn return_type(&self) -> (r: RpcReturnType)
        ensures
            r == (RpcReturnType { result_field: Some(FIELD_RESULT), code_field: Some(FIELD_CODE) }),
    {
        RpcReturnType { result_field: Some(FIELD_RESULT), code_field: Some(FIELD_CODE) }
    }
}

impl Prepare for DropDatabase {
    type Content = ();

    fn operation(&self) -> (r: Operation)
        ensures
            r == Operation::Delete,
    {
        Operation::Delete
    }

    fn path(&self) -> (r: String)
        ensures
            r@ == PATH_API_DATABASE@ + "/"@ + self@.database_name,
    {
        let mut r = PATH_API_DATABASE.to_owned();
        push_segment(&mut r, self.database_name.as_str());
        r
    }

    fn parameters(&self) -> (r: Parameters)
        ensures
            r@ == Seq::<(Seq<char>, Seq<char>)>::empty(),
    {
        Parameters::empty()
    }

    fn header(&self) -> (r: Parameters)
        ensures
            r@ == Seq::<(Seq<char>, Seq<char>)>::empty(),
    {
        Parameters::empty()
    }

    fn content(&self) -> (r: Option<&Self::Content>)
        ensures
            r is None,
    {
        None
    }
}

} // verus!
