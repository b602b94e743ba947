use rincon::admin::methods::{GetServerVersion, GetTargetVersion};
use rincon::api::method::{Method, Operation, Parameters, Prepare};
use rincon::authentication::methods::Authenticate;
use rincon::collection::methods::{ChangeCollectionProperties, CreateCollection, DropCollection, GetCollection,
    GetCollectionProperties, ListCollections, RenameCollection};
use rincon::collection::types::CollectionPropertiesUpdate;
use rincon::database::methods::{DropDatabase, GetCurrentDatabase, ListAccessibleDatabases, ListOfDatabases};
use rincon::document::methods::{GetDocument, GetDocumentHeader, InsertDocument, InsertDocumentReturnNew};
use rincon::document::types::{DocumentId, NewDocument};
use rincon::index::methods::{DeleteIndex, GetIndex, GetIndexList};
use rincon::index::types::IndexId;
use rincon::user::methods::{GetCollectionAccessLevel, ListDatabasesForUser, RemoveUser,
    SetDatabaseAccessLevel};
use rincon::user::types::Permission;

fn pairs(params: &Parameters) -> Vec<(String, String)> {
    let mut out = Vec::new();
    for i in 0..params.len() {
        out.push(params.get(i).clone());
    }
    out
}

fn pair(name: &str, value: &str) -> (String, String) {
    (name.to_owned(), value.to_owned())
}

#[test]
fn list_collections_excludes_system_collections_by_default() {
    let method = ListCollections::new();
    assert_eq!("/_api/collection", method.path());
    assert_eq!(vec![pair("excludeSystem", "true")], pairs(&method.parameters()));
    let method = ListCollections::including_system();
    assert!(method.parameters().is_empty());
    assert_eq!(Some("result"), method.return_type().result_field);
}

#[test]
fn collection_method_paths() {
    assert_eq!("/_api/collection/users", DropCollection::with_name("users").path());
    assert_eq!(Operation::Delete, DropCollection::with_name("users").operation());
    assert_eq!("/_api/collection/users", GetCollection::with_name("users").path());
    assert_eq!("/_api/collection/users/properties", GetCollectionProperties::with_name("users").path());
    let change = ChangeCollectionProperties::new("users".to_owned(), CollectionPropertiesUpdate::new());
    assert_eq!("/_api/collection/users/properties", change.path());
    assert_eq!(Operation::Replace, change.operation());
    let rename = RenameCollection::with_name("users").to_name("customers");
    assert_eq!("/_api/collection/users/rename", rename.path());
    assert_eq!("customers", rename.content().unwrap().name());
}

#[test]
fn create_collection_waits_for_replication_unless_told_otherwise() {
    let mut method = CreateCollection::documents_with_name("users");
    assert!(method.parameters().is_empty());
    assert_eq!("users", method.content().unwrap().name());
    method.set_wait_for_sync_replication(false);
    assert_eq!(vec![pair("waitForSyncReplication", "0")], pairs(&method.parameters()));
}

#[test]
fn database_method_paths() {
    assert_eq!("/_api/database/current", GetCurrentDatabase::new().path());
    assert_eq!("/_api/database", ListOfDatabases::new().path());
    assert_eq!("/_api/database/user", ListAccessibleDatabases::new().path());
    assert_eq!("/_api/database/shop", DropDatabase::new("shop").path());
}

#[test]
fn insert_document_parameters() {
    let method = InsertDocument::new("users", NewDocument::from_content(42))
        .with_force_wait_for_sync(true)
        .with_silent(false);
    assert_eq!("/_api/document/users", method.path());
    assert_eq!(vec![pair("returnNew", "false"), pair("waitForSync", "true"), pair("silent", "false")],
        pairs(&method.parameters()));
    let method = InsertDocumentReturnNew::new("users", NewDocument::from_content(42));
    assert_eq!(vec![pair("returnNew", "true")], pairs(&method.parameters()));
    assert_eq!(&42, method.content().unwrap().content());
}

#[test]
fn get_document_headers() {
    let id = DocumentId::new("users", "4711");
    let method: GetDocument<u32> = GetDocument::new(id.clone()).with_if_match("rev1".to_owned());
    assert_eq!("/_api/document/users/4711", method.path());
    assert_eq!(vec![pair("If-Match", "rev1")], pairs(&method.header()));
    let method = GetDocumentHeader::new(id).with_if_non_match("rev2".to_owned());
    assert_eq!(Operation::ReadHeader, method.operation());
    assert_eq!(vec![pair("If-None-Match", "rev2")], pairs(&method.header()));
}

#[test]
fn index_method_paths() {
    let method = GetIndexList::of_collection("users");
    assert_eq!("/_api/index", method.path());
    assert_eq!(vec![pair("collection", "users")], pairs(&method.parameters()));
    let id = IndexId::new("users", "0");
    assert_eq!("/_api/index/users/0", GetIndex::new(id.clone()).path());
    assert_eq!("/_api/index/users/0", DeleteIndex::new(id).path());
}

#[test]
fn user_method_paths() {
    assert_eq!("/_api/user/anna", RemoveUser::with_name("anna").path());
    assert_eq!("/_api/user/anna/database", ListDatabasesForUser::for_user("anna").path());
    let set = SetDatabaseAccessLevel::new("anna".to_owned(), "shop".to_owned(), Permission::ReadOnly);
    assert_eq!("/_api/user/anna/database/shop", set.path());
    assert_eq!(&Permission::ReadOnly, set.content().unwrap().grant());
    let get = GetCollectionAccessLevel::new("anna".to_owned(), "shop".to_owned(), "orders".to_owned());
    assert_eq!("/_api/user/anna/database/shop/orders", get.path());
}

#[test]
fn admin_and_authentication_methods() {
    assert_eq!("/_admin/database/target-version", GetTargetVersion::new().path());
    assert!(GetServerVersion::new().parameters().is_empty());
    assert_eq!(vec![pair("details", "true")], pairs(&GetServerVersion::with_details().parameters()));
    let auth = Authenticate::with_user("anna", "pw");
    assert_eq!("/_open/auth", auth.path());
    assert_eq!(Operation::Create, auth.operation());
    assert_eq!("anna", auth.content().unwrap().username());
}

#[test]
fn parameters_are_displayed_in_order() {
    let mut params = Parameters::new();
    assert_eq!("Parameters[]", params.to_string());
    params.push("a", "1");
    params.insert("b", true);
    assert_eq!("Parameters[a=1, b=true]", params.to_string());
}
