use rincon::admin::types::ServerVersion;
use rincon::api::error_code::ErrorCode;
use rincon::api::types::{Empty, JsonString};
use rincon::aql::plan::{EnumerateListNode, ExecutionNode, GenericExecutionNode, ScatterNode};
use rincon::aql::types::{ExecutionNodeId, ExecutionNodeType, ExecutionVariable, ExecutionVariableId,
    OptimizerRule, OptimizerRuleSet};
use rincon::collection::types::{CollectionStatus, CollectionType};
use rincon::graph::types::NewEdge;
use rincon::document::types::{DocumentId, DocumentKey};
use rincon::statement::{Document, Operation, Parameters, PreparedStatement, StatementResult};
use rincon::user::types::{NewUser, Permission, User, UserUpdate, DEFAULT_ROOT_PASSWORD};

#[test]
fn server_version_parts() {
    let version = ServerVersion::new("arango", "3.2.14", "community", None);
    assert_eq!("3", version.major());
    assert_eq!("2", version.minor());
    assert_eq!("14", version.sub());
    let version = ServerVersion::new("arango", "3.11", "community", Some(JsonString::new("{}")));
    assert_eq!("3", version.major());
    assert_eq!("11", version.minor());
    assert_eq!(Some(&JsonString::new("{}")), version.details());
    let version = ServerVersion::new("arango", "devel", "community", None);
    assert_eq!("devel", version.major());
}

#[test]
fn permission_names_are_read_back() {
    for p in [Permission::ReadWrite, Permission::ReadOnly, Permission::NoAccess] {
        assert_eq!(Ok(p), Permission::from_str(p.as_str()));
    }
    assert_eq!("rw", Permission::ReadWrite.as_str());
    assert_eq!("Read Only", Permission::ReadOnly.to_string());
    assert_eq!("No access", Permission::NoAccess.to_string());
    assert_eq!(Err("Not a valid permission string: admin".to_owned()), Permission::from_str("admin"));
}

#[test]
fn new_user_with_default_root_password() {
    let user: NewUser<Empty> = NewUser::with_default_root_password("root");
    assert_eq!("root", user.name());
    assert_eq!(Some(&DEFAULT_ROOT_PASSWORD.to_owned()), user.password());
    assert_eq!(None, user.is_active());
    let mut user: NewUser<Empty> = NewUser::with_name("cesar", "s3cr3t");
    user.set_active(Some(false));
    assert_eq!(Some(false), user.is_active());
    assert_eq!(Some(&"s3cr3t".to_owned()), user.password());
}

#[test]
fn user_update_from_user_keeps_the_password() {
    let user = User::new("cesar", true, Empty {});
    let update = UserUpdate::from(user);
    assert_eq!(None, update.password());
    assert_eq!(Some(true), update.is_active());
    assert_eq!(Some(&Empty {}), update.extra());
}

#[test]
fn collection_type_and_status_numbers_are_read_back() {
    assert_eq!(Some(CollectionType::Documents), CollectionType::from_type_id(2));
    assert_eq!(Some(CollectionType::Edges), CollectionType::from_type_id(CollectionType::Edges.type_id() as u64));
    assert_eq!(None, CollectionType::from_type_id(4));
    let status = CollectionStatus::from_status_id(3);
    assert_eq!(3, status.status_id());
}

#[test]
fn error_codes_are_read_back() {
    assert_eq!(ErrorCode::ArangoDocumentNotFound, ErrorCode::from_u16(1202));
    assert_eq!(1202, ErrorCode::ArangoDocumentNotFound.as_u16());
    assert_eq!(ErrorCode::UnknownError, ErrorCode::from_u16(65000));
}

#[test]
fn optimizer_rule_set_includes_and_excludes() {
    let mut rules = OptimizerRuleSet::new();
    rules.include_rule(OptimizerRule::UseIndexes).exclude(OptimizerRule::MoveFiltersUp);
    assert!(rules.includes(&OptimizerRule::UseIndexes));
    assert!(rules.excludes(&OptimizerRule::MoveFiltersUp));
    rules.exclude(OptimizerRule::UseIndexes);
    assert!(!rules.includes(&OptimizerRule::UseIndexes));
    assert!(rules.excludes(&OptimizerRule::UseIndexes));
    rules.remove(&OptimizerRule::UseIndexes);
    assert!(!rules.contains(&OptimizerRule::UseIndexes));
    assert_eq!(OptimizerRule::UseIndexes, OptimizerRule::from_api_str(OptimizerRule::UseIndexes.as_api_str()));
}

#[test]
fn optimizer_rule_set_gives_one_text_per_rule() {
    let mut rules = OptimizerRuleSet::new();
    rules.include_rule(OptimizerRule::UseIndexes).exclude(OptimizerRule::MoveFiltersUp);
    rules.include_rule(OptimizerRule::MoveFiltersUp).exclude(OptimizerRule::UseIndexes);
    rules.include_rule(OptimizerRule::SortInValues);
    assert_eq!(vec!["-use-indexes".to_owned(), "+move-filters-up".to_owned(), "+sort-in-values".to_owned()],
        rules.to_api_list());
}

fn generic(kind: ExecutionNodeType, in_variable: Option<ExecutionVariable>) -> GenericExecutionNode {
    GenericExecutionNode::new(kind, ExecutionNodeId(2), vec![ExecutionNodeId(1)], 1.5f64.to_bits(), 10,
        None, None, None, in_variable, None, None, None, None, None, None, None, None, None, None, None, None,
        None, None)
}

#[test]
fn execution_node_from_generic_fields() {
    let var = ExecutionVariable::new(ExecutionVariableId(0), "u");
    match ExecutionNode::from_generic(generic(ExecutionNodeType::ReturnNode, Some(var))) {
        Ok(ExecutionNode::Return(_)) => {},
        other => panic!("unexpected {:?}", other),
    }
    assert_eq!(Err("Unsupported type/fields combination".to_owned()),
        ExecutionNode::from_generic(generic(ExecutionNodeType::FilterNode, None)));
    match ExecutionNode::from_generic(generic(ExecutionNodeType::SingletonNode, None)) {
        Ok(ExecutionNode::Singleton(_)) => {},
        other => panic!("unexpected {:?}", other),
    }
    assert_eq!(Ok(ExecutionNode::Scatter(ScatterNode::new(ExecutionNodeId(2), vec![ExecutionNodeId(1)],
        1.5f64.to_bits(), 10))), ExecutionNode::from_generic(generic(ExecutionNodeType::ScatterNode, None)));
    assert_eq!(Ok(ExecutionNode::EnumerateList(EnumerateListNode::new(ExecutionNodeId(2), vec![ExecutionNodeId(1)],
        1.5f64.to_bits(), 10))), ExecutionNode::from_generic(generic(ExecutionNodeType::EnumerateListNode, None)));
    let magic = ExecutionNodeType::Unlisted("MagicNode".to_owned());
    let unlisted = generic(magic.clone(), None);
    assert_eq!(Ok(ExecutionNode::Unlisted(generic(magic, None))), ExecutionNode::from_generic(unlisted));
    let node = generic(ExecutionNodeType::SortNode, None);
    assert_eq!(1.5, f64::from_bits(node.estimated_cost_bits()));
}

#[derive(Debug)]
struct Ping;

impl rincon::statement::Method for Ping {
    type Result = ();
}

#[test]
fn statement_parameters_keep_one_value_per_name() {
    let mut params = Parameters::default();
    params.set_str("a", "1");
    params.set_string("a".to_owned(), "2".to_owned());
    let statement = PreparedStatement::with_parameters(Ping, Operation::Read, "/x", params)
        .with_document(Document::from_str("{}"));
    assert_eq!("/x", statement.path());
    assert_eq!(Some("{}"), statement.document().map(|d| d.text()));
    let result = StatementResult::new(None);
    assert!(result.document().is_none());
}

#[test]
fn new_edge_with_key() {
    let edge = NewEdge::new(DocumentId::new("a", "1"), DocumentId::new("b", "2"), 7)
        .with_key(DocumentKey::new("e1"));
    assert_eq!("e1", edge.key().unwrap().as_str());
    assert_eq!("a/1", edge.from().as_string());
    assert_eq!(&7, edge.content());
}

#[test]
fn version_fields_joined_give_the_version() {
    let version = ServerVersion::new("arango", "3.2.14", "community", None);
    assert_eq!(version.version(), format!("{}.{}.{}", version.major(), version.minor(), version.sub()));
    let version = ServerVersion::new("arango", "1..2", "community", None);
    assert_eq!("1", version.major());
    assert_eq!("", version.minor());
    assert_eq!("2", version.sub());
}

#[test]
fn key_generator_names_are_read_back() {
    use_key_generator(rincon::collection::types::KeyGeneratorType::Traditional);
    use_key_generator(rincon::collection::types::KeyGeneratorType::AutoIncrement);
    assert_eq!(Err("Unknown KeyGeneratorType: uuid".to_owned()),
        rincon::collection::types::KeyGeneratorType::from_api_str("uuid"));
}

fn use_key_generator(kind: rincon::collection::types::KeyGeneratorType) {
    assert_eq!(Ok(kind.clone()), rincon::collection::types::KeyGeneratorType::from_api_str(kind.as_api_str()));
}

#[test]
fn node_type_and_rule_names_are_read_back() {
    for kind in [ExecutionNodeType::SingletonNode, ExecutionNodeType::IndexNode, ExecutionNodeType::RemoteNode,
        ExecutionNodeType::NoResultsNode] {
        assert_eq!(kind.clone(), ExecutionNodeType::from_api_str(kind.as_api_str()));
    }
    assert_eq!(ExecutionNodeType::Unlisted("MagicNode".to_owned()), ExecutionNodeType::from_api_str("MagicNode"));
    for rule in [OptimizerRule::All, OptimizerRule::MoveFiltersUp, OptimizerRule::UseIndexes,
        OptimizerRule::RemoveRedundantOr] {
        assert_eq!(rule.clone(), OptimizerRule::from_api_str(rule.as_api_str()));
    }
    assert_eq!(OptimizerRule::Custom("my-rule".to_owned()), OptimizerRule::from_api_str("my-rule"));
}
