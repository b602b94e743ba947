use rincon::index::types::{IndexId, IndexIdOption, IndexKey, IndexType};

#[test]
fn get_index_key_from_str() {
    let index_key = IndexKey::from_str("12341").unwrap();
    assert_eq!("12341", index_key.as_str());
}

#[test]
fn get_index_key_from_str_with_slash_character_in_the_middle() {
    let result = IndexKey::from_str("mine/12341");
    assert_eq!(Err("An index key must not contain any '/' character, but got: \"mine/12341\"".to_owned()), result);
}

#[test]
fn get_index_key_from_str_with_slash_character_at_the_beginning() {
    let result = IndexKey::from_str("/12341");
    assert_eq!(Err("An index key must not contain any '/' character, but got: \"/12341\"".to_owned()), result);
}

#[test]
fn get_index_key_from_str_with_slash_character_at_the_end() {
    let result = IndexKey::from_str("12341/");
    assert_eq!(Err("An index key must not contain any '/' character, but got: \"12341/\"".to_owned()), result);
}

#[test]
fn get_index_id_from_str() {
    let index_id = IndexId::from_str("mine/12341").unwrap();
    assert_eq!("mine", index_id.collection_name());
    assert_eq!("12341", index_id.index_key());
    assert_eq!("mine/12341", &index_id.as_string());
}

#[test]
fn get_index_id_from_str_without_collection_name() {
    let result = IndexId::from_str("12341");
    assert_eq!(Err("index id does not have a context: \"12341\"".to_owned()), result);
}

#[test]
fn get_index_id_from_str_with_empty_collection_name() {
    let result = IndexId::from_str("/12341");
    assert_eq!(Err("Invalid index id: \"/12341\"".to_owned()), result);
}

#[test]
fn get_index_id_from_str_with_empty_index_key() {
    let result = IndexId::from_str("mine/");
    assert_eq!(Err("Invalid index id: \"mine/\"".to_owned()), result);
}

#[test]
fn get_index_id_option_from_str_with_collection_name_and_index_key() {
    let index_id_option = IndexIdOption::from_str("mine/12341").unwrap();
    assert_eq!(IndexIdOption::from(IndexId::new("mine", "12341")), index_id_option);
}

#[test]
fn get_index_id_option_from_str_with_index_key_only() {
    let index_id_option = IndexIdOption::from_str("12341").unwrap();
    assert_eq!(IndexIdOption::from(IndexKey::new("12341")), index_id_option);
}

#[test]
fn index_type_names_are_read_back() {
    for kind in [IndexType::Primary, IndexType::Hash, IndexType::SkipList, IndexType::Persistent,
        IndexType::Geo1, IndexType::Geo2, IndexType::Geo, IndexType::Fulltext, IndexType::Edge] {
        assert_eq!(Ok(kind.clone()), IndexType::from_api_str(kind.as_api_str()));
    }
    assert_eq!(Err("Unsupported index type: \"btree\"".to_owned()), IndexType::from_api_str("btree"));
}
