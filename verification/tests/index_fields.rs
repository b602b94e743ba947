use rincon::index::types::{GenericIndex, Index, IndexDetails, IndexIdOption, IndexType};

fn index_from_fields(kind: &str, id: &str, fields: &[&str], selectivity_estimate: Option<u32>,
    is_newly_created: Option<bool>, unique: Option<bool>, sparse: Option<bool>, deduplicate: Option<bool>,
    constraint: Option<bool>, min_length: Option<u32>, geo_json: Option<bool>) -> Index {
    let generic = GenericIndex {
        kind: IndexType::from_api_str(kind).unwrap(),
        id: IndexIdOption::from_str(id).unwrap(),
        fields: fields.iter().map(|f| f.to_string()).collect(),
        selectivity_estimate,
        is_newly_created,
        unique,
        sparse,
        deduplicate,
        constraint,
        min_length,
        geo_json,
    };
    Index::from_generic(generic).unwrap()
}

fn qualified(index: &Index) -> (String, String) {
    match *index.id() {
        IndexIdOption::Qualified(ref index_id) => (index_id.collection_name().to_owned(), index_id.index_key().to_owned()),
        _ => panic!("Qualified index id expected!"),
    }
}

#[test]
fn deserialize_primary_index() {
    let index = index_from_fields("primary", "products/0", &["_key"], Some(1), None, Some(true), Some(false),
        None, None, None, None);
    let (collection, key) = qualified(&index);

    if let Index::Primary(ref primary_index) = index {
        assert_eq!("products", collection);
        assert_eq!("0", key);
        assert_eq!(&vec!("_key".to_owned())[..], primary_index.fields());
        assert_eq!(false, primary_index.is_newly_created());
        assert_eq!(1, primary_index.selectivity_estimate());
        assert_eq!(true, primary_index.is_unique());
    } else {
        panic!("Primary index expected, but got {:?}", index);
    }
}

#[test]
fn deserialize_hash_index() {
    let index = index_from_fields("hash", "products/11582", &["a"], Some(1), Some(true), Some(false), Some(true),
        Some(true), None, None, None);
    let (collection, key) = qualified(&index);

    if let Index::Hash(ref hash_index) = index {
        assert_eq!("products", collection);
        assert_eq!("11582", key);
        assert_eq!(&vec!("a".to_owned())[..], hash_index.fields());
        assert_eq!(true, hash_index.is_newly_created());
        assert_eq!(true, hash_index.is_deduplicate());
        assert_eq!(1, hash_index.selectivity_estimate());
        assert_eq!(true, hash_index.is_sparse());
        assert_eq!(false, hash_index.is_unique());
    } else {
        panic!("Hash index expected, but got {:?}", index);
    }
}

#[test]
fn deserialize_skip_list_index() {
    let index = index_from_fields("skiplist", "products/11556", &["a", "b"], None, Some(false), Some(false),
        Some(false), Some(true), None, None, None);
    let (collection, key) = qualified(&index);

    if let Index::SkipList(ref skip_list_index) = index {
        assert_eq!("products", collection);
        assert_eq!("11556", key);
        assert_eq!(&vec!("a".to_owned(), "b".to_owned())[..], skip_list_index.fields());
        assert_eq!(false, skip_list_index.is_newly_created());
        assert_eq!(true, skip_list_index.is_deduplicate());
        assert_eq!(false, skip_list_index.is_sparse());
        assert_eq!(false, skip_list_index.is_unique());
    } else {
        panic!("SkipList index expected, but got {:?}", index);
    }
}

#[test]
fn deserialize_persistent_index() {
    let index = index_from_fields("persistent", "products/11595", &["a", "b"], None, Some(true), Some(true),
        Some(true), Some(false), None, None, None);
    let (collection, key) = qualified(&index);

    if let Index::Persistent(ref persistent_index) = index {
        assert_eq!("products", collection);
        assert_eq!("11595", key);
        assert_eq!(&vec!("a".to_owned(), "b".to_owned())[..], persistent_index.fields());
        assert_eq!(true, persistent_index.is_newly_created());
        assert_eq!(false, persistent_index.is_deduplicate());
        assert_eq!(true, persistent_index.is_sparse());
        assert_eq!(true, persistent_index.is_unique());
    } else {
        panic!("Persistent index expected, but got {:?}", index);
    }
}

#[test]
fn deserialize_geo1_index() {
    let index = index_from_fields("geo1", "products/11504", &["b"], None, Some(true), Some(false), Some(true),
        None, Some(false), None, Some(true));
    let (collection, key) = qualified(&index);

    if let Index::Geo1(ref geo1_index) = index {
        assert_eq!("products", collection);
        assert_eq!("11504", key);
        assert_eq!(&vec!("b".to_owned())[..], geo1_index.fields());
        assert_eq!(true, geo1_index.is_newly_created());
        assert_eq!(true, geo1_index.is_geo_json());
        assert_eq!(false, geo1_index.is_constraint());
        assert_eq!(true, geo1_index.is_sparse());
    } else {
        panic!("Geo1 index expected, but got {:?}", index);
    }
}

#[test]
fn deserialize_geo2_index() {
    let index = index_from_fields("geo2", "products/11491", &["e", "f"], None, Some(true), Some(false),
        Some(true), None, Some(true), None, None);
    let (collection, key) = qualified(&index);

    if let Index::Geo2(ref geo2_index) = index {
        assert_eq!("products", collection);
        assert_eq!("11491", key);
        assert_eq!(&vec!("e".to_owned(), "f".to_owned())[..], geo2_index.fields());
        assert_eq!(true, geo2_index.is_newly_created());
        assert_eq!(true, geo2_index.is_constraint());
        assert_eq!(true, geo2_index.is_sparse());
    } else {
        panic!("Geo2 index expected, but got {:?}", index);
    }
}

#[test]
fn deserialize_fulltext_index() {
    let index = index_from_fields("fulltext", "products/11476", &["description"], None, None, Some(false),
        Some(false), None, None, Some(2), None);
    let (collection, key) = qualified(&index);

    if let Index::Fulltext(ref fulltext_index) = index {
        assert_eq!("products", collection);
        assert_eq!("11476", key);
        assert_eq!(&vec!("description".to_owned())[..], fulltext_index.fields());
        assert_eq!(false, fulltext_index.is_newly_created());
        assert_eq!(2, fulltext_index.min_length());
    } else {
        panic!("Fulltext index expected, but got {:?}", index);
    }
}

#[test]
fn deserialize_edge_index() {
    let index = index_from_fields("edge", "products/2834226", &["_from", "_to"], None, None, Some(false),
        Some(false), None, None, None, None);
    let (collection, key) = qualified(&index);

    if let Index::Edge(ref edge_index) = index {
        assert_eq!("products", collection);
        assert_eq!("2834226", key);
        assert_eq!(&vec!("_from".to_owned(), "_to".to_owned())[..], edge_index.fields());
        assert_eq!(false, edge_index.is_newly_created());
    } else {
        panic!("Edge index expected, but got {:?}", index);
    }
}

#[test]
fn index_with_a_missing_field_is_refused() {
    let generic = GenericIndex {
        kind: IndexType::Hash,
        id: IndexIdOption::from_str("products/1").unwrap(),
        fields: vec!["a".to_owned()],
        selectivity_estimate: None,
        is_newly_created: None,
        unique: Some(true),
        sparse: Some(true),
        deduplicate: Some(true),
        constraint: None,
        min_length: None,
        geo_json: None,
    };
    assert_eq!(Err("Unsupported type/fields combination".to_owned()), Index::from_generic(generic));
}
