use rincon::api::query::{Query, Value};

#[test]
fn query_set_string_parameter() {
    let mut query = Query::new("FOR u IN users FILTER u.name = @name RETURN u.name");
    query.set_parameter("name", "simone");

    assert_eq!(Some(&Value::String("simone".to_owned())), query.value("name"));
}

#[test]
fn query_set_bool_parameter() {
    let mut query = Query::new("FOR u IN users FILTER u.active = @active RETURN u.name");
    query.set_parameter("active", true);

    assert_eq!(Some(&Value::Bool(true)), query.value("active"));
}

#[test]
fn query_set_i64_parameter() {
    let mut query = Query::new("FOR u IN users FILTER u.id = @id RETURN u.name");
    query.set_parameter("id", -1828359i64);

    assert_eq!(Some(&Value::I64(-1828359)), query.value("id"));
}

#[test]
fn query_set_vec_of_u64_parameter() {
    let mut query = Query::new("FOR u IN users FILTER u.id in @ids RETURN u.name");
    let ids: Vec<u64> = vec![1, 2, 3, 4, 5];
    query.set_parameter("ids", ids);

    assert_eq!(Some(&Value::VecU64(vec![1, 2, 3, 4, 5])), query.value("ids"));
}

#[test]
fn query_get_string_parameter() {
    let mut query = Query::new("FOR u IN users FILTER u.name = @name RETURN u.name");
    query.set_parameter("name".to_owned(), Value::String("appolonia".to_owned()));

    assert_eq!(Some(&"appolonia".to_owned()), query.parameter("name"));
}

#[test]
fn query_get_bool_parameter() {
    let mut query = Query::new("FOR u IN users FILTER u.active = @active RETURN u.name");
    query.set_parameter("active".to_owned(), Value::Bool(false));

    assert_eq!(Some(&false), query.parameter("active"));
}

#[test]
fn query_get_i8_parameter() {
    let mut query = Query::new("FOR u IN users FILTER u.id = @id RETURN u.name");
    query.set_parameter("id".to_owned(), Value::I8(-1));

    assert_eq!(Some(&-1i8), query.parameter("id"));
}

#[test]
fn query_setting_a_parameter_again_replaces_its_value() {
    let mut query = Query::new("RETURN @x");
    query.set_parameter("x", 1i64);
    query.set_parameter("x", "one");

    assert_eq!(Some(&Value::String("one".to_owned())), query.value("x"));
    let (text, params) = query.deconstruct();
    assert_eq!("RETURN @x", text);
    assert_eq!(1, params.len());
}

#[test]
fn query_parameter_of_another_type_is_not_given() {
    let mut query = Query::new("RETURN @x");
    query.set_parameter("x", true);

    assert_eq!(None, query.parameter::<String>("x"));
    assert_eq!(None, query.value("y"));
}

#[test]
fn query_clone_keeps_text_and_parameters() {
    let mut query = Query::new("FOR u IN users FILTER u.id IN @ids RETURN u");
    query.set_parameter("ids", vec![1u64, 2, 3]);
    query.set_parameter("names", vec!["a".to_owned(), "b".to_owned()]);
    let copy = query.clone();
    assert_eq!(query, copy);
    assert_eq!(Some(&Value::VecString(vec!["a".to_owned(), "b".to_owned()])), copy.value("names"));
}

#[test]
fn query_keeps_the_last_value_bound_to_each_name() {
    let mut query = Query::new("RETURN [@a, @b]");
    query.set_parameter("a", 1i64);
    query.set_parameter("b", "two");
    query.set_parameter("a", true);
    assert_eq!("RETURN [@a, @b]", query.str());
    let (text, params) = query.deconstruct();
    assert_eq!("RETURN [@a, @b]", text);
    assert_eq!(2, params.len());
    assert_eq!(Some(&Value::Bool(true)), params.iter().find(|p| p.0 == "a").map(|p| &p.1));
    assert_eq!(Some(&Value::String("two".to_owned())), params.iter().find(|p| p.0 == "b").map(|p| &p.1));
}
