use rincon::api::query::{Query, Value};
use rincon::aql::types::{IncludedExcluded, OptimizerRule};
use rincon::cursor::types::{NewCursor, OptimizerRuleSetMut};
use rincon::cursor::result::{Cursor, CursorReader, CursorStep};

fn query_for_simone() -> Query {
    let mut query = Query::new("FOR u IN users FILTER u.name = @name RETURN u.name");
    query.set_parameter("name".to_owned(), "simone".to_owned());
    query
}

#[test]
fn types_convert_query_into_new_cursor_to_be_created() {
    let query = query_for_simone();

    let new_cursor: NewCursor = query.into();

    assert_eq!("FOR u IN users FILTER u.name = @name RETURN u.name", new_cursor.query());
    assert_eq!(Some(&Value::String("simone".to_owned())), new_cursor.bind_var("name"));
}

#[test]
fn types_set_optimizer_rule_cursor_option_on_a_newly_initialized_new_cursor() {
    let query = query_for_simone();

    let mut new_cursor = NewCursor::from(query);
    assert!(new_cursor.options().is_none());

    new_cursor.options_mut().optimizer_rules_mut()
        .include_rule(OptimizerRule::UseIndexes)
        .exclude(OptimizerRule::MoveFiltersUp);
    let new_cursor = new_cursor;

    assert!(new_cursor.options().is_some());
    assert!(new_cursor.options().unwrap().optimizer_rules().is_some());

    let optimizer_rules = new_cursor.options().unwrap().optimizer_rules().unwrap();
    assert!(optimizer_rules.includes(&OptimizerRule::UseIndexes));
    assert!(optimizer_rules.excludes(&OptimizerRule::MoveFiltersUp));
}

#[test]
fn types_set_cursor_options_on_newly_initialized_new_cursor() {
    let query = query_for_simone();

    let mut new_cursor = NewCursor::from(query);
    assert!(new_cursor.options().is_none());

    new_cursor.options_mut()
        .with_fail_on_warning(true)
        .with_full_count(Some(false))
        .with_max_warning_count(None)
        .with_max_plans(5);
    let new_cursor = new_cursor;
    assert!(new_cursor.options().is_some());
    let cursor_options = new_cursor.options().unwrap();

    assert_eq!(Some(true), cursor_options.is_fail_on_warning());
    assert_eq!(None, cursor_options.is_profile());
    assert_eq!(None, cursor_options.max_warning_count());
    assert_eq!(Some(false), cursor_options.is_full_count());
    assert_eq!(Some(5), cursor_options.max_plans());
}

#[test]
fn types_set_options_on_newly_initialized_new_cursor() {
    let query = query_for_simone();

    let mut new_cursor = NewCursor::from(query);
    new_cursor.with_batch_size(42)
        .with_cache(false)
        .with_count(None)
        .with_memory_limit(32 * 1024)
        .with_ttl(Some(30));
    let new_cursor = new_cursor;

    assert_eq!(Some(42), new_cursor.batch_size());
    assert_eq!(Some(false), new_cursor.is_cache());
    assert_eq!(None, new_cursor.is_count());
    assert_eq!(Some(32768), new_cursor.memory_limit());
    assert_eq!(Some(30), new_cursor.ttl());
}

#[test]
fn types_tests_convert_query_into_new_cursor_to_be_created() {
    let mut query = Query::new("FOR u IN users FILTER u.name = @name RETURN u.name");
    query.set_parameter("name", "simone");
    let query = query;

    let new_cursor: NewCursor = query.into();

    assert_eq!("FOR u IN users FILTER u.name = @name RETURN u.name", new_cursor.query());
    assert_eq!(Some(&Value::String("simone".to_owned())), new_cursor.bind_var("name"));
}

#[test]
fn types_tests_set_options_on_newly_initialized_new_cursor() {
    let query = query_for_simone();

    let mut new_cursor = NewCursor::from(query);
    new_cursor.set_batch_size(42);
    new_cursor.set_cache(false);
    new_cursor.set_count(None);
    new_cursor.set_memory_limit(32 * 1024);
    new_cursor.set_ttl(Some(30));
    let new_cursor = new_cursor;

    assert_eq!(Some(42), new_cursor.batch_size());
    assert_eq!(Some(false), new_cursor.is_cache());
    assert_eq!(None, new_cursor.is_count());
    assert_eq!(Some(32768), new_cursor.memory_limit());
    assert_eq!(Some(30), new_cursor.ttl());
}

#[test]
fn types_tests_set_cursor_options_on_newly_initialized_new_cursor() {
    let query = query_for_simone();

    let mut new_cursor = NewCursor::from(query);
    assert!(new_cursor.options().is_none());
    {
        let cursor_options = new_cursor.options_mut();
        cursor_options.with_fail_on_warning(true);
        cursor_options.with_full_count(Some(false));
        cursor_options.with_max_warning_count(None);
        cursor_options.with_max_plans(5);
    }
    let new_cursor = new_cursor;
    let cursor_options = new_cursor.options().unwrap();

    assert_eq!(Some(true), cursor_options.is_fail_on_warning());
    assert_eq!(None, cursor_options.is_profile());
    assert_eq!(None, cursor_options.max_warning_count());
    assert_eq!(Some(false), cursor_options.is_full_count());
    assert_eq!(Some(5), cursor_options.max_plans());
}

#[test]
fn cursor_rule_included_then_excluded_is_only_excluded() {
    let mut new_cursor = NewCursor::from(query_for_simone());
    new_cursor.options_mut().optimizer_rules_mut()
        .include_rule(OptimizerRule::UseIndexes)
        .exclude(OptimizerRule::UseIndexes);
    let rules = new_cursor.options().unwrap().optimizer_rules().unwrap();
    assert!(rules.excludes(&OptimizerRule::UseIndexes));
    assert!(!rules.includes(&OptimizerRule::UseIndexes));
    let listed: Vec<_> = collect_rules(&new_cursor);
    assert_eq!(vec!["-use-indexes".to_owned()], listed);
}

#[test]
fn cursor_rule_removed_is_listed_neither_way() {
    let mut new_cursor = NewCursor::from(query_for_simone());
    new_cursor.options_mut().optimizer_rules_mut()
        .include_rule(OptimizerRule::MoveFiltersUp)
        .include_rule(OptimizerRule::UseIndexes)
        .remove(&OptimizerRule::MoveFiltersUp);
    let rules = new_cursor.options().unwrap().optimizer_rules().unwrap();
    assert!(!rules.includes(&OptimizerRule::MoveFiltersUp));
    assert!(!rules.excludes(&OptimizerRule::MoveFiltersUp));
    assert!(rules.includes(&OptimizerRule::UseIndexes));
}

fn collect_rules(new_cursor: &NewCursor) -> Vec<String> {
    let rules = new_cursor.options().unwrap().optimizer_rules().unwrap();
    let mut iter = rules.into_iter();
    let mut out = Vec::new();
    while let Some((setting, rule)) = iter.next() {
        let sign = match setting {
            rincon::aql::types::IncludedExcluded::Included => "+",
            rincon::aql::types::IncludedExcluded::Excluded => "-",
        };
        out.push(format!("{}{}", sign, rule.as_api_str()));
    }
    out
}

#[test]
fn cursor_reader_hands_out_results_batch_by_batch() {
    let first = Cursor::new(Some("c1".to_owned()), vec![1, 2], true, Some(3), false, None);
    let mut reader = CursorReader::new(first);
    assert_eq!((2, Some(3)), reader.size_hint());
    assert_eq!(CursorStep::Item(1), reader.next_step());
    assert_eq!(CursorStep::Item(2), reader.next_step());
    assert_eq!(CursorStep::FetchNextBatch("c1".to_owned()), reader.next_step());
    let second = Cursor::new(None, vec![3], false, Some(3), false, None);
    assert_eq!(Some(3), reader.receive_batch(second));
    assert_eq!(CursorStep::Done, reader.next_step());
}

#[test]
fn cursor_reader_without_identifier_stops() {
    let only = Cursor::<u8>::new(None, vec![], true, None, false, None);
    let mut reader = CursorReader::new(only);
    assert_eq!(CursorStep::Done, reader.next_step());
    let empty = Cursor::<u8>::new(Some("c2".to_owned()), vec![], true, None, false, None);
    assert_eq!(None, reader.receive_batch(empty));
    assert_eq!(CursorStep::FetchNextBatch("c2".to_owned()), reader.next_step());
}

#[test]
fn rule_set_lists_a_rule_one_way_only() {
    let mut rules = OptimizerRuleSetMut::new();
    rules.include_rule(OptimizerRule::MoveFiltersUp);
    assert!(rules.includes(&OptimizerRule::MoveFiltersUp));
    assert!(!rules.excludes(&OptimizerRule::MoveFiltersUp));
    rules.exclude(OptimizerRule::MoveFiltersUp);
    assert!(rules.excludes(&OptimizerRule::MoveFiltersUp));
    assert!(!rules.includes(&OptimizerRule::MoveFiltersUp));
    let mut listed = rules.iter();
    assert_eq!(Some((IncludedExcluded::Excluded, OptimizerRule::MoveFiltersUp)), listed.next());
    assert_eq!(None, listed.next());
    rules.remove(&OptimizerRule::MoveFiltersUp);
    assert!(!rules.includes(&OptimizerRule::MoveFiltersUp));
    assert!(!rules.excludes(&OptimizerRule::MoveFiltersUp));
}
