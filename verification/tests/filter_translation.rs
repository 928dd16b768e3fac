use vector_db_proxy::filters::{convert_hashmap_to_filters, FilterConditions};

#[test]
fn absent_filter_translates_to_three_empty_lists() {
    let (must, must_not, should) = convert_hashmap_to_filters(&None);
    assert!(must.is_empty());
    assert!(must_not.is_empty());
    assert!(should.is_empty());
}

#[test]
fn empty_filter_lists_translate_to_three_empty_lists() {
    let filters = FilterConditions { must: vec![], must_not: vec![], should: vec![] };
    let (must, must_not, should) = convert_hashmap_to_filters(&Some(filters));
    assert!(must.is_empty());
    assert!(must_not.is_empty());
    assert!(should.is_empty());
}

#[test]
fn single_must_pair_translates_to_one_must_condition() {
    let filters = FilterConditions {
        must: vec![vec![("city".to_string(), "Berlin".to_string())]],
        must_not: vec![],
        should: vec![],
    };
    let (must, must_not, should) = convert_hashmap_to_filters(&Some(filters));
    assert_eq!(must.len(), 1);
    assert_eq!(must[0].key, "city");
    assert_eq!(must[0].value, "Berlin");
    assert!(must_not.is_empty());
    assert!(should.is_empty());
}

#[test]
fn group_and_pair_order_is_preserved() {
    let filters = FilterConditions {
        must: vec![
            vec![("a".to_string(), "1".to_string()), ("b".to_string(), "2".to_string())],
            vec![("c".to_string(), "3".to_string())],
        ],
        must_not: vec![],
        should: vec![],
    };
    let (must, _, _) = convert_hashmap_to_filters(&Some(filters));
    let flattened: Vec<(&str, &str)> =
        must.iter().map(|c| (c.key.as_str(), c.value.as_str())).collect();
    assert_eq!(flattened, vec![("a", "1"), ("b", "2"), ("c", "3")]);
}

#[test]
fn each_list_lands_in_its_own_output() {
    let filters = FilterConditions {
        must: vec![vec![("m".to_string(), "1".to_string())]],
        must_not: vec![vec![("n".to_string(), "2".to_string())]],
        should: vec![vec![("s".to_string(), "3".to_string())]],
    };
    let (must, must_not, should) = convert_hashmap_to_filters(&Some(filters));
    assert_eq!(must.len(), 1);
    assert_eq!(must[0].key, "m");
    assert_eq!(must_not.len(), 1);
    assert_eq!(must_not[0].key, "n");
    assert_eq!(should.len(), 1);
    assert_eq!(should[0].key, "s");
}
