use lorecore::order::{sort, sort_distinct};
use lorecore::text::{same_text, text_precedes, to_chars};
use lorecore::types::{Day, Label, Year};

#[test]
fn sort_puts_in_ascending_order() {
    let sorted = sort(vec![Year(3), Year(-1), Year(2), Year(3), Year(0)]);
    assert_eq!(sorted, vec![Year(-1), Year(0), Year(2), Year(3), Year(3)]);
    assert_eq!(sort(Vec::<Year>::new()), vec![]);
    assert_eq!(sort(vec![Year(1)]), vec![Year(1)]);
}

#[test]
fn sort_agrees_with_the_standard_library() {
    let texts = ["b", "", "ab", "a", "B", "é", "zz", "a", "aa", "b\u{1F600}", "b~"];
    let mut expected: Vec<Label> = texts.iter().map(|text| Label::from(*text)).collect();
    expected.sort();
    let sorted = sort(texts.iter().map(|text| Label::from(*text)).collect());
    assert_eq!(sorted, expected);
}

#[test]
fn sort_distinct_keeps_each_rank_once() {
    let distinct = sort_distinct(vec![Year(3), Year(-1), Year(3), Year(-1), Year(0)]);
    assert_eq!(distinct, vec![Year(-1), Year(0), Year(3)]);
    let days = sort_distinct(vec![Day(Some(2)), Day(None), Day(Some(1)), Day(None)]);
    assert_eq!(days, vec![Day(None), Day(Some(1)), Day(Some(2))]);
    assert_eq!(sort_distinct(Vec::<Day>::new()), vec![]);
}

#[test]
fn texts_order_by_code_point_with_prefixes_first() {
    let ordered = ["", "A", "Z", "a", "ab", "abc", "b", "~", "é", "€", "\u{1F600}"];
    for i in 0..ordered.len() {
        for j in 0..ordered.len() {
            assert_eq!(text_precedes(ordered[i], ordered[j]), i < j);
            assert_eq!(ordered[i] < ordered[j], i < j);
            assert_eq!(same_text(ordered[i], ordered[j]), i == j);
        }
    }
}

#[test]
fn characters_of_a_text() {
    assert_eq!(to_chars("aö€"), vec!['a', 'ö', '€']);
    assert_eq!(to_chars(""), Vec::<char>::new());
}
