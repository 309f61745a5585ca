use doc_printer::order::{key_precedes, name_precedes, sorted_indices, SortKey};
use doc_printer::text::chars_of;

fn key(rank: i64, name: &str) -> SortKey {
    SortKey { rank, name: name.chars().collect() }
}

#[test]
fn chars_of_gives_every_character() {
    assert_eq!(chars_of(""), Vec::<char>::new());
    assert_eq!(chars_of("a\u{e9}\u{1f600}"), vec!['a', '\u{e9}', '\u{1f600}']);
}

#[test]
fn name_order_is_lexicographic() {
    let cases = vec![
        ("", "", false),
        ("", "a", true),
        ("a", "", false),
        ("a", "a", false),
        ("a", "b", true),
        ("b", "a", false),
        ("ab", "abc", true),
        ("abc", "ab", false),
        ("abd", "abc", false),
        ("B", "a", true),
        ("z", "\u{e9}", true),
    ];
    for (a, b, expected) in cases {
        assert_eq!(name_precedes(&chars_of(a), &chars_of(b)), expected, "{:?} {:?}", a, b);
        assert_eq!(a < b, expected);
    }
}

#[test]
fn key_order_is_rank_then_name() {
    assert!(key_precedes(&key(0, "z"), &key(1, "a")));
    assert!(!key_precedes(&key(1, "a"), &key(0, "z")));
    assert!(key_precedes(&key(2, "a"), &key(2, "b")));
    assert!(!key_precedes(&key(2, "b"), &key(2, "a")));
    assert!(!key_precedes(&key(2, "a"), &key(2, "a")));
    assert!(key_precedes(&key(-1, "a"), &key(0, "a")));
}

#[test]
fn sorted_indices_are_a_stable_sort() {
    let keys = vec![key(1, "b"), key(0, "z"), key(1, "a"), key(1, "b"), key(0, "z"), key(0, "a")];
    assert_eq!(sorted_indices(&keys), vec![5, 1, 4, 2, 0, 3]);
    assert_eq!(sorted_indices(&vec![]), Vec::<usize>::new());
    assert_eq!(sorted_indices(&vec![key(3, "x")]), vec![0]);
}

#[test]
fn sorted_indices_of_sorted_and_reversed_keys() {
    let ascending = vec![key(0, "a"), key(0, "b"), key(1, "a"), key(2, "")];
    assert_eq!(sorted_indices(&ascending), vec![0, 1, 2, 3]);
    let descending = vec![key(2, ""), key(1, "a"), key(0, "b"), key(0, "a")];
    assert_eq!(sorted_indices(&descending), vec![3, 2, 1, 0]);
}
