use noria_operator::canon::{canonical_order, pair_precedes, text_precedes};
use noria_operator::json::{flag, number, owned_text, text, Json};
use noria_operator::text::{contains_dash, decimal_string, join2, join3};

fn pairs(props: &[(&str, &str)]) -> Vec<(String, String)> {
    props.iter().map(|(k, v)| (k.to_string(), v.to_string())).collect()
}

#[test]
fn decimal_numerals() {
    assert_eq!(decimal_string(0), "0");
    assert_eq!(decimal_string(7), "7");
    assert_eq!(decimal_string(9), "9");
    assert_eq!(decimal_string(10), "10");
    assert_eq!(decimal_string(101), "101");
    assert_eq!(decimal_string(1234567890), "1234567890");
    assert_eq!(decimal_string(u64::MAX as u128), "18446744073709551615");
    assert_eq!(decimal_string(u128::MAX), "340282366920938463463374607431768211455");
}

#[test]
fn decimal_numerals_agree_with_the_standard_library() {
    let mut n: u128 = 1;
    for _ in 0..38 {
        assert_eq!(decimal_string(n), n.to_string());
        assert_eq!(decimal_string(n - 1), (n - 1).to_string());
        n *= 10;
    }
}

#[test]
fn dashes_are_found_wherever_they_stand() {
    assert!(contains_dash("a-b"));
    assert!(contains_dash("-"));
    assert!(contains_dash("-ab"));
    assert!(contains_dash("ab-"));
    assert!(contains_dash("é-é"));
    assert!(!contains_dash(""));
    assert!(!contains_dash("east"));
    assert!(!contains_dash("under_score"));
    assert!(!contains_dash("en–dash"));
}

#[test]
fn joins() {
    assert_eq!(join2("compute-", "east"), "compute-east");
    assert_eq!(join2("", ""), "");
    assert_eq!(join3("a", ":", "b"), "a:b");
}

#[test]
fn texts_compare_in_dictionary_order() {
    assert!(text_precedes("", ""));
    assert!(text_precedes("", "a"));
    assert!(!text_precedes("a", ""));
    assert!(text_precedes("a", "a"));
    assert!(text_precedes("a", "b"));
    assert!(!text_precedes("b", "a"));
    assert!(text_precedes("ab", "abc"));
    assert!(!text_precedes("abc", "ab"));
    assert!(text_precedes("Z", "a"));
    assert!(text_precedes("abc", "abd"));
    assert!(text_precedes("z", "é"));
}

#[test]
fn texts_compare_as_strings_do() {
    let words = ["", "a", "ab", "abc", "b", "B", "é", "z", "10", "9", "server.1", "server.10"];
    for a in words.iter() {
        for b in words.iter() {
            assert_eq!(text_precedes(a, b), a <= b, "{:?} {:?}", a, b);
        }
    }
}

#[test]
fn pairs_compare_by_key_then_by_value() {
    let p = |k: &str, v: &str| (k.to_string(), v.to_string());
    assert!(pair_precedes(&p("a", "2"), &p("b", "1")));
    assert!(!pair_precedes(&p("b", "1"), &p("a", "2")));
    assert!(pair_precedes(&p("a", "1"), &p("a", "2")));
    assert!(!pair_precedes(&p("a", "2"), &p("a", "1")));
    assert!(pair_precedes(&p("a", "1"), &p("a", "1")));
}

#[test]
fn canonical_order_sorts_by_key() {
    let sorted = canonical_order(&pairs(&[("c", "3"), ("a", "1"), ("b", "2")]));
    assert_eq!(sorted, pairs(&[("a", "1"), ("b", "2"), ("c", "3")]));
}

#[test]
fn canonical_order_keeps_every_pair() {
    let sorted = canonical_order(&pairs(&[("k", "2"), ("k", "1"), ("a", "9"), ("k", "2")]));
    assert_eq!(sorted, pairs(&[("a", "9"), ("k", "1"), ("k", "2"), ("k", "2")]));
}

#[test]
fn canonical_order_of_nothing_and_of_one() {
    assert_eq!(canonical_order(&Vec::new()), Vec::<(String, String)>::new());
    assert_eq!(canonical_order(&pairs(&[("a", "1")])), pairs(&[("a", "1")]));
}

#[test]
fn canonical_order_is_the_same_for_every_arrangement() {
    let want = pairs(&[("a", "1"), ("b", "2"), ("c", "3")]);
    let arrangements = [
        [("a", "1"), ("b", "2"), ("c", "3")],
        [("a", "1"), ("c", "3"), ("b", "2")],
        [("b", "2"), ("a", "1"), ("c", "3")],
        [("b", "2"), ("c", "3"), ("a", "1")],
        [("c", "3"), ("a", "1"), ("b", "2")],
        [("c", "3"), ("b", "2"), ("a", "1")],
    ];
    for arrangement in arrangements.iter() {
        assert_eq!(canonical_order(&pairs(arrangement)), want);
    }
}

#[test]
fn canonical_order_agrees_with_the_standard_sort() {
    let given = pairs(&[
        ("tickTime", "1"),
        ("Tick", "2"),
        ("", "3"),
        ("zoo", "4"),
        ("admin.port", "5"),
        ("admin", "6"),
        ("été", "7"),
        ("4lw", "8"),
    ]);
    let mut want = given.clone();
    want.sort();
    assert_eq!(canonical_order(&given), want);
}

#[test]
fn documents_are_built_field_by_field() {
    let doc = Json::object().with("a", number(1)).with("b", text("two")).with(
        "c",
        Json::list().item(flag(true)).item(owned_text("x".to_string())),
    );
    assert_eq!(
        doc,
        Json::Object(vec![
            ("a".to_string(), Json::Num(1)),
            ("b".to_string(), Json::Text("two".to_string())),
            (
                "c".to_string(),
                Json::List(vec![Json::Bool(true), Json::Text("x".to_string())])
            ),
        ])
    );
}

#[test]
fn with_and_item_leave_other_documents_alone() {
    assert_eq!(number(1).with("a", number(2)), Json::Num(1));
    assert_eq!(text("t").item(number(2)), Json::Text("t".to_string()));
    assert_eq!(Json::list().with("a", number(2)), Json::List(vec![]));
    assert_eq!(Json::object().item(number(2)), Json::Object(vec![]));
}

#[test]
fn get_finds_the_last_field_of_a_name() {
    let doc = Json::object().with("a", number(1)).with("b", number(2)).with("a", number(3));
    assert_eq!(doc.get("a"), Some(&Json::Num(3)));
    assert_eq!(doc.get("b"), Some(&Json::Num(2)));
    assert_eq!(doc.get("c"), None);
    assert_eq!(number(1).get("a"), None);
    assert_eq!(Json::list().item(number(1)).get("a"), None);
}

#[test]
fn leaves_give_their_values() {
    assert_eq!(text("x").as_text(), Some(&"x".to_string()));
    assert_eq!(number(4).as_text(), None);
    assert_eq!(number(4).as_number(), Some(4));
    assert_eq!(text("4").as_number(), None);
}
