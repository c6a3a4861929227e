use razy_cwlogs::collection::store::NumericKey;
use razy_cwlogs::collection::store::Store;
use razy_cwlogs::collection::store::TextKey;
use razy_cwlogs::collection::Length;

#[test]
fn order_by_asc() {
    let s = |s: &str| s.to_string();
    let store = Store::new(vec![s("1"), s("9"), s("99"), s("10")]);

    // as integer
    let asc = store.order_by_asc(&NumericKey);
    let mut it = asc.iter();
    assert_eq!(Some("1"), it.next().map(|s| s.as_str()));
    assert_eq!(Some("9"), it.next().map(|s| s.as_str()));
    assert_eq!(Some("10"), it.next().map(|s| s.as_str()));
    assert_eq!(Some("99"), it.next().map(|s| s.as_str()));
    assert_eq!(None, it.next().map(|s| s.as_str()));

    // as text
    let asc = store.order_by_asc_ref(&TextKey);
    let mut it = asc.iter();
    assert_eq!(Some("1"), it.next().map(|s| s.as_str()));
    assert_eq!(Some("10"), it.next().map(|s| s.as_str()));
    assert_eq!(Some("9"), it.next().map(|s| s.as_str()));
    assert_eq!(Some("99"), it.next().map(|s| s.as_str()));
    assert_eq!(None, it.next().map(|s| s.as_str()));
}

#[test]
fn order_by_desc() {
    let s = |s: &str| s.to_string();
    let store = Store::new(vec![s("1"), s("9"), s("99"), s("10")]);

    // as integer
    let desc = store.order_by_desc(&NumericKey);
    let mut it = desc.iter();
    assert_eq!(Some("99"), it.next().map(|s| s.as_str()));
    assert_eq!(Some("10"), it.next().map(|s| s.as_str()));
    assert_eq!(Some("9"), it.next().map(|s| s.as_str()));
    assert_eq!(Some("1"), it.next().map(|s| s.as_str()));
    assert_eq!(None, it.next().map(|s| s.as_str()));

    // as text
    let desc = store.order_by_desc_ref(&TextKey);
    let mut it = desc.iter();
    assert_eq!(Some("99"), it.next().map(|s| s.as_str()));
    assert_eq!(Some("9"), it.next().map(|s| s.as_str()));
    assert_eq!(Some("10"), it.next().map(|s| s.as_str()));
    assert_eq!(Some("1"), it.next().map(|s| s.as_str()));
    assert_eq!(None, it.next().map(|s| s.as_str()));
}

#[test]
fn store_deduplicates_by_primary_key() {
    let s = |s: &str| s.to_string();
    let mut store = Store::new(vec![s("b"), s("a")]);
    store.insert(s("a"));
    store.insert(s("c"));
    assert_eq!(3, store.len());
    assert_eq!(vec![s("a"), s("b"), s("c")], store.iter());
}

#[test]
fn store_contents_do_not_depend_on_insertion_order() {
    let s = |s: &str| s.to_string();
    let one = Store::new(vec![s("pear"), s("apple"), s("quince")]);
    let two = Store::new(vec![s("quince"), s("pear"), s("apple")]);
    assert_eq!(one.iter(), two.iter());
    assert_eq!(vec![s("apple"), s("pear"), s("quince")], one.iter());
}
