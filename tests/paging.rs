use onedrive_manager::driveitem::{DriveItem, DriveItemList, ListStep};
use std::collections::HashMap;

fn item(name: &str) -> DriveItem {
    let mut extras = HashMap::new();
    extras.insert("size".to_string(), serde_json::Value::from(7));
    DriveItem { name: name.to_string(), extras }
}

fn page(names: &[&str], next: Option<&str>, delta: Option<&str>) -> DriveItemList {
    DriveItemList::new(
        names.iter().map(|n| item(n)).collect(),
        next.map(|s| s.to_string()),
        delta.map(|s| s.to_string()),
    )
}

#[test]
fn three_pages_are_read_in_order_and_lazily() {
    // The first page comes from the request that opened the listing.
    let mut fetched = vec!["P1".to_string()];
    let mut pages = vec![page(&["d"], None, None), page(&["c"], Some("P3"), None)];
    let mut list = page(&["a", "b"], Some("P2"), None);
    let mut names = Vec::new();
    let mut fetches_when_yielded = Vec::new();
    loop {
        match list.next() {
            ListStep::Item(i) => {
                names.push(i.name.clone());
                fetches_when_yielded.push(fetched.len());
                assert_eq!(i.extras.get("size"), Some(&serde_json::Value::from(7)));
            }
            ListStep::Fetch(url) => {
                assert!(list.awaiting_page());
                fetched.push(url);
                list.receive_page(pages.pop().unwrap());
            }
            ListStep::End => break,
        }
    }
    assert_eq!(names, vec!["a", "b", "c", "d"]);
    assert_eq!(fetched, vec!["P1", "P2", "P3"]);
    assert_eq!(fetches_when_yielded, vec![1, 1, 2, 3]);
}

#[test]
fn end_is_repeated_and_fetches_nothing() {
    let mut list = page(&[], None, None);
    assert!(matches!(list.next(), ListStep::End));
    assert!(matches!(list.next(), ListStep::End));
}

#[test]
fn fetch_is_asked_only_once_page_is_used_up() {
    let mut list = page(&["a"], Some("P2"), None);
    assert!(matches!(list.next(), ListStep::Item(_)));
    assert_eq!(list.next_url(), &Some("P2".to_string()));
    match list.next() {
        ListStep::Fetch(url) => assert_eq!(url, "P2"),
        other => panic!("unexpected {:?}", other),
    }
    assert_eq!(list.next_url(), &None);
}

#[test]
fn empty_page_with_link_still_follows_it() {
    let mut list = page(&[], Some("P2"), None);
    assert!(matches!(list.next(), ListStep::Fetch(ref u) if u == "P2"));
    list.receive_page(page(&["z"], None, Some("D1")));
    assert!(matches!(list.next(), ListStep::Item(ref i) if i.name == "z"));
    assert!(matches!(list.next(), ListStep::End));
}

#[test]
fn delta_link_is_surfaced_not_followed() {
    let mut list = page(&["a"], None, Some("https://x/delta?token=1"));
    assert!(matches!(list.next(), ListStep::Item(_)));
    assert!(matches!(list.next(), ListStep::End));
    assert_eq!(list.delta_url(), &Some("https://x/delta?token=1".to_string()));
}
