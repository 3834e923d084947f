use sdm_lister::room_lines;
use sdm_lister::structure_lines;
use sdm_lister::DynamicValue;
use sdm_lister::Pager;
use sdm_lister::Room;
use sdm_lister::Structure;

#[test]
fn first_request_names_parent_and_empty_cursor() {
    let pager: Pager<u32> = Pager::new("enterprises/p1".to_string(), "".to_string());
    let req = pager.next_request();
    assert_eq!(req.parent, "enterprises/p1");
    assert_eq!(req.page_size, 0);
    assert_eq!(req.page_token, "");
    assert_eq!(req.filter, "");
}

#[test]
fn pagination_yields_all_pages_in_order() {
    let mut pager: Pager<u32> = Pager::new("parent".to_string(), "".to_string());
    let mut collected: Vec<u32> = Vec::new();
    let mut fetches: u32 = 0;

    let page1 = vec![1, 2];
    pager.accept_page(&page1, "cursor-2".to_string());
    collected.extend(&page1);
    fetches += 1;
    assert!(pager.has_more());
    assert_eq!(pager.next_request().page_token, "cursor-2");

    let page2 = vec![3];
    pager.accept_page(&page2, "".to_string());
    collected.extend(&page2);
    fetches += 1;
    assert!(!pager.has_more());

    assert_eq!(collected, vec![1, 2, 3]);
    assert_eq!(fetches, 2);
}

#[test]
fn consumer_may_stop_early_without_more_fetches() {
    let mut pager: Pager<u32> = Pager::new("parent".to_string(), "".to_string());
    pager.accept_page(&vec![1], "cursor-2".to_string());
    // The consumer stops after one page's items: the next request exists but
    // is never issued, so exactly one fetch happened.
    assert!(pager.has_more());
}

#[test]
fn failed_fetch_keeps_items_already_yielded() {
    let mut pager: Pager<String> = Pager::new("parent".to_string(), "".to_string());
    let mut printed: Vec<String> = Vec::new();

    let page1 = vec!["item-1".to_string()];
    pager.accept_page(&page1, "cursor-2".to_string());
    printed.extend(page1);
    assert!(pager.has_more());

    let err = pager.fail("transport broke".to_string());
    assert_eq!(err.cause, "transport broke");
    assert!(!pager.has_more());
    assert_eq!(printed, vec!["item-1".to_string()]);
}

#[test]
fn structure_without_traits_and_two_room_pages() {
    let structure = Structure { name: "enterprises/p1/structures/s1".to_string(), traits: None };
    let mut output: Vec<String> = Vec::new();
    output.extend(structure_lines(&structure));

    let mut pager: Pager<Room> = Pager::new(structure.name.clone(), "".to_string());
    let mut fetches: u32 = 0;

    let page1 = vec![Room {
        name: "enterprises/p1/structures/s1/rooms/r1".to_string(),
        traits: Some(DynamicValue::Object(vec![])),
    }];
    assert_eq!(pager.next_request().page_token, "");
    pager.accept_page(&page1, "more".to_string());
    fetches += 1;
    for room in &page1 {
        output.extend(room_lines(room));
    }

    assert!(pager.has_more());
    let page2: Vec<Room> = vec![];
    assert_eq!(pager.next_request().page_token, "more");
    pager.accept_page(&page2, "".to_string());
    fetches += 1;
    assert!(!pager.has_more());

    assert_eq!(fetches, 2);
    assert_eq!(
        output,
        vec![
            "Structure Name: enterprises/p1/structures/s1".to_string(),
            "enterprises/p1/structures/s1/rooms/r1".to_string(),
        ]
    );
}
