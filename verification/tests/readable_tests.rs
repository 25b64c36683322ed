use slowpty::readable::{EndpointId, PollEvent, PollResult, ReadableSet};

#[test]
fn fresh_set_is_empty() {
    let set = ReadableSet::new();
    assert!(set.is_empty());
}

#[test]
fn events_mark_endpoints_readable() {
    let mut set = ReadableSet::new();
    let events = vec![PollEvent { index: 1, readable: true, read_closed: false }];
    let res = set.block(&events);
    assert!(matches!(res, PollResult::Ready));
    assert!(!set.is_empty());

    set.unset(1);
    assert!(set.is_empty());
}

#[test]
fn unset_keeps_other_endpoint() {
    let mut set = ReadableSet::new();
    let events = vec![
        PollEvent { index: 0, readable: true, read_closed: false },
        PollEvent { index: 1, readable: true, read_closed: false },
    ];
    let _ = set.block(&events);
    set.unset(0);
    assert!(!set.is_empty());
    set.unset(1);
    assert!(set.is_empty());
}

#[test]
fn hangup_without_readable_is_terminal() {
    let mut set = ReadableSet::new();
    let events = vec![PollEvent { index: 1, readable: false, read_closed: true }];
    let res = set.block(&events);
    assert!(matches!(res, PollResult::Closed));
}

#[test]
fn hangup_still_readable_is_not_terminal() {
    let mut set = ReadableSet::new();
    let events = vec![PollEvent { index: 1, readable: true, read_closed: true }];
    let res = set.block(&events);
    assert!(matches!(res, PollResult::Ready));
    assert!(!set.is_empty());
}

#[test]
fn endpoints_map_to_directions() {
    let set = ReadableSet::new();

    let ep = set.endpoint(0).unwrap();
    assert_eq!(ep.name, "console");
    assert!(matches!(ep.src, EndpointId::Console));
    assert!(matches!(ep.dst, EndpointId::PtyMaster));

    let ep = set.endpoint(1).unwrap();
    assert_eq!(ep.name, "pty");
    assert!(matches!(ep.src, EndpointId::PtyMaster));
    assert!(matches!(ep.dst, EndpointId::Console));

    assert!(set.endpoint(2).is_none());
}
