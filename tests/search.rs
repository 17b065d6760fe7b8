use clinic::search::Party;
use clinic::store::{AppointStatus, Clinic};

#[test]
fn slots_sorted_and_paged() {
    let mut c = Clinic::new();
    let a = c.create_slot("D", 300, 400, 1).unwrap();
    let b = c.create_slot("D", 100, 200, 1).unwrap();
    let e = c.create_slot("E", 150, 160, 1).unwrap();
    let d = c.create_slot("D", 500, 600, 1).unwrap();
    let tids = |hits: Vec<(i64, usize, usize)>| -> Vec<u64> { hits.iter().map(|h| c.slots[h.2].tid).collect() };
    assert_eq!(tids(c.search_slots(Some("D"), 0, 1000, 0, 30)), vec![b, a, d]);
    assert_eq!(tids(c.search_slots(None, 0, 1000, 0, 30)), vec![b, e, a, d]);
    assert_eq!(tids(c.search_slots(Some("D"), 0, 1000, 1, 1)), vec![a]);
    assert_eq!(tids(c.search_slots(Some("D"), 0, 1000, -5, 2)), vec![b, a]);
    assert_eq!(tids(c.search_slots(Some("D"), 0, 1000, 7, 2)), Vec::<u64>::new());
    assert_eq!(tids(c.search_slots(Some("D"), 0, 1000, 0, -1)), Vec::<u64>::new());
    assert_eq!(tids(c.search_slots(Some("D"), 250, 450, 0, 30)), vec![a]);
}

#[test]
fn appointments_latest_first() {
    let mut c = Clinic::new();
    let a = c.create_slot("D", 300, 400, 2).unwrap();
    let b = c.create_slot("D", 100, 200, 2).unwrap();
    let e = c.create_slot("E", 500, 600, 2).unwrap();
    c.book("p", b, 0).unwrap();
    c.book("p", a, 0).unwrap();
    c.book("p", e, 0).unwrap();
    c.book("q", a, 0).unwrap();
    c.cancel("p", b).unwrap();
    let pick = |hits: Vec<(i64, usize, usize)>| -> Vec<(String, u64)> {
        hits.iter()
            .map(|h| (c.appointments[h.1].username.clone(), c.slots[h.2].tid))
            .collect()
    };
    let mine = c.search_appointments(Party::Patient, "p", None, 0, 1000, 0, 30);
    assert_eq!(pick(mine), vec![("p".to_string(), e), ("p".to_string(), a), ("p".to_string(), b)]);
    let open = c.search_appointments(Party::Patient, "p", Some(AppointStatus::Unfinished), 0, 1000, 0, 30);
    assert_eq!(pick(open), vec![("p".to_string(), e), ("p".to_string(), a)]);
    let doc = c.search_appointments(Party::Doctor, "D", Some(AppointStatus::Unfinished), 0, 1000, 0, 30);
    assert_eq!(pick(doc), vec![("p".to_string(), a), ("q".to_string(), a)]);
    let page = c.search_appointments(Party::Doctor, "D", None, 0, 1000, 2, 5);
    assert_eq!(pick(page), vec![("p".to_string(), b)]);
}
