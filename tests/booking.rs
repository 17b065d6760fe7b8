use clinic::error::{CoreError, Entity};
use clinic::store::{AppointStatus, Clinic};

const NINE: i64 = 1619859600;
const TEN: i64 = NINE + 3600;

fn booked(c: &Clinic, tid: u64) -> u32 {
    c.slots.iter().find(|s| s.tid == tid).unwrap().booked
}

fn status(c: &Clinic, user: &str, tid: u64) -> AppointStatus {
    c.appointments.iter().find(|a| a.username == user && a.tid == tid).unwrap().status
}

#[test]
fn book_cancel_rebook_scenario() {
    let mut c = Clinic::new();
    let tid = c.create_slot("D", NINE, TEN, 2).unwrap();
    assert_eq!(c.book("A", tid, NINE - 100), Ok(()));
    assert_eq!(booked(&c, tid), 1);
    assert_eq!(c.book("B", tid, NINE - 100), Ok(()));
    assert_eq!(booked(&c, tid), 2);
    assert_eq!(c.book("C", tid, NINE - 100), Err(CoreError::SlotFull));
    assert_eq!(booked(&c, tid), 2);
    assert_eq!(c.cancel("A", tid), Ok(()));
    assert_eq!(booked(&c, tid), 1);
    assert_eq!(c.book("C", tid, NINE - 50), Ok(()));
    assert_eq!(booked(&c, tid), 2);
    assert_eq!(status(&c, "A", tid), AppointStatus::Canceled);
}

#[test]
fn finish_on_canceled_is_not_unfinished() {
    let mut c = Clinic::new();
    let tid = c.create_slot("D", NINE, TEN, 1).unwrap();
    c.book("A", tid, NINE - 100).unwrap();
    c.cancel("A", tid).unwrap();
    assert_eq!(c.finish("A", tid), Err(CoreError::NotUnfinished));
    assert_eq!(c.finish("Z", tid), Err(CoreError::NotBooked));
}

#[test]
fn finish_keeps_the_seat_and_ignores_the_clock() {
    let mut c = Clinic::new();
    let tid = c.create_slot("D", NINE, TEN, 1).unwrap();
    c.book("A", tid, NINE - 100).unwrap();
    assert_eq!(c.finish("A", tid), Ok(()));
    assert_eq!(status(&c, "A", tid), AppointStatus::Finished);
    assert_eq!(booked(&c, tid), 1);
    assert_eq!(c.finish("A", tid), Err(CoreError::NotUnfinished));
    assert_eq!(c.cancel("A", tid), Err(CoreError::AlreadyFinished));
    assert_eq!(c.book("A", tid, NINE), Err(CoreError::AlreadyBooked));
}

#[test]
fn delete_slot_only_without_bookings() {
    let mut c = Clinic::new();
    let tid = c.create_slot("D", NINE, TEN, 2).unwrap();
    c.book("A", tid, 0).unwrap();
    c.book("B", tid, 0).unwrap();
    assert_eq!(c.delete_slot(tid), Err(CoreError::SlotHasBookings));
    c.cancel("A", tid).unwrap();
    assert_eq!(c.delete_slot(tid), Err(CoreError::SlotHasBookings));
    c.cancel("B", tid).unwrap();
    assert_eq!(booked(&c, tid), 0);
    assert_eq!(c.delete_slot(tid), Ok(()));
    assert!(c.slots.is_empty());
    assert_eq!(c.delete_slot(tid), Err(CoreError::NotFound(Entity::Slot)));
    assert_eq!(c.book("A", tid, 0), Err(CoreError::NotFound(Entity::Slot)));
}

#[test]
fn many_bookings_on_one_seat() {
    let mut c = Clinic::new();
    let tid = c.create_slot("D", NINE, TEN, 1).unwrap();
    let users = ["ann", "ben", "cat", "dan", "eve"];
    let mut ok = 0;
    for u in users.iter() {
        match c.book(u, tid, 0) {
            Ok(()) => ok += 1,
            Err(e) => assert_eq!(e, CoreError::SlotFull),
        }
    }
    assert_eq!(c.book("ann", tid, 0), Err(CoreError::AlreadyBooked));
    assert_eq!(ok, 1);
    assert_eq!(booked(&c, tid), 1);
}

#[test]
fn cancel_errors() {
    let mut c = Clinic::new();
    let tid = c.create_slot("D", NINE, TEN, 1).unwrap();
    assert_eq!(c.cancel("A", tid), Err(CoreError::NotBooked));
    assert_eq!(c.cancel("A", tid + 7), Err(CoreError::NotFound(Entity::Slot)));
    c.book("A", tid, 0).unwrap();
    c.cancel("A", tid).unwrap();
    assert_eq!(c.cancel("A", tid), Err(CoreError::AlreadyCanceled));
    assert_eq!(booked(&c, tid), 0);
}

#[test]
fn create_slot_rules() {
    let mut c = Clinic::new();
    assert_eq!(c.create_slot("D", TEN, NINE, 1), Err(CoreError::InvalidInterval));
    assert_eq!(c.create_slot("D", NINE, NINE, 1), Err(CoreError::InvalidInterval));
    let a = c.create_slot("D", NINE, TEN, 1).unwrap();
    assert_eq!(c.create_slot("D", TEN, TEN + 3600, 1), Err(CoreError::SlotConflict));
    assert_eq!(c.create_slot("D", NINE - 60, NINE + 60, 1), Err(CoreError::SlotConflict));
    assert_eq!(c.create_slot("D", NINE + 60, NINE + 120, 1), Err(CoreError::SlotConflict));
    assert_eq!(c.create_slot("D", NINE - 60, TEN + 60, 1), Err(CoreError::SlotConflict));
    let b = c.create_slot("E", NINE, TEN, 1).unwrap();
    let d = c.create_slot("D", TEN + 1, TEN + 3600, 3).unwrap();
    assert!(a != b && b != d && a != d);
    assert_eq!(c.slots.len(), 3);
    assert_eq!(c.slots[2].capacity, 3);
    assert_eq!(c.slots[2].booked, 0);
}

#[test]
fn capacity_and_interval_updates() {
    let mut c = Clinic::new();
    let tid = c.create_slot("D", NINE, TEN, 2).unwrap();
    c.book("A", tid, 0).unwrap();
    c.book("B", tid, 0).unwrap();
    assert_eq!(c.update_capacity(tid, 1), Err(CoreError::CapacityBelowBooked));
    assert_eq!(c.update_capacity(tid, 2), Ok(()));
    assert_eq!(c.update_capacity(tid, 5), Ok(()));
    assert_eq!(c.slots[0].capacity, 5);
    assert_eq!(c.update_interval(tid, Some(NINE - 60), None), Err(CoreError::SlotHasBookings));
    c.cancel("A", tid).unwrap();
    c.cancel("B", tid).unwrap();
    assert_eq!(c.update_interval(tid, Some(TEN), None), Err(CoreError::InvalidInterval));
    assert_eq!(c.update_interval(tid, Some(NINE - 60), Some(TEN + 60)), Ok(()));
    assert_eq!(c.slots[0].start_time, NINE - 60);
    assert_eq!(c.slots[0].end_time, TEN + 60);
    assert_eq!(c.update_capacity(tid + 1, 1), Err(CoreError::NotFound(Entity::Slot)));
}

#[test]
fn existence_checks() {
    let mut c = Clinic::new();
    let tid = c.create_slot("D", NINE, TEN, 2).unwrap();
    assert_eq!(c.assert_time(tid), Ok(()));
    assert_eq!(c.assert_time(tid + 1), Err(CoreError::NotFound(Entity::Slot)));
    assert_eq!(c.assert_appoint("A", tid), Err(CoreError::NotFound(Entity::Appointment)));
    c.book("A", tid, 0).unwrap();
    assert_eq!(c.assert_appoint("A", tid), Ok(()));
}
