use vstd::prelude::*;

verus! {

/// Lifecycle of an appointment.
#[derive(Debug, Clone, Copy, PartialEq, Eq, Structural)]
pub enum AppointStatus {
    Unfinished,
    Finished,
    Canceled,
}

/// Stored labels of the three statuses.
pub const APPOINT_STATUS_UNFINISHED: &'static str = "未完成";

pub const APPOINT_STATUS_FINISHED: &'static str = "已完成";

pub const APPOINT_STATUS_CANCELED: &'static str = "已取消";

/// The status filter that selects appointments of every status.
pub const APPOINT_STATUS_ALL: &'static str = "所有";

impl AppointStatus {
    /// The stored label of the status.
    pub fn label(&self) -> (r: &'static str)
        ensures
            r@ == match *self {
                AppointStatus::Unfinished => APPOINT_STATUS_UNFINISHED@,
                AppointStatus::Finished => APPOINT_STATUS_FINISHED@,
                AppointStatus::Canceled => APPOINT_STATUS_CANCELED@,
            },
    {
        match *self {
            AppointStatus::Unfinished => APPOINT_STATUS_UNFINISHED,
            AppointStatus::Finished => APPOINT_STATUS_FINISHED,
            AppointStatus::Canceled => APPOINT_STATUS_CANCELED,
        }
    }
}

/// The status that the label `label` names, if it names one.
pub open spec fn status_named(label: Seq<char>) -> Option<AppointStatus> {
    if label == APPOINT_STATUS_UNFINISHED@ {
        Some(AppointStatus::Unfinished)
    } else if label == APPOINT_STATUS_FINISHED@ {
        Some(AppointStatus::Finished)
    } else if label == APPOINT_STATUS_CANCELED@ {
        Some(AppointStatus::Canceled)
    } else {
        None
    }
}

/// Reads a status filter: `Some(None)` for `APPOINT_STATUS_ALL` (every
/// status), `Some(Some(s))` for the label of `s`, and `None` for any other
/// text, which selects nothing.
pub fn parse_status_filter(label: &str) -> (r: Option<Option<AppointStatus>>)
    ensures
        r == if label@ == APPOINT_STATUS_ALL@ {
            Some(None::<AppointStatus>)
        } else {
            match status_named(label@) {
                Some(s) => Some(Some(s)),
                None => None,
            }
        },
{
    let l = label.to_owned();
    if l == APPOINT_STATUS_ALL.to_owned() {
        Some(None)
    } else if l == APPOINT_STATUS_UNFINISHED.to_owned() {
        Some(Some(AppointStatus::Unfinished))
    } else if l == APPOINT_STATUS_FINISHED.to_owned() {
        Some(Some(AppointStatus::Finished))
    } else if l == APPOINT_STATUS_CANCELED.to_owned() {
        Some(Some(AppointStatus::Canceled))
    } else {
        None
    }
}

/// A bookable interval of one doctor. Times are seconds since the Unix
/// epoch (naive UTC); `booked` seats of `capacity` are taken.
pub struct TimeSlot {
    pub tid: u64,
    pub did: String,
    pub start_time: i64,
    pub end_time: i64,
    pub capacity: u32,
    pub booked: u32,
}

/// A patient's claim on one seat of one slot; `(username, tid)` identifies it.
pub struct Appointment {
    pub username: String,
    pub tid: u64,
    pub status: AppointStatus,
    pub time: i64,
}

/// The slot ledger and the appointment table, changed only through the
/// operations of this crate, each of which is atomic.
pub struct Clinic {
    pub slots: Vec<TimeSlot>,
    pub appointments: Vec<Appointment>,
    pub next_tid: u64,
}

impl TimeSlot {
    pub fn duplicate(&self) -> (r: TimeSlot)
        ensures
            r == *self,
    {
        TimeSlot {
            tid: self.tid,
            did: self.did.clone(),
            start_time: self.start_time,
            end_time: self.end_time,
            capacity: self.capacity,
            booked: self.booked,
        }
    }
}

impl Appointment {
    pub fn duplicate(&self) -> (r: Appointment)
        ensures
            r == *self,
    {
        Appointment {
            username: self.username.clone(),
            tid: self.tid,
            status: self.status,
            time: self.time,
        }
    }
}

/// Whether `a` occupies a seat of slot `tid`.
pub open spec fn holds_seat(a: Appointment, tid: u64) -> bool {
    a.tid == tid && a.status != AppointStatus::Canceled
}

/// Number of appointments in `appts` that occupy a seat of slot `tid`.
pub open spec fn seats_taken(appts: Seq<Appointment>, tid: u64) -> nat
    decreases appts.len(),
{
    if appts.len() == 0 {
        0
    } else {
        seats_taken(appts.drop_last(), tid) + if holds_seat(appts.last(), tid) {
            1nat
        } else {
            0nat
        }
    }
}

pub open spec fn has_slot(slots: Seq<TimeSlot>, tid: u64) -> bool {
    exists|i: int| 0 <= i < slots.len() && slots[i].tid == tid
}

/// Position of slot `tid` (meaningful where `has_slot` holds).
pub open spec fn slot_at(slots: Seq<TimeSlot>, tid: u64) -> int {
    choose|i: int| 0 <= i < slots.len() && slots[i].tid == tid
}

pub open spec fn is_pair(a: Appointment, username: Seq<char>, tid: u64) -> bool {
    a.username@ == username && a.tid == tid
}

pub open spec fn has_appointment(appts: Seq<Appointment>, username: Seq<char>, tid: u64) -> bool {
    exists|k: int| 0 <= k < appts.len() && is_pair(appts[k], username, tid)
}

/// Position of the appointment of `username` on slot `tid` (meaningful
/// where `has_appointment` holds).
pub open spec fn appointment_at(appts: Seq<Appointment>, username: Seq<char>, tid: u64) -> int {
    choose|k: int| 0 <= k < appts.len() && is_pair(appts[k], username, tid)
}

/// No two rows of `appts` are for the same (patient, slot) pair.
pub open spec fn unique_pairs(appts: Seq<Appointment>) -> bool {
    forall|k: int, l: int|
        0 <= k < l < appts.len() ==> !is_pair(appts[l], appts[k].username@, appts[k].tid)
}

pub open spec fn with_booked(s: TimeSlot, booked: u32) -> TimeSlot {
    TimeSlot { booked, ..s }
}

pub open spec fn with_status(a: Appointment, status: AppointStatus) -> Appointment {
    Appointment { status, ..a }
}

impl Clinic {
    /// The invariant of the store: slot ids are unique and below `next_tid`;
    /// every slot has a proper interval and `booked <= capacity`, and
    /// `booked` counts exactly the appointments holding one of its seats;
    /// at most one appointment exists per (patient, slot) pair.
    pub open spec fn wf(&self) -> bool {
        &&& forall|i: int, j: int|
            0 <= i < j < self.slots@.len() ==> self.slots@[i].tid != self.slots@[j].tid
        &&& forall|i: int|
            0 <= i < self.slots@.len() ==> {
                &&& self.slots@[i].tid < self.next_tid
                &&& self.slots@[i].start_time < self.slots@[i].end_time
                &&& self.slots@[i].booked <= self.slots@[i].capacity
                &&& self.slots@[i].booked == seats_taken(self.appointments@, self.slots@[i].tid)
            }
        &&& unique_pairs(self.appointments@)
        &&& forall|k: int| 0 <= k < self.appointments@.len() ==> self.appointments@[k].tid < self.next_tid
    }

    pub fn new() -> (r: Clinic)
        ensures
            r.wf(),
            r.slots@.len() == 0,
            r.appointments@.len() == 0,
            r.next_tid == 1,
    {
        Clinic { slots: Vec::new(), appointments: Vec::new(), next_tid: 1 }
    }

    /// Position of slot `tid`, if there is one.
    pub fn find_slot(&self, tid: u64) -> (r: Option<usize>)
        requires
            self.wf(),
        ensures
            r is None <==> !has_slot(self.slots@, tid),
            r matches Some(i) ==> i == slot_at(self.slots@, tid) && self.slots@[i as int].tid == tid,
    {
        let mut i: usize = 0;
        while i < self.slots.len()
            invariant
                self.wf(),
                i <= self.slots@.len(),
                forall|j: int| 0 <= j < i ==> self.slots@[j].tid != tid,
            decreases self.slots@.len() - i,
        {
            if self.slots[i].tid == tid {
                proof {
                    assert(has_slot(self.slots@, tid));
                    let c = slot_at(self.slots@, tid);
                    assert(c == i as int) by {
                        if c < i {
                            assert(self.slots@[c].tid != self.slots@[i as int].tid);
                        } else if c > i {
                            assert(self.slots@[i as int].tid != self.slots@[c].tid);
                        }
                    }
                }
                return Some(i);
            }
            i = i + 1;
        }
        None
    }

    /// Position of the appointment of `username` on slot `tid`, if there is one.
    pub fn find_appointment(&self, username: &str, tid: u64) -> (r: Option<usize>)
        requires
            self.wf(),
        ensures
            r is None <==> !has_appointment(self.appointments@, username@, tid),
            r matches Some(k) ==> k == appointment_at(self.appointments@, username@, tid) && is_pair(
                self.appointments@[k as int],
                username@,
                tid,
            ),
    {
        let wanted = username.to_owned();
        let mut k: usize = 0;
        while k < self.appointments.len()
            invariant
                self.wf(),
                k <= self.appointments@.len(),
                wanted@ == username@,
                forall|j: int| 0 <= j < k ==> !is_pair(self.appointments@[j], username@, tid),
            decreases self.appointments@.len() - k,
        {
            if self.appointments[k].tid == tid && self.appointments[k].username == wanted {
                proof {
                    assert(has_appointment(self.appointments@, username@, tid));
                    let c = appointment_at(self.appointments@, username@, tid);
                    assert(c == k as int) by {
                        if c < k {
                            assert(!is_pair(self.appointments@[c], username@, tid));
                        } else if c > k {
                            let a = self.appointments@[k as int];
                            assert(!is_pair(self.appointments@[c], a.username@, a.tid));
                        }
                    }
                }
                return Some(k);
            }
            k = k + 1;
        }
        None
    }
}

/// Where pairs are unique, the row of a pair is the one found for it.
pub proof fn lemma_pair_index(appts: Seq<Appointment>, k: int, username: Seq<char>, tid: u64)
    requires
        unique_pairs(appts),
        0 <= k < appts.len(),
        is_pair(appts[k], username, tid),
    ensures
        has_appointment(appts, username, tid),
        appointment_at(appts, username, tid) == k,
{
    let c = appointment_at(appts, username, tid);
    if c < k {
        assert(!is_pair(appts[k], appts[c].username@, appts[c].tid));
    } else if c > k {
        assert(!is_pair(appts[c], appts[k].username@, appts[k].tid));
    }
}

/// Appending `a` adds one seat to its own slot and none to any other.
pub proof fn lemma_seats_push(appts: Seq<Appointment>, a: Appointment, tid: u64)
    ensures
        seats_taken(appts.push(a), tid) == seats_taken(appts, tid) + if holds_seat(a, tid) {
            1nat
        } else {
            0nat
        },
{
    assert(appts.push(a).drop_last() =~= appts);
}

/// Replacing the appointment at `k` changes the count of slot `tid` by
/// what the new row holds minus what the old one held.
pub proof fn lemma_seats_update(appts: Seq<Appointment>, k: int, a: Appointment, tid: u64)
    requires
        0 <= k < appts.len(),
    ensures
        seats_taken(appts.update(k, a), tid) + (if holds_seat(appts[k], tid) {
            1nat
        } else {
            0nat
        }) == seats_taken(appts, tid) + if holds_seat(a, tid) {
            1nat
        } else {
            0nat
        },
    decreases appts.len(),
{
    let u = appts.update(k, a);
    if k == appts.len() - 1 {
        assert(u.drop_last() =~= appts.drop_last());
    } else {
        assert(u.drop_last() =~= appts.drop_last().update(k, a));
        lemma_seats_update(appts.drop_last(), k, a, tid);
    }
}

/// No appointment holds a seat of a slot id that none of them mentions.
pub proof fn lemma_seats_fresh(appts: Seq<Appointment>, tid: u64)
    requires
        forall|k: int| 0 <= k < appts.len() ==> appts[k].tid < tid,
    ensures
        seats_taken(appts, tid) == 0,
    decreases appts.len(),
{
    if appts.len() > 0 {
        lemma_seats_fresh(appts.drop_last(), tid);
    }
}

} // verus!
