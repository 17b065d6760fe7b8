use crate::error::{CoreError, Entity};
use crate::store::{has_appointment, has_slot, lemma_seats_fresh, slot_at, Clinic, TimeSlot};
use vstd::prelude::*;

verus! {

/// Whether slot `s` clashes with a new interval `[start, end]`: the two
/// intervals, bounds included, share a point.
pub open spec fn clashes(s: TimeSlot, start: int, end: int) -> bool {
    s.start_time <= end && start <= s.end_time
}

/// Whether some slot of doctor `did` clashes with `[start, end]`.
pub open spec fn has_clash(slots: Seq<TimeSlot>, did: Seq<char>, start: int, end: int) -> bool {
    exists|i: int| 0 <= i < slots.len() && slots[i].did@ == did && clashes(slots[i], start, end)
}

/// What `create_slot` reports on a store holding `slots`.
pub open spec fn create_outcome(
    slots: Seq<TimeSlot>,
    next_tid: u64,
    did: Seq<char>,
    start: int,
    end: int,
) -> Result<u64, CoreError> {
    if start >= end {
        Err(CoreError::InvalidInterval)
    } else if has_clash(slots, did, start, end) {
        Err(CoreError::SlotConflict)
    } else if next_tid == u64::MAX {
        Err(CoreError::StoreUnavailable)
    } else {
        Ok(next_tid)
    }
}

/// What `update_capacity` reports.
pub open spec fn capacity_outcome(slots: Seq<TimeSlot>, tid: u64, capacity: u32) -> Result<(), CoreError> {
    if !has_slot(slots, tid) {
        Err(CoreError::NotFound(Entity::Slot))
    } else if capacity < slots[slot_at(slots, tid)].booked {
        Err(CoreError::CapacityBelowBooked)
    } else {
        Ok(())
    }
}

/// The interval a slot gets from `update_interval`: each given end
/// replaces the old one.
pub open spec fn new_interval(s: TimeSlot, start: Option<i64>, end: Option<i64>) -> (i64, i64) {
    (
        match start {
            Some(t) => t,
            None => s.start_time,
        },
        match end {
            Some(t) => t,
            None => s.end_time,
        },
    )
}

/// What `update_interval` reports.
pub open spec fn interval_outcome(
    slots: Seq<TimeSlot>,
    tid: u64,
    start: Option<i64>,
    end: Option<i64>,
) -> Result<(), CoreError> {
    if !has_slot(slots, tid) {
        Err(CoreError::NotFound(Entity::Slot))
    } else if slots[slot_at(slots, tid)].booked > 0 {
        Err(CoreError::SlotHasBookings)
    } else if new_interval(slots[slot_at(slots, tid)], start, end).0 >= new_interval(
        slots[slot_at(slots, tid)],
        start,
        end,
    ).1 {
        Err(CoreError::InvalidInterval)
    } else {
        Ok(())
    }
}

/// What `delete_slot` reports.
pub open spec fn delete_outcome(slots: Seq<TimeSlot>, tid: u64) -> Result<(), CoreError> {
    if !has_slot(slots, tid) {
        Err(CoreError::NotFound(Entity::Slot))
    } else if slots[slot_at(slots, tid)].booked > 0 {
        Err(CoreError::SlotHasBookings)
    } else {
        Ok(())
    }
}

impl Clinic {
    /// Opens a slot of doctor `did` over `[start, end)` with `capacity`
    /// seats, none booked, and returns its new id.
    pub fn create_slot(&mut self, did: &str, start: i64, end: i64, capacity: u32) -> (r: Result<
        u64,
        CoreError,
    >)
        requires
            old(self).wf(),
        ensures
            final(self).wf(),
            r == create_outcome(old(self).slots@, old(self).next_tid, did@, start as int, end as int),
            final(self).appointments@ == old(self).appointments@,
            r is Err ==> final(self).slots@ == old(self).slots@ && final(self).next_tid
                == old(self).next_tid,
            r matches Ok(tid) ==> {
                &&& final(self).next_tid == tid + 1
                &&& final(self).slots@.drop_last() == old(self).slots@
                &&& final(self).slots@.len() == old(self).slots@.len() + 1
                &&& final(self).slots@.last().tid == tid
                &&& final(self).slots@.last().did@ == did@
                &&& final(self).slots@.last().start_time == start
                &&& final(self).slots@.last().end_time == end
                &&& final(self).slots@.last().capacity == capacity
                &&& final(self).slots@.last().booked == 0
            },
    {
        if start >= end {
            return Err(CoreError::InvalidInterval);
        }
        let wanted = did.to_owned();
        let mut i: usize = 0;
        while i < self.slots.len()
            invariant
                self.wf(),
                *self == *old(self),
                start < end,
                i <= self.slots@.len(),
                wanted@ == did@,
                forall|j: int|
                    0 <= j < i ==> !(self.slots@[j].did@ == did@ && clashes(
                        self.slots@[j],
                        start as int,
                        end as int,
                    )),
            decreases self.slots@.len() - i,
        {
            let s = &self.slots[i];
            if s.did == wanted && s.start_time <= end && start <= s.end_time {
                return Err(CoreError::SlotConflict);
            }
            i = i + 1;
        }
        if self.next_tid == u64::MAX {
            return Err(CoreError::StoreUnavailable);
        }
        let tid = self.next_tid;
        let ghost old_slots = self.slots@;
        self.slots.push(
            TimeSlot { tid, did: wanted, start_time: start, end_time: end, capacity, booked: 0 },
        );
        self.next_tid = tid + 1;
        proof {
            assert(self.slots@.drop_last() =~= old_slots);
            lemma_seats_fresh(self.appointments@, tid);
        }
        Ok(tid)
    }

    /// Sets the capacity of slot `tid`; it may not drop below the seats
    /// already booked.
    pub fn update_capacity(&mut self, tid: u64, capacity: u32) -> (r: Result<(), CoreError>)
        requires
            old(self).wf(),
        ensures
            final(self).wf(),
            r == capacity_outcome(old(self).slots@, tid, capacity),
            final(self).appointments@ == old(self).appointments@,
            final(self).next_tid == old(self).next_tid,
            r is Err ==> final(self).slots@ == old(self).slots@,
            r is Ok ==> {
                let i = slot_at(old(self).slots@, tid);
                final(self).slots@ == old(self).slots@.update(
                    i,
                    TimeSlot { capacity, ..old(self).slots@[i] },
                )
            },
    {
        let i = match self.find_slot(tid) {
            None => return Err(CoreError::NotFound(Entity::Slot)),
            Some(i) => i,
        };
        if capacity < self.slots[i].booked {
            return Err(CoreError::CapacityBelowBooked);
        }
        let ghost old_slots = self.slots@;
        self.slots[i].capacity = capacity;
        proof {
            assert(self.slots@ =~= old_slots.update(
                i as int,
                TimeSlot { capacity, ..old_slots[i as int] },
            ));
        }
        Ok(())
    }

    /// Moves the start and/or end of slot `tid`; only a slot without
    /// bookings can move, and the result must remain a proper interval.
    pub fn update_interval(&mut self, tid: u64, start: Option<i64>, end: Option<i64>) -> (r: Result<
        (),
        CoreError,
    >)
        requires
            old(self).wf(),
        ensures
            final(self).wf(),
            r == interval_outcome(old(self).slots@, tid, start, end),
            final(self).appointments@ == old(self).appointments@,
            final(self).next_tid == old(self).next_tid,
            r is Err ==> final(self).slots@ == old(self).slots@,
            r is Ok ==> {
                let i = slot_at(old(self).slots@, tid);
                let iv = new_interval(old(self).slots@[i], start, end);
                final(self).slots@ == old(self).slots@.update(
                    i,
                    TimeSlot { start_time: iv.0, end_time: iv.1, ..old(self).slots@[i] },
                )
            },
    {
        let i = match self.find_slot(tid) {
            None => return Err(CoreError::NotFound(Entity::Slot)),
            Some(i) => i,
        };
        if self.slots[i].booked > 0 {
            return Err(CoreError::SlotHasBookings);
        }
        let new_start = match start {
            Some(t) => t,
            None => self.slots[i].start_time,
        };
        let new_end = match end {
            Some(t) => t,
            None => self.slots[i].end_time,
        };
        if new_start >= new_end {
            return Err(CoreError::InvalidInterval);
        }
        let ghost old_slots = self.slots@;
        self.slots[i].start_time = new_start;
        self.slots[i].end_time = new_end;
        proof {
            assert(self.slots@ =~= old_slots.update(
                i as int,
                TimeSlot { start_time: new_start, end_time: new_end, ..old_slots[i as int] },
            ));
        }
        Ok(())
    }

    /// Removes slot `tid`; only a slot without bookings can go.
    pub fn delete_slot(&mut self, tid: u64) -> (r: Result<(), CoreError>)
        requires
            old(self).wf(),
        ensures
            final(self).wf(),
            r == delete_outcome(old(self).slots@, tid),
            final(self).appointments@ == old(self).appointments@,
            final(self).next_tid == old(self).next_tid,
            r is Err ==> final(self).slots@ == old(self).slots@,
            r is Ok ==> final(self).slots@ == old(self).slots@.remove(slot_at(old(self).slots@, tid)),
            r is Ok ==> !has_slot(final(self).slots@, tid),
    {
        let i = match self.find_slot(tid) {
            None => return Err(CoreError::NotFound(Entity::Slot)),
            Some(i) => i,
        };
        if self.slots[i].booked > 0 {
            return Err(CoreError::SlotHasBookings);
        }
        let ghost old_slots = self.slots@;
        self.slots.remove(i);
        proof {
            assert forall|j: int| 0 <= j < self.slots@.len() implies self.slots@[j].tid != tid by {
                if j < i {
                    assert(old_slots[j].tid != old_slots[i as int].tid);
                } else {
                    assert(old_slots[i as int].tid != old_slots[j + 1].tid);
                }
            }
        }
        Ok(())
    }

    /// Existence check for slot `tid`.
    pub fn assert_time(&self, tid: u64) -> (r: Result<(), CoreError>)
        requires
            self.wf(),
        ensures
            r is Ok <==> has_slot(self.slots@, tid),
            r is Err ==> r == Err::<(), CoreError>(CoreError::NotFound(Entity::Slot)),
    {
        match self.find_slot(tid) {
            None => Err(CoreError::NotFound(Entity::Slot)),
            Some(_) => Ok(()),
        }
    }

    /// Existence check for the appointment of `username` on slot `tid`.
    pub fn assert_appoint(&self, username: &str, tid: u64) -> (r: Result<(), CoreError>)
        requires
            self.wf(),
        ensures
            r is Ok <==> has_appointment(self.appointments@, username@, tid),
            r is Err ==> r == Err::<(), CoreError>(CoreError::NotFound(Entity::Appointment)),
    {
        match self.find_appointment(username, tid) {
            None => Err(CoreError::NotFound(Entity::Appointment)),
            Some(_) => Ok(()),
        }
    }
}

} // verus!
