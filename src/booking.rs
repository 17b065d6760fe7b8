use crate::error::{CoreError, Entity};
use crate::store::{
    appointment_at, has_appointment, has_slot, is_pair, lemma_pair_index, lemma_seats_push, lemma_seats_update,
    unique_pairs, seats_taken,
    slot_at, with_booked, with_status, AppointStatus, Appointment, Clinic, TimeSlot,
};
use vstd::prelude::*;

verus! {

/// What `book` reports on a store holding `slots` and `appts`.
pub open spec fn book_outcome(
    slots: Seq<TimeSlot>,
    appts: Seq<Appointment>,
    username: Seq<char>,
    tid: u64,
) -> Result<(), CoreError> {
    if !has_slot(slots, tid) {
        Err(CoreError::NotFound(Entity::Slot))
    } else if has_appointment(appts, username, tid) && appts[appointment_at(
        appts,
        username,
        tid,
    )].status != AppointStatus::Canceled {
        Err(CoreError::AlreadyBooked)
    } else if slots[slot_at(slots, tid)].booked >= slots[slot_at(slots, tid)].capacity {
        Err(CoreError::SlotFull)
    } else {
        Ok(())
    }
}

/// How `book` of `username` on slot `tid` takes the store from `before` to
/// `after` with result `r`: `r` is `book_outcome`; on failure slots and
/// appointments stay as they were; on success the slot gains a booked seat
/// and the pair's row is made unfinished again, or a new unfinished row
/// is appended.
pub open spec fn book_step(
    before: Clinic,
    after: Clinic,
    username: Seq<char>,
    tid: u64,
    r: Result<(), CoreError>,
) -> bool {
    &&& after.wf()
    &&& r == book_outcome(before.slots@, before.appointments@, username, tid)
    &&& r is Err ==> after.slots@ == before.slots@ && after.appointments@ == before.appointments@
    &&& r is Ok ==> {
        let i = slot_at(before.slots@, tid);
        let s = before.slots@[i];
        &&& after.slots@ == before.slots@.update(i, with_booked(s, (s.booked + 1) as u32))
        &&& if has_appointment(before.appointments@, username, tid) {
            let k = appointment_at(before.appointments@, username, tid);
            after.appointments@ == before.appointments@.update(
                k,
                with_status(before.appointments@[k], AppointStatus::Unfinished),
            )
        } else {
            &&& after.appointments@.drop_last() == before.appointments@
            &&& after.appointments@.len() == before.appointments@.len() + 1
            &&& is_pair(after.appointments@.last(), username, tid)
            &&& after.appointments@.last().status == AppointStatus::Unfinished
        }
    }
}

/// What `cancel` reports on a store holding `slots` and `appts`.
pub open spec fn cancel_outcome(
    slots: Seq<TimeSlot>,
    appts: Seq<Appointment>,
    username: Seq<char>,
    tid: u64,
) -> Result<(), CoreError> {
    if !has_slot(slots, tid) {
        Err(CoreError::NotFound(Entity::Slot))
    } else if !has_appointment(appts, username, tid) {
        Err(CoreError::NotBooked)
    } else {
        match appts[appointment_at(appts, username, tid)].status {
            AppointStatus::Finished => Err(CoreError::AlreadyFinished),
            AppointStatus::Canceled => Err(CoreError::AlreadyCanceled),
            AppointStatus::Unfinished => Ok(()),
        }
    }
}

/// What `finish` reports on a store holding `appts`.
pub open spec fn finish_outcome(appts: Seq<Appointment>, username: Seq<char>, tid: u64) -> Result<
    (),
    CoreError,
> {
    if !has_appointment(appts, username, tid) {
        Err(CoreError::NotBooked)
    } else if appts[appointment_at(appts, username, tid)].status != AppointStatus::Unfinished {
        Err(CoreError::NotUnfinished)
    } else {
        Ok(())
    }
}

/// The status of the (patient, slot) pair, `None` where no row exists.
pub open spec fn status_of(appts: Seq<Appointment>, username: Seq<char>, tid: u64) -> Option<
    AppointStatus,
> {
    if has_appointment(appts, username, tid) {
        Some(appts[appointment_at(appts, username, tid)].status)
    } else {
        None
    }
}

/// The moves an appointment may make: created unfinished, finished or
/// canceled from unfinished, and booked again after a cancellation.
pub open spec fn allowed_step(from: Option<AppointStatus>, to: Option<AppointStatus>) -> bool {
    from == to || match (from, to) {
        (None, Some(AppointStatus::Unfinished)) => true,
        (Some(AppointStatus::Unfinished), Some(AppointStatus::Finished)) => true,
        (Some(AppointStatus::Unfinished), Some(AppointStatus::Canceled)) => true,
        (Some(AppointStatus::Canceled), Some(AppointStatus::Unfinished)) => true,
        _ => false,
    }
}

/// Every pair keeps an allowed status when row `k` moves to `status` by
/// an allowed step and nothing else changes.
pub proof fn lemma_steps_update(appts: Seq<Appointment>, k: int, status: AppointStatus)
    requires
        unique_pairs(appts),
        0 <= k < appts.len(),
        allowed_step(Some(appts[k].status), Some(status)),
    ensures
        forall|u: Seq<char>, t: u64|
            allowed_step(
                #[trigger] status_of(appts, u, t),
                status_of(appts.update(k, with_status(appts[k], status)), u, t),
            ),
{
    let after = appts.update(k, with_status(appts[k], status));
    assert(unique_pairs(after)) by {
        assert forall|x: int, y: int| 0 <= x < y < after.len() implies !is_pair(
            after[y],
            after[x].username@,
            after[x].tid,
        ) by {
            assert(!is_pair(appts[y], appts[x].username@, appts[x].tid));
        }
    }
    assert forall|u: Seq<char>, t: u64|
        allowed_step(#[trigger] status_of(appts, u, t), status_of(after, u, t)) by {
        if has_appointment(appts, u, t) {
            let j = appointment_at(appts, u, t);
            lemma_pair_index(after, j, u, t);
        } else if has_appointment(after, u, t) {
            let j = appointment_at(after, u, t);
            assert(is_pair(appts[j], u, t));
        }
    }
}

/// Every pair keeps an allowed status when a new unfinished row is appended.
pub proof fn lemma_steps_push(appts: Seq<Appointment>, a: Appointment)
    requires
        unique_pairs(appts.push(a)),
        a.status == AppointStatus::Unfinished,
    ensures
        forall|u: Seq<char>, t: u64|
            allowed_step(#[trigger] status_of(appts, u, t), status_of(appts.push(a), u, t)),
{
    let after = appts.push(a);
    assert forall|u: Seq<char>, t: u64|
        allowed_step(#[trigger] status_of(appts, u, t), status_of(after, u, t)) by {
        if has_appointment(appts, u, t) {
            let j = appointment_at(appts, u, t);
            assert(after[j] == appts[j]);
            lemma_pair_index(after, j, u, t);
        } else if has_appointment(after, u, t) {
            let j = appointment_at(after, u, t);
            if j < appts.len() {
                assert(after[j] == appts[j]);
            }
        }
    }
}

impl Clinic {
    /// Books a seat of slot `tid` for `username` at time `now`: a new
    /// unfinished appointment, or a canceled one made unfinished again.
    /// The slot's `booked` grows by one. On failure nothing changes.
    pub fn book(&mut self, username: &str, tid: u64, now: i64) -> (r: Result<(), CoreError>)
        requires
            old(self).wf(),
        ensures
            final(self).wf(),
            forall|u: Seq<char>, t: u64|
                allowed_step(
                    #[trigger] status_of(old(self).appointments@, u, t),
                    status_of(final(self).appointments@, u, t),
                ),
            book_step(*old(self), *final(self), username@, tid, r),
            final(self).next_tid == old(self).next_tid,
            r is Ok && !has_appointment(old(self).appointments@, username@, tid)
                ==> final(self).appointments@.last().time == now,
    {
        let i = match self.find_slot(tid) {
            None => return Err(CoreError::NotFound(Entity::Slot)),
            Some(i) => i,
        };
        let found = self.find_appointment(username, tid);
        if let Some(k) = found {
            if self.appointments[k].status != AppointStatus::Canceled {
                return Err(CoreError::AlreadyBooked);
            }
        }
        if self.slots[i].booked >= self.slots[i].capacity {
            return Err(CoreError::SlotFull);
        }
        let ghost old_appts = self.appointments@;
        let ghost old_slots = self.slots@;
        match found {
            None => {
                let a = Appointment {
                    username: username.to_owned(),
                    tid,
                    status: AppointStatus::Unfinished,
                    time: now,
                };
                self.appointments.push(a);
                proof {
                    assert(self.appointments@.drop_last() =~= old_appts);
                    assert forall|t: u64| #[trigger]
                        seats_taken(self.appointments@, t) == seats_taken(old_appts, t) + if t
                            == tid {
                            1nat
                        } else {
                            0nat
                        } by {
                        lemma_seats_push(old_appts, self.appointments@.last(), t);
                        assert(old_appts.push(self.appointments@.last()) =~= self.appointments@);
                    }
                }
            },
            Some(k) => {
                self.appointments[k].status = AppointStatus::Unfinished;
                proof {
                    let a = with_status(old_appts[k as int], AppointStatus::Unfinished);
                    assert(self.appointments@ =~= old_appts.update(k as int, a));
                    assert forall|t: u64| #[trigger]
                        seats_taken(self.appointments@, t) == seats_taken(old_appts, t) + if t
                            == tid {
                            1nat
                        } else {
                            0nat
                        } by {
                        lemma_seats_update(old_appts, k as int, a, t);
                    }
                }
            },
        }
        self.slots[i].booked = self.slots[i].booked + 1;
        proof {
            let s = old_slots[i as int];
            assert(self.slots@ =~= old_slots.update(i as int, with_booked(s, (s.booked + 1) as u32)));
            assert forall|k: int, l: int|
                0 <= k < l < self.appointments@.len() implies !is_pair(
                self.appointments@[l],
                self.appointments@[k].username@,
                self.appointments@[k].tid,
            ) by {
                if found is None && l == self.appointments@.len() - 1 {
                    assert(!is_pair(old_appts[k], username@, tid));
                } else {
                    assert(!is_pair(old_appts[l], old_appts[k].username@, old_appts[k].tid));
                }
            }
            match found {
                None => {
                    assert(old_appts.push(self.appointments@.last()) =~= self.appointments@);
                    lemma_steps_push(old_appts, self.appointments@.last());
                },
                Some(k) => lemma_steps_update(old_appts, k as int, AppointStatus::Unfinished),
            }
        }
        Ok(())
    }

    /// Cancels the unfinished appointment of `username` on slot `tid` and
    /// frees its seat. On failure nothing changes.
    pub fn cancel(&mut self, username: &str, tid: u64) -> (r: Result<(), CoreError>)
        requires
            old(self).wf(),
        ensures
            final(self).wf(),
            forall|u: Seq<char>, t: u64|
                allowed_step(
                    #[trigger] status_of(old(self).appointments@, u, t),
                    status_of(final(self).appointments@, u, t),
                ),
            r == cancel_outcome(old(self).slots@, old(self).appointments@, username@, tid),
            final(self).next_tid == old(self).next_tid,
            r is Err ==> final(self).slots@ == old(self).slots@ && final(self).appointments@
                == old(self).appointments@,
            r is Ok ==> {
                let i = slot_at(old(self).slots@, tid);
                let s = old(self).slots@[i];
                let k = appointment_at(old(self).appointments@, username@, tid);
                &&& final(self).slots@ == old(self).slots@.update(i, with_booked(s, (s.booked - 1) as u32))
                &&& final(self).appointments@ == old(self).appointments@.update(
                    k,
                    with_status(old(self).appointments@[k], AppointStatus::Canceled),
                )
            },
    {
        let i = match self.find_slot(tid) {
            None => return Err(CoreError::NotFound(Entity::Slot)),
            Some(i) => i,
        };
        let k = match self.find_appointment(username, tid) {
            None => return Err(CoreError::NotBooked),
            Some(k) => k,
        };
        match self.appointments[k].status {
            AppointStatus::Finished => return Err(CoreError::AlreadyFinished),
            AppointStatus::Canceled => return Err(CoreError::AlreadyCanceled),
            AppointStatus::Unfinished => {},
        }
        let ghost old_appts = self.appointments@;
        let ghost old_slots = self.slots@;
        self.appointments[k].status = AppointStatus::Canceled;
        proof {
            let a = with_status(old_appts[k as int], AppointStatus::Canceled);
            assert(self.appointments@ =~= old_appts.update(k as int, a));
            assert forall|t: u64| #[trigger]
                seats_taken(self.appointments@, t) + (if t == tid {
                    1nat
                } else {
                    0nat
                }) == seats_taken(old_appts, t) by {
                lemma_seats_update(old_appts, k as int, a, t);
            }
            assert(seats_taken(self.appointments@, tid) + 1 == seats_taken(old_appts, tid));
        }
        self.slots[i].booked = self.slots[i].booked - 1;
        proof {
            let s = old_slots[i as int];
            assert(self.slots@ =~= old_slots.update(i as int, with_booked(s, (s.booked - 1) as u32)));
            assert forall|x: int, y: int|
                0 <= x < y < self.appointments@.len() implies !is_pair(
                self.appointments@[y],
                self.appointments@[x].username@,
                self.appointments@[x].tid,
            ) by {
                assert(!is_pair(old_appts[y], old_appts[x].username@, old_appts[x].tid));
            }
            lemma_steps_update(old_appts, k as int, AppointStatus::Canceled);
        }
        Ok(())
    }

    /// Marks the unfinished appointment of `username` on slot `tid` as
    /// finished. The seat stays taken. On failure nothing changes.
    pub fn finish(&mut self, username: &str, tid: u64) -> (r: Result<(), CoreError>)
        requires
            old(self).wf(),
        ensures
            final(self).wf(),
            forall|u: Seq<char>, t: u64|
                allowed_step(
                    #[trigger] status_of(old(self).appointments@, u, t),
                    status_of(final(self).appointments@, u, t),
                ),
            r == finish_outcome(old(self).appointments@, username@, tid),
            final(self).next_tid == old(self).next_tid,
            final(self).slots@ == old(self).slots@,
            r is Err ==> final(self).appointments@ == old(self).appointments@,
            r is Ok ==> {
                let k = appointment_at(old(self).appointments@, username@, tid);
                final(self).appointments@ == old(self).appointments@.update(
                    k,
                    with_status(old(self).appointments@[k], AppointStatus::Finished),
                )
            },
    {
        let k = match self.find_appointment(username, tid) {
            None => return Err(CoreError::NotBooked),
            Some(k) => k,
        };
        if self.appointments[k].status != AppointStatus::Unfinished {
            return Err(CoreError::NotUnfinished);
        }
        let ghost old_appts = self.appointments@;
        self.appointments[k].status = AppointStatus::Finished;
        proof {
            let a = with_status(old_appts[k as int], AppointStatus::Finished);
            assert(self.appointments@ =~= old_appts.update(k as int, a));
            assert forall|t: u64| #[trigger]
                seats_taken(self.appointments@, t) == seats_taken(old_appts, t) by {
                lemma_seats_update(old_appts, k as int, a, t);
            }
            assert forall|x: int, y: int|
                0 <= x < y < self.appointments@.len() implies !is_pair(
                self.appointments@[y],
                self.appointments@[x].username@,
                self.appointments@[x].tid,
            ) by {
                assert(!is_pair(old_appts[y], old_appts[x].username@, old_appts[x].tid));
            }
            lemma_steps_update(old_appts, k as int, AppointStatus::Finished);
        }
        Ok(())
    }
}

} // verus!
