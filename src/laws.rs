use crate::booking::{book_outcome, book_step};
use crate::error::CoreError;
use crate::session::{latest_match, resolve_spec, row_matches, token_for, without_token, SessionRow, Role};
use crate::store::{
    appointment_at, has_appointment, has_slot, holds_seat, is_pair, seats_taken, slot_at,
    AppointStatus, Appointment, Clinic,
};
use vstd::prelude::*;

verus! {

/// Every slot of a well-formed store has `0 <= booked <= capacity`, and
/// `booked` is the number of appointments holding one of its seats. Each
/// operation on a `Clinic` keeps it well formed, so this holds after any
/// sequence of them.
pub proof fn lemma_booked_within_capacity(c: &Clinic)
    requires
        c.wf(),
    ensures
        forall|i: int|
            0 <= i < c.slots@.len() ==> 0 <= #[trigger] c.slots@[i].booked <= c.slots@[i].capacity
                && c.slots@[i].booked == seats_taken(c.appointments@, c.slots@[i].tid),
{
}

/// A well-formed store holds at most one appointment per (patient, slot) pair.
pub proof fn lemma_one_row_per_pair(c: &Clinic)
    requires
        c.wf(),
    ensures
        forall|k: int, l: int|
            0 <= k < c.appointments@.len() && 0 <= l < c.appointments@.len() && k != l ==> !is_pair(
                #[trigger] c.appointments@[l],
                #[trigger] c.appointments@[k].username@,
                c.appointments@[k].tid,
            ),
{
    assert forall|k: int, l: int|
        0 <= k < c.appointments@.len() && 0 <= l < c.appointments@.len() && k != l implies !is_pair(
        #[trigger] c.appointments@[l],
        #[trigger] c.appointments@[k].username@,
        c.appointments@[k].tid,
    ) by {
        if l < k {
            assert(!is_pair(c.appointments@[k], c.appointments@[l].username@, c.appointments@[l].tid));
        }
    }
}

/// Once a slot's seats are all taken, every further booking of it fails,
/// as `AlreadyBooked` or as `SlotFull`.
pub proof fn lemma_full_slot_rejects(c: &Clinic, username: Seq<char>, tid: u64)
    requires
        c.wf(),
        has_slot(c.slots@, tid),
        c.slots@[slot_at(c.slots@, tid)].booked == c.slots@[slot_at(c.slots@, tid)].capacity,
    ensures
        book_outcome(c.slots@, c.appointments@, username, tid) == Err::<(), CoreError>(
            CoreError::AlreadyBooked,
        ) || book_outcome(c.slots@, c.appointments@, username, tid) == Err::<(), CoreError>(
            CoreError::SlotFull,
        ),
{
}

proof fn lemma_holder_counted(appts: Seq<Appointment>, j: int, tid: u64)
    requires
        0 <= j < appts.len(),
        holds_seat(appts[j], tid),
    ensures
        seats_taken(appts, tid) >= 1,
    decreases appts.len(),
{
    if j < appts.len() - 1 {
        lemma_holder_counted(appts.drop_last(), j, tid);
    }
}

/// Slot `tid` of `c` has its one seat taken, and only by `winner`.
pub open spec fn won_by(c: Clinic, tid: u64, winner: Seq<char>) -> bool {
    &&& c.wf()
    &&& has_slot(c.slots@, tid)
    &&& c.slots@[slot_at(c.slots@, tid)].capacity == 1
    &&& c.slots@[slot_at(c.slots@, tid)].booked == 1
    &&& forall|j: int|
        0 <= j < c.appointments@.len() && holds_seat(#[trigger] c.appointments@[j], tid)
            ==> c.appointments@[j].username@ == winner
}

proof fn lemma_first_booking_wins(
    before: Clinic,
    after: Clinic,
    username: Seq<char>,
    tid: u64,
    r: Result<(), CoreError>,
)
    requires
        before.wf(),
        has_slot(before.slots@, tid),
        before.slots@[slot_at(before.slots@, tid)].capacity == 1,
        before.slots@[slot_at(before.slots@, tid)].booked == 0,
        book_step(before, after, username, tid, r),
    ensures
        r is Ok,
        won_by(after, tid, username),
{
    let i = slot_at(before.slots@, tid);
    let old_appts = before.appointments@;
    let new_appts = after.appointments@;
    assert forall|j: int| 0 <= j < old_appts.len() implies !holds_seat(#[trigger] old_appts[j], tid) by {
        if holds_seat(old_appts[j], tid) {
            lemma_holder_counted(old_appts, j, tid);
        }
    }
    if has_appointment(old_appts, username, tid) {
        let k = appointment_at(old_appts, username, tid);
        assert(!holds_seat(old_appts[k], tid));
    }
    assert(r is Ok);
    assert(after.slots@[i].tid == tid);
    let j = slot_at(after.slots@, tid);
    if j != i {
        if j < i {
            assert(after.slots@[j].tid != after.slots@[i].tid);
        } else {
            assert(after.slots@[i].tid != after.slots@[j].tid);
        }
    }
    assert forall|x: int|
        0 <= x < new_appts.len() && holds_seat(#[trigger] new_appts[x], tid) implies new_appts[x].username@
        == username by {
        if has_appointment(old_appts, username, tid) {
            let k = appointment_at(old_appts, username, tid);
            if x != k {
                assert(new_appts[x] == old_appts[x]);
                assert(!holds_seat(old_appts[x], tid));
            }
        } else if x < old_appts.len() {
            assert(new_appts[x] == new_appts.drop_last()[x]);
            assert(!holds_seat(old_appts[x], tid));
        }
    }
}

proof fn lemma_later_booking_fails(
    before: Clinic,
    after: Clinic,
    username: Seq<char>,
    tid: u64,
    winner: Seq<char>,
    r: Result<(), CoreError>,
)
    requires
        won_by(before, tid, winner),
        book_step(before, after, username, tid, r),
    ensures
        r == Err::<(), CoreError>(CoreError::SlotFull) || (r == Err::<(), CoreError>(
            CoreError::AlreadyBooked,
        ) && username == winner),
        won_by(after, tid, winner),
{
    let appts = before.appointments@;
    if has_appointment(appts, username, tid) {
        let k = appointment_at(appts, username, tid);
        if appts[k].status != AppointStatus::Canceled {
            assert(holds_seat(appts[k], tid));
        }
    }
}

proof fn lemma_bookings_after_win(
    states: Seq<Clinic>,
    users: Seq<Seq<char>>,
    results: Seq<Result<(), CoreError>>,
    tid: u64,
    k: int,
)
    requires
        1 <= k <= users.len(),
        states.len() == users.len() + 1,
        results.len() == users.len(),
        won_by(states[1], tid, users[0]),
        forall|i: int|
            0 <= i < users.len() ==> book_step(states[i], states[i + 1], users[i], tid, #[trigger] results[i]),
    ensures
        won_by(states[k], tid, users[0]),
        forall|i: int|
            1 <= i < k ==> #[trigger] results[i] == Err::<(), CoreError>(CoreError::SlotFull) || (
            results[i] == Err::<(), CoreError>(CoreError::AlreadyBooked) && users[i] == users[0]),
    decreases k,
{
    if k > 1 {
        lemma_bookings_after_win(states, users, results, tid, k - 1);
        assert(book_step(states[k - 1], states[k], users[k - 1], tid, results[k - 1]));
        lemma_later_booking_fails(states[k - 1], states[k], users[k - 1], tid, users[0], results[k - 1]);
    }
}

/// Any run of bookings `users[0], users[1], ...` on a slot with one seat,
/// none taken, where each booking takes `states[i]` to `states[i + 1]`
/// with result `results[i]` (as `book` does): the first succeeds, each
/// later one fails with `SlotFull`, or with `AlreadyBooked` only when it
/// is the first booker's, and at the end the slot has exactly one seat
/// taken.
pub proof fn lemma_one_seat_bookings(
    states: Seq<Clinic>,
    users: Seq<Seq<char>>,
    results: Seq<Result<(), CoreError>>,
    tid: u64,
)
    requires
        users.len() >= 1,
        states.len() == users.len() + 1,
        results.len() == users.len(),
        states[0].wf(),
        has_slot(states[0].slots@, tid),
        states[0].slots@[slot_at(states[0].slots@, tid)].capacity == 1,
        states[0].slots@[slot_at(states[0].slots@, tid)].booked == 0,
        forall|i: int|
            0 <= i < users.len() ==> book_step(states[i], states[i + 1], users[i], tid, #[trigger] results[i]),
    ensures
        results[0] is Ok,
        forall|i: int|
            1 <= i < users.len() ==> #[trigger] results[i] == Err::<(), CoreError>(CoreError::SlotFull) || (
            results[i] == Err::<(), CoreError>(CoreError::AlreadyBooked) && users[i] == users[0]),
        has_slot(states.last().slots@, tid),
        states.last().slots@[slot_at(states.last().slots@, tid)].booked == 1,
{
    assert(book_step(states[0], states[1], users[0], tid, results[0]));
    lemma_first_booking_wins(states[0], states[1], users[0], tid, results[0]);
    lemma_bookings_after_win(states, users, results, tid, users.len() as int);
}

proof fn lemma_no_match_left(rows: Seq<SessionRow>, token: Seq<char>, role: Role)
    ensures
        forall|i: int|
            0 <= i < without_token(rows, token, role).len() ==> !row_matches(
                #[trigger] without_token(rows, token, role)[i],
                token,
                role,
            ),
    decreases rows.len(),
{
    if rows.len() > 0 {
        lemma_no_match_left(rows.drop_last(), token, role);
        let rest = without_token(rows.drop_last(), token, role);
        let all = without_token(rows, token, role);
        assert forall|i: int| 0 <= i < all.len() implies !row_matches(#[trigger] all[i], token, role) by {
            if i < rest.len() {
                assert(all[i] == rest[i]);
            }
        }
    }
}

proof fn lemma_nothing_to_remove(rows: Seq<SessionRow>, token: Seq<char>, role: Role)
    requires
        forall|i: int| 0 <= i < rows.len() ==> !row_matches(#[trigger] rows[i], token, role),
    ensures
        without_token(rows, token, role) == rows,
    decreases rows.len(),
{
    if rows.len() > 0 {
        lemma_nothing_to_remove(rows.drop_last(), token, role);
        assert(rows.drop_last().push(rows.last()) =~= rows);
    }
}

proof fn lemma_latest_in_range(rows: Seq<SessionRow>, token: Seq<char>, role: Role)
    ensures
        latest_match(rows, token, role) matches Some(j) ==> 0 <= j < rows.len() && row_matches(
            rows[j],
            token,
            role,
        ),
    decreases rows.len(),
{
    if rows.len() > 0 {
        lemma_latest_in_range(rows.drop_last(), token, role);
    }
}

/// Revoking a token a second time changes nothing.
pub proof fn lemma_revoke_idempotent(rows: Seq<SessionRow>, token: Seq<char>, role: Role)
    ensures
        without_token(without_token(rows, token, role), token, role) == without_token(rows, token, role),
{
    lemma_no_match_left(rows, token, role);
    lemma_nothing_to_remove(without_token(rows, token, role), token, role);
}

/// After `issue` (or a successful `login`) has added a login of `subject`
/// at time `issued`, and no earlier login of the same token in the same
/// namespace is dated later, resolving the token at time `now` gives
/// `subject` while `now - issued <= 3600`, and `SessionExpired` after that.
pub proof fn lemma_issue_then_resolve(
    before: Seq<SessionRow>,
    after: Seq<SessionRow>,
    subject: Seq<char>,
    role: Role,
    issued: int,
    now: int,
)
    requires
        after.len() == before.len() + 1,
        after.drop_last() == before,
        after.last().token@ == token_for(subject),
        after.last().subject_id@ == subject,
        after.last().role == role,
        after.last().issued_at == issued,
        forall|i: int|
            0 <= i < before.len() && row_matches(#[trigger] before[i], token_for(subject), role)
                ==> before[i].issued_at <= issued,
    ensures
        now - issued <= 3600 ==> resolve_spec(after, token_for(subject), role, now) == Ok::<
            Seq<char>,
            CoreError,
        >(subject),
        now - issued > 3600 ==> resolve_spec(after, token_for(subject), role, now) == Err::<
            Seq<char>,
            CoreError,
        >(CoreError::SessionExpired),
{
    lemma_latest_in_range(before, token_for(subject), role);
    assert(latest_match(after, token_for(subject), role) == Some(after.len() - 1));
}

} // verus!
