use crate::session::view_opt_text;
use crate::store::{has_slot, slot_at, AppointStatus, Appointment, Clinic, TimeSlot};
use vstd::prelude::*;

verus! {

/// A search hit: the sort key (a start time), the appointment's position
/// (0 for slot searches) and the slot's position.
pub type Hit = (i64, usize, usize);

/// Whether hit `a` goes before hit `b`: ascending or descending by key.
pub open spec fn goes_before(a: Hit, b: Hit, desc: bool) -> bool {
    if desc {
        a.0 > b.0
    } else {
        a.0 < b.0
    }
}

/// Inserts `x` into `s` before the first element that it goes before, so
/// that among equal keys the earlier stays first.
pub open spec fn insert_hit(s: Seq<Hit>, x: Hit, desc: bool) -> Seq<Hit>
    decreases s.len(),
{
    if s.len() == 0 {
        seq![x]
    } else if goes_before(x, s[0], desc) {
        seq![x] + s
    } else {
        seq![s[0]] + insert_hit(s.drop_first(), x, desc)
    }
}

/// The hits of `s` ordered by key (stable insertion sort).
pub open spec fn sort_hits(s: Seq<Hit>, desc: bool) -> Seq<Hit>
    decreases s.len(),
{
    if s.len() == 0 {
        s
    } else {
        insert_hit(sort_hits(s.drop_last(), desc), s.last(), desc)
    }
}

/// Clamps an offset or a page size to at least zero.
pub open spec fn clamp0(n: i64) -> int {
    if n < 0 {
        0
    } else {
        n as int
    }
}

/// The page of `s` that starts at `first_index` and holds at most `limit`
/// elements (negative values count as zero).
pub open spec fn page<T>(s: Seq<T>, first_index: i64, limit: i64) -> Seq<T> {
    let lo = if clamp0(first_index) < s.len() {
        clamp0(first_index)
    } else {
        s.len() as int
    };
    let hi = if lo + clamp0(limit) < s.len() {
        lo + clamp0(limit)
    } else {
        s.len() as int
    };
    s.subrange(lo, hi)
}

/// Whether slot `s` belongs to doctor `did` and lies within `[from, to]`.
pub open spec fn slot_selected(s: TimeSlot, did: Option<Seq<char>>, from: i64, to: i64) -> bool {
    &&& match did {
        Some(d) => s.did@ == d,
        None => true,
    }
    &&& from <= s.start_time
    &&& s.end_time <= to
}

/// Hits for the slots selected, in storage order.
pub open spec fn slot_hits(slots: Seq<TimeSlot>, did: Option<Seq<char>>, from: i64, to: i64) -> Seq<Hit>
    decreases slots.len(),
{
    if slots.len() == 0 {
        Seq::empty()
    } else {
        let rest = slot_hits(slots.drop_last(), did, from, to);
        if slot_selected(slots.last(), did, from, to) {
            rest.push((slots.last().start_time, 0usize, (slots.len() - 1) as usize))
        } else {
            rest
        }
    }
}

/// Who an appointment search is about.
#[derive(Debug, Clone, Copy, PartialEq, Eq, Structural)]
pub enum Party {
    Patient,
    Doctor,
}

/// Whether appointment `a`, on slot `s`, is selected: it is of `who`
/// (as patient or as the slot's doctor), has the status asked for (any,
/// where `status` is `None`), and its slot lies within `[from, to]`.
pub open spec fn appoint_selected(
    a: Appointment,
    s: TimeSlot,
    party: Party,
    who: Seq<char>,
    status: Option<AppointStatus>,
    from: i64,
    to: i64,
) -> bool {
    &&& match party {
        Party::Patient => a.username@ == who,
        Party::Doctor => s.did@ == who,
    }
    &&& match status {
        Some(st) => a.status == st,
        None => true,
    }
    &&& from <= s.start_time
    &&& s.end_time <= to
}

/// Hits for the appointments selected, in storage order; an appointment
/// whose slot is gone is never selected.
pub open spec fn appoint_hits(
    appts: Seq<Appointment>,
    slots: Seq<TimeSlot>,
    party: Party,
    who: Seq<char>,
    status: Option<AppointStatus>,
    from: i64,
    to: i64,
) -> Seq<Hit>
    decreases appts.len(),
{
    if appts.len() == 0 {
        Seq::empty()
    } else {
        let rest = appoint_hits(appts.drop_last(), slots, party, who, status, from, to);
        let a = appts.last();
        if has_slot(slots, a.tid) && appoint_selected(
            a,
            slots[slot_at(slots, a.tid)],
            party,
            who,
            status,
            from,
            to,
        ) {
            rest.push(
                (slots[slot_at(slots, a.tid)].start_time, (appts.len() - 1) as usize, slot_at(slots, a.tid) as usize),
            )
        } else {
            rest
        }
    }
}

proof fn lemma_insert_at(s: Seq<Hit>, x: Hit, desc: bool, p: int)
    requires
        0 <= p <= s.len(),
        forall|j: int| 0 <= j < p ==> !goes_before(x, #[trigger] s[j], desc),
        p < s.len() ==> goes_before(x, s[p], desc),
    ensures
        insert_hit(s, x, desc) == s.insert(p, x),
    decreases p,
{
    if p == 0 {
        if s.len() > 0 {
            assert(seq![x] + s =~= s.insert(0, x));
        } else {
            assert(seq![x] =~= s.insert(0, x));
        }
    } else {
        let t = s.drop_first();
        assert forall|j: int| 0 <= j < p - 1 implies !goes_before(x, #[trigger] t[j], desc) by {
            assert(t[j] == s[j + 1]);
        }
        lemma_insert_at(t, x, desc, p - 1);
        assert(seq![s[0]] + t.insert(p - 1, x) =~= s.insert(p, x));
    }
}

fn hit_goes_before(a: Hit, b: Hit, desc: bool) -> (r: bool)
    ensures
        r == goes_before(a, b, desc),
{
    if desc {
        a.0 > b.0
    } else {
        a.0 < b.0
    }
}

/// Inserts `x` into `v` where `insert_hit` puts it.
fn insert_sorted(v: &mut Vec<Hit>, x: Hit, desc: bool)
    ensures
        final(v)@ == insert_hit(old(v)@, x, desc),
{
    let mut p: usize = 0;
    while p < v.len() && !hit_goes_before(x, v[p], desc)
        invariant
            p <= v@.len(),
            forall|j: int| 0 <= j < p ==> !goes_before(x, #[trigger] v@[j], desc),
        decreases v@.len() - p,
    {
        p = p + 1;
    }
    proof {
        lemma_insert_at(v@, x, desc, p as int);
    }
    v.insert(p, x);
}

/// Orders `hits` as `sort_hits` does.
fn sort_hits_exec(hits: &Vec<Hit>, desc: bool) -> (r: Vec<Hit>)
    ensures
        r@ == sort_hits(hits@, desc),
{
    let mut r: Vec<Hit> = Vec::new();
    let mut i: usize = 0;
    while i < hits.len()
        invariant
            i <= hits@.len(),
            r@ == sort_hits(hits@.subrange(0, i as int), desc),
        decreases hits@.len() - i,
    {
        proof {
            assert(hits@.subrange(0, i + 1).drop_last() =~= hits@.subrange(0, i as int));
        }
        insert_sorted(&mut r, hits[i], desc);
        i = i + 1;
    }
    proof {
        assert(hits@.subrange(0, hits@.len() as int) =~= hits@);
    }
    r
}

/// The page of `hits` that `first_index` and `limit` select.
fn page_hits(hits: &Vec<Hit>, first_index: i64, limit: i64) -> (r: Vec<Hit>)
    ensures
        r@ == page(hits@, first_index, limit),
{
    let len = hits.len();
    let lo: usize = if first_index < 0 {
        0
    } else if (first_index as u64) < (len as u64) {
        first_index as usize
    } else {
        len
    };
    let room: usize = len - lo;
    let hi: usize = if limit < 0 {
        lo
    } else if (limit as u64) < (room as u64) {
        lo + limit as usize
    } else {
        len
    };
    let mut r: Vec<Hit> = Vec::new();
    let mut i: usize = lo;
    while i < hi
        invariant
            lo <= i <= hi <= hits@.len(),
            r@ == hits@.subrange(lo as int, i as int),
        decreases hi - i,
    {
        r.push(hits[i]);
        proof {
            assert(r@ =~= hits@.subrange(lo as int, i + 1));
        }
        i = i + 1;
    }
    proof {
        assert(r@ =~= page(hits@, first_index, limit));
    }
    r
}

impl Clinic {
    /// The slots of doctor `did` (of every doctor, where `None`) lying
    /// within `[from, to]`, ordered by start time, earliest first, and
    /// paginated. Each hit gives the slot's position in `slots`.
    pub fn search_slots(
        &self,
        did: Option<&str>,
        from: i64,
        to: i64,
        first_index: i64,
        limit: i64,
    ) -> (r: Vec<Hit>)
        ensures
            r@ == page(sort_hits(slot_hits(self.slots@, view_opt_text(did), from, to), false), first_index, limit),
    {
        let wanted = match did {
            Some(d) => Some(d.to_owned()),
            None => None,
        };
        let mut hits: Vec<Hit> = Vec::new();
        let mut i: usize = 0;
        while i < self.slots.len()
            invariant
                i <= self.slots@.len(),
                match wanted {
                    Some(w) => did matches Some(d) && w@ == d@,
                    None => did is None,
                },
                hits@ == slot_hits(self.slots@.subrange(0, i as int), view_opt_text(did), from, to),
            decreases self.slots@.len() - i,
        {
            let ghost prefix = self.slots@.subrange(0, i + 1);
            proof {
                assert(prefix.drop_last() =~= self.slots@.subrange(0, i as int));
            }
            let s = &self.slots[i];
            let by_doctor = match &wanted {
                Some(w) => s.did == *w,
                None => true,
            };
            if by_doctor && from <= s.start_time && s.end_time <= to {
                hits.push((s.start_time, 0, i));
            }
            i = i + 1;
        }
        proof {
            assert(self.slots@.subrange(0, self.slots@.len() as int) =~= self.slots@);
        }
        let sorted = sort_hits_exec(&hits, false);
        page_hits(&sorted, first_index, limit)
    }

    /// The appointments of `who` (a patient, or the doctor of their slot)
    /// with status `status` (any, where `None`) whose slot lies within
    /// `[from, to]`, ordered by the slot's start time, latest first, and
    /// paginated. Each hit gives the appointment's and the slot's position.
    pub fn search_appointments(
        &self,
        party: Party,
        who: &str,
        status: Option<AppointStatus>,
        from: i64,
        to: i64,
        first_index: i64,
        limit: i64,
    ) -> (r: Vec<Hit>)
        requires
            self.wf(),
        ensures
            r@ == page(
                sort_hits(
                    appoint_hits(self.appointments@, self.slots@, party, who@, status, from, to),
                    true,
                ),
                first_index,
                limit,
            ),
    {
        let wanted = who.to_owned();
        let mut hits: Vec<Hit> = Vec::new();
        let mut k: usize = 0;
        while k < self.appointments.len()
            invariant
                self.wf(),
                k <= self.appointments@.len(),
                wanted@ == who@,
                hits@ == appoint_hits(
                    self.appointments@.subrange(0, k as int),
                    self.slots@,
                    party,
                    who@,
                    status,
                    from,
                    to,
                ),
            decreases self.appointments@.len() - k,
        {
            let ghost prefix = self.appointments@.subrange(0, k + 1);
            proof {
                assert(prefix.drop_last() =~= self.appointments@.subrange(0, k as int));
            }
            let a = &self.appointments[k];
            match self.find_slot(a.tid) {
                None => {},
                Some(i) => {
                    let s = &self.slots[i];
                    let of_party = match party {
                        Party::Patient => a.username == wanted,
                        Party::Doctor => s.did == wanted,
                    };
                    let of_status = match status {
                        Some(st) => a.status == st,
                        None => true,
                    };
                    if of_party && of_status && from <= s.start_time && s.end_time <= to {
                        hits.push((s.start_time, k, i));
                    }
                },
            }
            k = k + 1;
        }
        proof {
            assert(self.appointments@.subrange(0, self.appointments@.len() as int)
                =~= self.appointments@);
        }
        let sorted = sort_hits_exec(&hits, true);
        page_hits(&sorted, first_index, limit)
    }
}

} // verus!
