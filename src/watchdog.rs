use vstd::prelude::*;

verus! {

/// How many watchdogs a running kernel may hold at once.
pub const MAX_WATCHDOGS: usize = 16;

/// A bounded set of watchdogs: slot `i` holds the absolute deadline, in
/// milliseconds, of watchdog `i`, or nothing when that id is free.
pub struct WatchdogSet {
    slots: Vec<Option<u64>>,
}

/// The deadline that a watchdog armed at `now` for `interval` ms ends at
/// (it saturates at the largest timestamp).
pub open spec fn deadline_of(now: u64, interval: u64) -> u64 {
    if now as int + interval as int > u64::MAX as int {
        u64::MAX
    } else {
        (now + interval) as u64
    }
}

/// Whether some deadline among `slots` has passed at time `now`.
pub open spec fn any_expired(slots: Seq<Option<u64>>, now: u64) -> bool {
    exists|i: int| 0 <= i < slots.len() && #[trigger] slots[i] is Some && now > slots[i]->Some_0
}

/// Whether every watchdog id of `slots` is taken.
pub open spec fn all_taken(slots: Seq<Option<u64>>) -> bool {
    forall|j: int| 0 <= j < slots.len() ==> slots[j] is Some
}

/// Whether `after` is `before` with the lowest free id, `id`, armed with `deadline`.
pub open spec fn arms(before: Seq<Option<u64>>, after: Seq<Option<u64>>, id: usize, deadline: u64) -> bool {
    &&& id < before.len()
    &&& before[id as int] is None
    &&& forall|j: int| 0 <= j < id ==> before[j] is Some
    &&& after == before.update(id as int, Some(deadline))
}

/// Whether `after` is `before` with watchdog `id` disarmed (ids out of range are ignored).
pub open spec fn clears(before: Seq<Option<u64>>, after: Seq<Option<u64>>, id: usize) -> bool {
    &&& id < before.len() ==> after == before.update(id as int, None)
    &&& id >= before.len() ==> after == before
}

impl View for WatchdogSet {
    type V = Seq<Option<u64>>;

    closed spec fn view(&self) -> Seq<Option<u64>> {
        self.slots@
    }
}

impl WatchdogSet {
    pub open spec fn wf(&self) -> bool {
        self@.len() == MAX_WATCHDOGS
    }

    /// An empty set: every id is free.
    pub fn new() -> (r: WatchdogSet)
        ensures
            r.wf(),
            forall|i: int| 0 <= i < r@.len() ==> r@[i] is None,
    {
        let mut slots: Vec<Option<u64>> = Vec::new();
        let mut i: usize = 0;
        while i < MAX_WATCHDOGS
            invariant
                i <= MAX_WATCHDOGS,
                slots@.len() == i,
                forall|j: int| 0 <= j < i ==> slots@[j] is None,
            decreases MAX_WATCHDOGS - i,
        {
            slots.push(None);
            i = i + 1;
        }
        WatchdogSet { slots }
    }

    /// Arms the lowest free watchdog id with a deadline `interval` ms after
    /// `now`, and returns that id; fails when every id is taken.
    pub fn set_ms(&mut self, now: u64, interval: u64) -> (r: Result<usize, ()>)
        requires
            old(self).wf(),
        ensures
            final(self).wf(),
            all_taken(old(self)@) <==> r is Err,
            r is Err ==> final(self)@ == old(self)@,
            r matches Ok(id) ==> arms(old(self)@, final(self)@, id, deadline_of(now, interval)),
    {
        let deadline = now.saturating_add(interval);
        let mut i: usize = 0;
        while i < self.slots.len()
            invariant
                self.wf(),
                self@ == old(self)@,
                deadline == deadline_of(now, interval),
                i <= self@.len(),
                forall|j: int| 0 <= j < i ==> self@[j] is Some,
            decreases self@.len() - i,
        {
            if self.slots[i].is_none() {
                self.slots.set(i, Some(deadline));
                return Ok(i);
            }
            i = i + 1;
        }
        Err(())
    }

    /// Disarms watchdog `id`; an id out of range is ignored.
    pub fn clear(&mut self, id: usize)
        requires
            old(self).wf(),
        ensures
            final(self).wf(),
            clears(old(self)@, final(self)@, id),
    {
        if id < self.slots.len() {
            self.slots.set(id, None);
        }
    }

    /// Whether any armed deadline has passed at time `now`.
    pub fn expired(&self, now: u64) -> (r: bool)
        ensures
            r == any_expired(self@, now),
    {
        let mut i: usize = 0;
        while i < self.slots.len()
            invariant
                i <= self@.len(),
                forall|j: int| 0 <= j < i ==> !(#[trigger] self@[j] is Some && now > self@[j]->Some_0),
            decreases self@.len() - i,
        {
            match self.slots[i] {
                Some(deadline) => {
                    if now > deadline {
                        return true;
                    }
                },
                None => {},
            }
            i = i + 1;
        }
        false
    }
}

} // verus!
