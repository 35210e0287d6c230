use vstd::prelude::*;
use vstd::slice::slice_to_vec;
use crate::bytes::bytes_equal;

verus! {

/// One cell of the cache: its key, its value, and whether the kernel CPU
/// holds a view of the value.
pub struct CacheEntry {
    key: Vec<u8>,
    data: Vec<i32>,
    borrowed: bool,
}

/// What a cache cell is in contracts: key, value, borrow mark.
pub type CellView = (Seq<u8>, Seq<i32>, bool);

/// The cache that kernels share across runs: a map from byte-string keys to
/// sequences of `i32`. A cell handed out to a kernel stays borrowed, and
/// cannot be overwritten, until every borrow is released at once.
pub struct Cache {
    entries: Vec<CacheEntry>,
}

impl View for Cache {
    type V = Seq<CellView>;

    closed spec fn view(&self) -> Seq<CellView> {
        self.entries@.map_values(|e: CacheEntry| (e.key@, e.data@, e.borrowed))
    }
}

/// Whether `key` names no cell of `cells`.
pub open spec fn absent(cells: Seq<CellView>, key: Seq<u8>) -> bool {
    forall|j: int| 0 <= j < cells.len() ==> (#[trigger] cells[j]).0 != key
}

/// Whether no cell of `cells` is borrowed.
pub open spec fn none_borrowed(cells: Seq<CellView>) -> bool {
    forall|j: int| 0 <= j < cells.len() ==> !(#[trigger] cells[j]).2
}

/// What `get(key)` does: marks the cell under `key` borrowed and returns
/// its index, or returns `None` and changes nothing when there is none.
pub open spec fn gets(before: Seq<CellView>, after: Seq<CellView>, key: Seq<u8>, r: Option<usize>) -> bool {
    match r {
        None => absent(before, key) && after == before,
        Some(i) => {
            &&& i < before.len()
            &&& before[i as int].0 == key
            &&& after == before.update(i as int, (before[i as int].0, before[i as int].1, true))
        },
    }
}

/// What `put(key, data)` does: a new key gets a fresh unborrowed cell; the
/// cell of a known key is overwritten unless it is borrowed, when the call
/// fails and nothing changes.
pub open spec fn puts(
    before: Seq<CellView>,
    after: Seq<CellView>,
    key: Seq<u8>,
    data: Seq<i32>,
    r: Result<(), ()>,
) -> bool {
    &&& absent(before, key) ==> r is Ok && after == before.push((key, data, false))
    &&& forall|i: int| 0 <= i < before.len() && (#[trigger] before[i]).0 == key ==> {
        &&& (r is Err <==> before[i].2)
        &&& r is Err ==> after == before
        &&& r is Ok ==> after == before.update(i, (key, data, false))
    }
}

/// What `unborrow` does: every borrow is released, keys and values stay.
pub open spec fn releases(before: Seq<CellView>, after: Seq<CellView>) -> bool {
    &&& none_borrowed(after)
    &&& after.len() == before.len()
    &&& forall|j: int| 0 <= j < before.len() ==>
        (#[trigger] after[j]).0 == before[j].0 && after[j].1 == before[j].1
}

impl Cache {
    /// Keys are unique.
    pub open spec fn wf(&self) -> bool {
        forall|i: int, j: int|
            0 <= i < j < self@.len() ==> (#[trigger] self@[i]).0 != (#[trigger] self@[j]).0
    }

    /// An empty cache.
    pub fn new() -> (r: Cache)
        ensures
            r.wf(),
            r@.len() == 0,
    {
        let r = Cache { entries: Vec::new() };
        assert(r@ =~= Seq::<CellView>::empty());
        r
    }

    /// The index of the cell under `key`, if there is one.
    fn find(&self, key: &[u8]) -> (r: Option<usize>)
        ensures
            r is None ==> absent(self@, key@),
            r matches Some(i) ==> i < self@.len() && self@[i as int].0 == key@,
    {
        let mut i: usize = 0;
        while i < self.entries.len()
            invariant
                i <= self@.len(),
                self@.len() == self.entries@.len(),
                forall|j: int| 0 <= j < i ==> (#[trigger] self@[j]).0 != key@,
            decreases self@.len() - i,
        {
            if bytes_equal(self.entries[i].key.as_slice(), key) {
                return Some(i);
            }
            i = i + 1;
        }
        None
    }

    /// Looks `key` up for the kernel CPU and marks its cell borrowed. Returns
    /// the cell's index (its value is then read with `value`), or `None`
    /// when no cell holds the key, which stands for an empty value.
    pub fn get(&mut self, key: &[u8]) -> (r: Option<usize>)
        requires
            old(self).wf(),
        ensures
            final(self).wf(),
            gets(old(self)@, final(self)@, key@, r),
    {
        match self.find(key) {
            None => None,
            Some(i) => {
                let ghost before = self@;
                self.entries[i].borrowed = true;
                assert(self@ =~= before.update(i as int, (before[i as int].0, before[i as int].1, true)));
                Some(i)
            },
        }
    }

    /// The value of cell `i`.
    pub fn value(&self, i: usize) -> (r: &[i32])
        requires
            i < self@.len(),
        ensures
            r@ == self@[i as int].1,
    {
        self.entries[i].data.as_slice()
    }

    /// Stores `data` under `key`. Fails, changing nothing, when the cell
    /// under `key` is borrowed; a new key gets a fresh unborrowed cell.
    pub fn put(&mut self, key: &[u8], data: &[i32]) -> (r: Result<(), ()>)
        requires
            old(self).wf(),
        ensures
            final(self).wf(),
            puts(old(self)@, final(self)@, key@, data@, r),
    {
        match self.find(key) {
            Some(i) => {
                if self.entries[i].borrowed {
                    Err(())
                } else {
                    let ghost before = self@;
                    self.entries[i].data = slice_to_vec(data);
                    assert(self@ =~= before.update(i as int, (key@, data@, false)));
                    Ok(())
                }
            },
            None => {
                let ghost before = self@;
                let entry = CacheEntry { key: slice_to_vec(key), data: slice_to_vec(data), borrowed: false };
                self.entries.push(entry);
                assert(self@ =~= before.push((key@, data@, false)));
                Ok(())
            },
        }
    }

    /// Releases every borrow at once; keys and values stay as they are.
    pub fn unborrow(&mut self)
        requires
            old(self).wf(),
        ensures
            final(self).wf(),
            releases(old(self)@, final(self)@),
    {
        let ghost start = self@;
        let mut i: usize = 0;
        while i < self.entries.len()
            invariant
                i <= self@.len(),
                self@.len() == start.len(),
                self@.len() == self.entries@.len(),
                forall|j: int| 0 <= j < self@.len() ==>
                    (#[trigger] self@[j]).0 == start[j].0 && self@[j].1 == start[j].1,
                forall|j: int| 0 <= j < i ==> !(#[trigger] self@[j]).2,
                forall|a: int, b: int|
                    0 <= a < b < start.len() ==> (#[trigger] start[a]).0 != (#[trigger] start[b]).0,
            decreases self@.len() - i,
        {
            let ghost before = self@;
            self.entries[i].borrowed = false;
            assert(self@ =~= before.update(i as int, (before[i as int].0, before[i as int].1, false)));
            i = i + 1;
        }
    }
}

} // verus!
