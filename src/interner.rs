use vstd::prelude::*;
use vstd::slice::slice_to_vec;
use crate::bytes::bytes_equal;

verus! {

/// NUL-terminated copies of strings handed to the kernel CPU. Entries are
/// only ever added, so each one stays in place for the interner's lifetime.
pub struct Interner {
    entries: Vec<Vec<u8>>,
}

impl View for Interner {
    type V = Seq<Seq<u8>>;

    closed spec fn view(&self) -> Seq<Seq<u8>> {
        self.entries@.map_values(|e: Vec<u8>| e@)
    }
}

/// `s` with a NUL byte after it.
pub open spec fn c_string(s: Seq<u8>) -> Seq<u8> {
    s.push(0u8)
}

impl Interner {
    /// An empty interner.
    pub fn new() -> (r: Interner)
        ensures
            r@.len() == 0,
    {
        let r = Interner { entries: Vec::new() };
        assert(r@ =~= Seq::<Seq<u8>>::empty());
        r
    }

    /// Returns the index of an entry holding `s` NUL-terminated, adding one
    /// at the end when there is none. Earlier entries are kept as they are.
    pub fn into_c_str(&mut self, s: &[u8]) -> (r: usize)
        ensures
            r < final(self)@.len(),
            final(self)@[r as int] == c_string(s@),
            final(self)@.len() <= old(self)@.len() + 1,
            final(self)@.subrange(0, old(self)@.len() as int) == old(self)@,
            r >= old(self)@.len() ==> forall|j: int| 0 <= j < old(self)@.len() ==> old(self)@[j] != c_string(s@),
    {
        let mut wanted = slice_to_vec(s);
        wanted.push(0u8);
        assert(wanted@ =~= c_string(s@));
        let mut i: usize = 0;
        while i < self.entries.len()
            invariant
                i <= self@.len(),
                self@.len() == self.entries@.len(),
                self@ == old(self)@,
                wanted@ == c_string(s@),
                forall|j: int| 0 <= j < i ==> self@[j] != c_string(s@),
            decreases self@.len() - i,
        {
            if bytes_equal(self.entries[i].as_slice(), wanted.as_slice()) {
                assert(self@.subrange(0, old(self)@.len() as int) =~= old(self)@);
                return i;
            }
            i = i + 1;
        }
        let ghost before = self@;
        self.entries.push(wanted);
        assert(self@ =~= before.push(c_string(s@)));
        assert(self@.subrange(0, old(self)@.len() as int) =~= old(self)@);
        i
    }

    /// The NUL-terminated bytes of entry `i`.
    pub fn entry(&self, i: usize) -> (r: &[u8])
        requires
            i < self@.len(),
        ensures
            r@ == self@[i as int],
    {
        self.entries[i].as_slice()
    }
}

} // verus!
