use vstd::prelude::*;

verus! {

/// Line feed: kernel log output is flushed when the buffer ends in one.
pub const NEWLINE: u8 = 0x0a;

/// Carriage return: dropped when it stands just before a line feed.
pub const CARRIAGE_RETURN: u8 = 0x0d;

/// The pieces of `s` between line feeds, in order (always at least one).
pub open spec fn pieces(s: Seq<u8>) -> Seq<Seq<u8>>
    decreases s.len(),
{
    if s.len() == 0 {
        seq![Seq::<u8>::empty()]
    } else {
        let p = pieces(s.drop_last());
        if s.last() == NEWLINE {
            p.push(Seq::<u8>::empty())
        } else {
            p.update(p.len() - 1, p.last().push(s.last()))
        }
    }
}

/// A line without the carriage return that ended it, if any.
pub open spec fn strip_cr(line: Seq<u8>) -> Seq<u8> {
    if line.len() > 0 && line.last() == CARRIAGE_RETURN {
        line.drop_last()
    } else {
        line
    }
}

/// The lines of a text that ends in a line feed, each without its line ending.
pub open spec fn lines_of(text: Seq<u8>) -> Seq<Seq<u8>> {
    pieces(text.drop_last()).map_values(|l: Seq<u8>| strip_cr(l))
}

/// The contents of a vector of lines.
pub open spec fn lines_view(lines: Seq<Vec<u8>>) -> Seq<Seq<u8>> {
    lines.map_values(|l: Vec<u8>| l@)
}

proof fn lemma_pieces_nonempty(s: Seq<u8>)
    ensures
        pieces(s).len() >= 1,
    decreases s.len(),
{
    if s.len() > 0 {
        lemma_pieces_nonempty(s.drop_last());
    }
}

fn strip_carriage_return(line: Vec<u8>) -> (r: Vec<u8>)
    ensures
        r@ == strip_cr(line@),
{
    let mut line = line;
    let n = line.len();
    if n > 0 && line[n - 1] == CARRIAGE_RETURN {
        line.pop();
    }
    line
}

/// Splits a text that ends in a line feed into its lines.
fn split_lines(text: &[u8]) -> (r: Vec<Vec<u8>>)
    requires
        text@.len() > 0,
        text@.last() == NEWLINE,
    ensures
        lines_view(r@) == lines_of(text@),
{
    let end = text.len() - 1;
    let mut lines: Vec<Vec<u8>> = Vec::new();
    let mut current: Vec<u8> = Vec::new();
    let mut i: usize = 0;
    proof {
        assert(text@.take(0) =~= Seq::<u8>::empty());
        assert(lines_view(lines@) =~= pieces(text@.take(0)).drop_last().map_values(|l: Seq<u8>| strip_cr(l)));
    }
    while i < end
        invariant
            end == text@.len() - 1,
            i <= end,
            pieces(text@.take(i as int)).len() >= 1,
            lines_view(lines@) == pieces(text@.take(i as int)).drop_last().map_values(|l: Seq<u8>| strip_cr(l)),
            current@ == pieces(text@.take(i as int)).last(),
        decreases end - i,
    {
        let b = text[i];
        proof {
            assert(text@.take(i + 1).drop_last() =~= text@.take(i as int));
            lemma_pieces_nonempty(text@.take(i + 1));
        }
        let ghost p = pieces(text@.take(i as int));
        if b == NEWLINE {
            let stripped = strip_carriage_return(current);
            current = Vec::new();
            let ghost before = lines@;
            lines.push(stripped);
            proof {
                let q = pieces(text@.take(i + 1));
                assert(lines_view(lines@) =~= lines_view(before).push(stripped@));
                assert(p.map_values(|l: Seq<u8>| strip_cr(l)) =~= p.drop_last().map_values(|l: Seq<u8>| strip_cr(l)).push(strip_cr(p.last())));
                assert(q == p.push(Seq::<u8>::empty()));
                assert(q.drop_last() =~= p);
                assert(p =~= p.drop_last().push(p.last()));
                assert(lines_view(lines@) =~= q.drop_last().map_values(|l: Seq<u8>| strip_cr(l)));
                assert(current@ =~= q.last());
            }
        } else {
            current.push(b);
            proof {
                let q = pieces(text@.take(i + 1));
                assert(q == p.update(p.len() - 1, p.last().push(b)));
                assert(q.drop_last() =~= p.drop_last());
            }
        }
        i = i + 1;
    }
    let last = strip_carriage_return(current);
    let ghost before = lines@;
    lines.push(last);
    proof {
        let p = pieces(text@.take(end as int));
        assert(lines_view(lines@) =~= lines_view(before).push(last@));
        assert(p.map_values(|l: Seq<u8>| strip_cr(l)) =~= p.drop_last().map_values(|l: Seq<u8>| strip_cr(l)).push(strip_cr(p.last())));
        assert(text@.take(end as int) =~= text@.drop_last());
        assert(p =~= p.drop_last().push(p.last()));
        assert(lines_view(lines@) =~= lines_of(text@));
    }
    lines
}

/// Text logged by a kernel that has not yet made a whole line.
pub struct LogBuffer {
    text: Vec<u8>,
}

impl View for LogBuffer {
    type V = Seq<u8>;

    closed spec fn view(&self) -> Seq<u8> {
        self.text@
    }
}

/// Whether a buffer holding `text` is flushed: it ends in a line feed.
pub open spec fn flushes(text: Seq<u8>) -> bool {
    text.len() > 0 && text.last() == NEWLINE
}

impl LogBuffer {
    /// An empty buffer.
    pub fn new() -> (r: LogBuffer)
        ensures
            r@.len() == 0,
    {
        LogBuffer { text: Vec::new() }
    }

    /// Appends `text`. When the buffer then ends in a line feed, its lines
    /// are returned and it is emptied; otherwise nothing is returned.
    pub fn append(&mut self, text: &[u8]) -> (r: Vec<Vec<u8>>)
        ensures
            flushes(old(self)@ + text@) ==> final(self)@.len() == 0
                && lines_view(r@) == lines_of(old(self)@ + text@),
            !flushes(old(self)@ + text@) ==> final(self)@ == old(self)@ + text@ && r@.len() == 0,
    {
        let mut i: usize = 0;
        let ghost start = self.text@;
        while i < text.len()
            invariant
                i <= text@.len(),
                self.text@ == start + text@.take(i as int),
            decreases text@.len() - i,
        {
            self.text.push(text[i]);
            proof {
                assert(start + text@.take(i + 1) =~= (start + text@.take(i as int)).push(text@[i as int]));
            }
            i = i + 1;
        }
        assert(text@.take(text@.len() as int) =~= text@);
        self.flush()
    }

    /// The whole lines of the buffer, which is emptied, when it ends in a
    /// line feed; nothing otherwise.
    pub fn flush(&mut self) -> (r: Vec<Vec<u8>>)
        ensures
            flushes(old(self)@) ==> final(self)@.len() == 0 && lines_view(r@) == lines_of(old(self)@),
            !flushes(old(self)@) ==> final(self)@ == old(self)@ && r@.len() == 0,
    {
        let n = self.text.len();
        if n > 0 && self.text[n - 1] == NEWLINE {
            let lines = split_lines(self.text.as_slice());
            self.text.clear();
            lines
        } else {
            Vec::new()
        }
    }
}

} // verus!
