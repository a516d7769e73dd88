//! The process-wide text cell that the message routes read and overwrite.
//!
//! The cell itself is a plain owned value; the server holds one instance
//! behind a lock, so that every write replaces the whole value at once.

use vstd::prelude::*;

verus! {

/// A single named mutable string, empty when created.
pub struct SharedText {
    value: String,
}

impl View for SharedText {
    type V = Seq<char>;

    closed spec fn view(&self) -> Seq<char> {
        self.value@
    }
}

/// The value of a cell that starts at `start` and then takes the writes
/// `ws`, in order.
pub open spec fn after_writes(start: Seq<char>, ws: Seq<Seq<char>>) -> Seq<char>
    decreases ws.len(),
{
    if ws.len() == 0 {
        start
    } else {
        after_writes(ws[0], ws.drop_first())
    }
}

impl SharedText {
    /// A cell holding the empty string.
    pub fn new() -> (r: SharedText)
        ensures
            r@ == Seq::<char>::empty(),
    {
        SharedText { value: String::new() }
    }

    /// The current value.
    pub fn read(&self) -> (r: String)
        ensures
            r@ == self@,
    {
        self.value.clone()
    }

    /// Replaces the value with `v`, whatever it was.
    pub fn write(&mut self, v: String)
        ensures
            final(self)@ == v@,
    {
        self.value = v;
    }
}

/// The greeting that the root route answers with.
pub fn hello() -> (r: &'static str)
    ensures
        r@ == "Hello, world!"@,
{
    "Hello, world!"
}

/// Stores the posted message in the cell.
pub fn set_message(message: String, state: &mut SharedText)
    ensures
        final(state)@ == message@,
{
    state.write(message);
}

/// The message currently stored in the cell.
pub fn get_message(state: &SharedText) -> (r: String)
    ensures
        r@ == state@,
{
    state.read()
}

/// After a non-empty run of writes, the cell holds the last value written,
/// which is one of the values written and never a mix of them.
pub proof fn lemma_last_write_wins(start: Seq<char>, ws: Seq<Seq<char>>)
    requires
        ws.len() > 0,
    ensures
        after_writes(start, ws) == ws.last(),
        ws.contains(after_writes(start, ws)),
    decreases ws.len(),
{
    let rest = ws.drop_first();
    if rest.len() > 0 {
        lemma_last_write_wins(ws[0], rest);
        assert(rest.last() == ws.last());
    } else {
        assert(after_writes(ws[0], rest) == ws[0]);
    }
    assert(ws[ws.len() - 1] == ws.last());
}

/// With no writes at all, a fresh cell still reads as the empty string.
pub proof fn lemma_fresh_cell_reads_empty(ws: Seq<Seq<char>>)
    requires
        ws.len() == 0,
    ensures
        after_writes(Seq::<char>::empty(), ws) == Seq::<char>::empty(),
{
}

/// Writing the same value twice leaves the cell as one write of it does.
pub proof fn lemma_write_twice(start: Seq<char>, x: Seq<char>)
    ensures
        after_writes(start, seq![x, x]) == x,
        after_writes(start, seq![x, x]) == after_writes(start, seq![x]),
{
    lemma_last_write_wins(start, seq![x, x]);
    lemma_last_write_wins(start, seq![x]);
}

/// Performs the writes `ws` in order on the cell.
pub fn write_all(cell: &mut SharedText, ws: &Vec<String>)
    ensures
        final(cell)@ == after_writes(old(cell)@, ws@.map_values(|w: String| w@)),
{
    let ghost start = cell@;
    let ghost vs = ws@.map_values(|w: String| w@);
    let mut i: usize = 0;
    assert(vs.subrange(0, vs.len() as int) =~= vs);
    while i < ws.len()
        invariant
            i <= ws.len(),
            vs == ws@.map_values(|w: String| w@),
            after_writes(start, vs) == after_writes(cell@, vs.subrange(i as int, vs.len() as int)),
        decreases ws.len() - i,
    {
        let w = ws[i].clone();
        proof {
            let rest = vs.subrange(i as int, vs.len() as int);
            assert(rest.drop_first() =~= vs.subrange(i + 1, vs.len() as int));
        }
        cell.write(w);
        i = i + 1;
    }
    proof {
        assert(vs.subrange(ws.len() as int, vs.len() as int) =~= Seq::<Seq<char>>::empty());
    }
}

} // verus!
