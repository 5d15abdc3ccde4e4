use vstd::prelude::*;

use crate::data_reader::{lines_of, DataReader};

verus! {

/// A line source over lines held in memory, read front to back.
pub struct InMemoryReader {
    data: Vec<String>,
    idx: usize,
}

impl InMemoryReader {
    #[verifier::type_invariant]
    spec fn cursor_in_bounds(&self) -> bool {
        self.idx <= self.data.len()
    }

    /// A reader that will produce the lines of `data` in their order.
    pub fn new(data: Vec<String>) -> (r: InMemoryReader)
        ensures
            r.pending() == lines_of(data@),
    {
        let r = InMemoryReader { data, idx: 0 };
        assert(r.data@.subrange(0, r.data@.len() as int) =~= r.data@);
        r
    }
}

impl DataReader for InMemoryReader {
    closed spec fn pending(&self) -> Seq<Seq<char>> {
        lines_of(self.data@.subrange(self.idx as int, self.data@.len() as int))
    }

    fn next(&mut self) -> (line: Option<String>) {
        proof {
            use_type_invariant(&*self);
        }
        if self.idx < self.data.len() {
            let next = self.data[self.idx].clone();
            self.idx = self.idx + 1;
            assert(lines_of(self.data@.subrange(self.idx as int, self.data@.len() as int))
                =~= lines_of(
                self.data@.subrange(self.idx - 1, self.data@.len() as int),
            ).drop_first());
            Some(next)
        } else {
            None
        }
    }
}

} // verus!
