//! The port that a write region hands its rows to, and a record of what
//! was handed over that only a call of the port itself can extend.
use vstd::prelude::*;

use crate::error::Error;

verus! {

/// Where the region's writes go: a device, or anything that stands for one.
pub trait FrameSink {
    /// Writes `data` at byte `offset`.
    fn write_at(&mut self, offset: u64, data: &[u8]) -> Result<(), Error>;
}

/// A sink together with the record of every write handed to it, oldest
/// first, as offset and bytes, and of what the sink returned for each. The
/// record is private to this module: only `write_at`, which makes the call,
/// extends it.
pub struct SinkTrace<S> {
    sink: S,
    handed: Ghost<Seq<(u64, Seq<u8>)>>,
    results: Ghost<Seq<Result<(), Error>>>,
}

/// `n` successes.
pub open spec fn all_ok(n: int) -> Seq<Result<(), Error>> {
    Seq::new(n as nat, |i: int| Ok(()))
}

impl<S: FrameSink> SinkTrace<S> {
    /// The writes handed to the sink so far, as offset and bytes.
    pub closed spec fn handed(&self) -> Seq<(u64, Seq<u8>)> {
        self.handed@
    }

    /// What the sink returned for each of them.
    pub closed spec fn results(&self) -> Seq<Result<(), Error>> {
        self.results@
    }

    /// Starts an empty record around `sink`.
    pub fn new(sink: S) -> (r: SinkTrace<S>)
        ensures
            r.handed() == Seq::<(u64, Seq<u8>)>::empty(),
            r.results() == Seq::<Result<(), Error>>::empty(),
    {
        SinkTrace { sink, handed: Ghost(Seq::empty()), results: Ghost(Seq::empty()) }
    }

    /// The sink.
    pub fn sink(&self) -> &S {
        &self.sink
    }

    /// Hands `data` at `offset` to the sink, records the call and its
    /// result, and returns that result.
    pub fn write_at(&mut self, offset: u64, data: &[u8]) -> (r: Result<(), Error>)
        ensures
            final(self).handed() == old(self).handed().push((offset, data@)),
            final(self).results() == old(self).results().push(r),
    {
        let r = self.sink.write_at(offset, data);
        self.handed = Ghost(self.handed@.push((offset, data@)));
        self.results = Ghost(self.results@.push(r));
        r
    }
}

} // verus!
