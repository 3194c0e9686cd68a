//! The columnar export bridge: re-assembles the column sets of a
//! sequence of batches that share one logical schema into a single
//! pull-based stream.
//!
//! The stream owns every batch's buffers until the batch is pulled; the
//! consumer owns a pulled batch and releases it by dropping it. Releasing
//! the stream itself drops all batches not yet pulled. An empty input
//! sequence is "no data" — no stream is produced at all — which is
//! distinct from a stream of batches whose total row count is zero. Any
//! use of the stream after its release is a caller bug, reported as
//! `Error::ExportBridgeState`.

use vstd::prelude::*;

use crate::Error;
use crate::batch::ColumnarBatch;
use crate::value::clone_string;

verus! {

/// A pull-based stream over the batches of one logical schema.
pub struct ExportStream {
    remaining: Vec<ColumnarBatch>,
    schema: Vec<String>,
    released: bool,
}

impl ExportStream {
    /// The batches not yet pulled, in order.
    pub closed spec fn spec_remaining(&self) -> Seq<ColumnarBatch> {
        self.remaining@
    }

    /// The column names of the shared schema, in order.
    pub closed spec fn spec_schema(&self) -> Seq<Seq<char>> {
        Seq::new(self.schema@.len(), |i: int| self.schema@[i]@)
    }

    /// Whether the stream has been released.
    pub closed spec fn spec_released(&self) -> bool {
        self.released
    }

    /// Builds a stream over the given batches. An empty sequence yields
    /// no stream at all ("no data"), which is distinct from a stream
    /// whose batches hold zero rows in total. The schema is taken from
    /// the first batch's column names.
    pub fn new(batches: Vec<ColumnarBatch>) -> (r: Option<ExportStream>)
        ensures
            (batches@.len() == 0) <==> r is None,
            r matches Some(s) ==> {
                &&& s.spec_remaining() == batches@
                &&& !s.spec_released()
                &&& s.spec_schema().len() == batches@[0].columns@.len()
                &&& forall|i: int|
                    0 <= i < batches@[0].columns@.len() ==> s.spec_schema()[i]
                        == (#[trigger] batches@[0].columns@[i]).name@
            },
    {
        if batches.len() == 0 {
            return None;
        }
        let first = &batches[0];
        let mut schema: Vec<String> = Vec::new();
        let mut i: usize = 0;
        while i < first.columns.len()
            invariant
                i <= first.columns@.len(),
                first == &batches@[0],
                schema@.len() == i,
                forall|j: int|
                    0 <= j < i ==> (#[trigger] schema@[j])@ == batches@[0].columns@[j].name@,
            decreases first.columns@.len() - i,
        {
            schema.push(clone_string(&first.columns[i].name));
            i = i + 1;
        }
        Some(ExportStream { remaining: batches, schema, released: false })
    }

    /// The shared schema's column names. Fails with
    /// `Error::ExportBridgeState` after the stream has been released.
    pub fn get_schema(&self) -> (r: Result<&Vec<String>, Error>)
        ensures
            self.spec_released() ==> r == Err::<&Vec<String>, Error>(Error::ExportBridgeState),
            !self.spec_released() ==> (r matches Ok(v) && Seq::new(
                v@.len(),
                |i: int| v@[i]@,
            ) == self.spec_schema()),
    {
        if self.released {
            Err(Error::ExportBridgeState)
        } else {
            Ok(&self.schema)
        }
    }

    /// Pulls the next batch, handing its buffers to the consumer; the
    /// stream no longer holds them. Yields nothing once every batch has
    /// been pulled. Fails with `Error::ExportBridgeState` after the
    /// stream has been released.
    pub fn get_next(&mut self) -> (r: Result<Option<ColumnarBatch>, Error>)
        ensures
            old(self).spec_released() ==> {
                &&& r == Err::<Option<ColumnarBatch>, Error>(Error::ExportBridgeState)
                &&& final(self).spec_remaining() == old(self).spec_remaining()
                &&& final(self).spec_released()
            },
            !old(self).spec_released() ==> {
                &&& final(self).spec_released() == old(self).spec_released()
                &&& final(self).spec_schema() == old(self).spec_schema()
                &&& if old(self).spec_remaining().len() > 0 {
                    r == Ok::<Option<ColumnarBatch>, Error>(
                        Some(old(self).spec_remaining()[0]),
                    ) && final(self).spec_remaining() == old(self).spec_remaining().skip(1)
                } else {
                    r == Ok::<Option<ColumnarBatch>, Error>(None) && final(self).spec_remaining()
                        == old(self).spec_remaining()
                }
            },
    {
        if self.released {
            return Err(Error::ExportBridgeState);
        }
        if self.remaining.len() == 0 {
            proof {
                assert(self.remaining@.skip(0) =~= self.remaining@);
            }
            return Ok(None);
        }
        let batch = self.remaining.remove(0);
        Ok(Some(batch))
    }

    /// Releases the stream: every batch not yet pulled is dropped here,
    /// so no buffer outlives the stream. Any later use fails.
    pub fn release(&mut self)
        ensures
            final(self).spec_released(),
            final(self).spec_remaining().len() == 0,
    {
        self.remaining.clear();
        self.released = true;
    }

    /// The number of batches not yet pulled.
    pub fn remaining_len(&self) -> (r: usize)
        ensures
            r == self.spec_remaining().len(),
    {
        self.remaining.len()
    }
}

} // verus!
