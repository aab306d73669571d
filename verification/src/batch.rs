//! The batch assembler: groups decoded records into bounded, numbered
//! batches. Records enter one at a time in source order; a batch comes out
//! whenever the configured size is reached, and a final short batch holds
//! whatever is left at end-of-data.

use vstd::prelude::*;

use crate::value::{value_model, value_model_seq, DataValue, ValueModel};

verus! {

/// An ordered group of records written together as one server-side
/// operation, with its identifier, assigned at creation and increasing
/// monotonically over the run.
pub struct Batch {
    pub id: u64,
    pub records: Vec<DataValue>,
}

impl Batch {
    /// The records of this batch as mathematical values.
    pub open spec fn model(&self) -> Seq<ValueModel> {
        value_model_seq(self.records@)
    }
}

/// The number of batches that a dataset of `n` records yields at batch
/// size `b`: `n / b` rounded up.
pub open spec fn spec_batch_count(n: int, b: int) -> int {
    (n + b - 1) / b
}

/// The size of the final batch: `n % b`, or `b` itself when `b` divides
/// `n` evenly (and no final batch at all when `n` is zero).
pub open spec fn spec_last_batch_len(n: int, b: int) -> int {
    if n % b == 0 {
        b
    } else {
        n % b
    }
}

/// Group a whole dataset into numbered batches: exactly `⌈n/b⌉` of them
/// for `n` records at batch size `b`; every batch is full except that the
/// final one holds `n % b` records when `b` does not divide `n`; the
/// records keep their order; an empty dataset yields no batch at all.
#[verifier::loop_isolation(false)]
pub fn assemble_batches(records: Vec<DataValue>, batch_size: u32) -> (r: Vec<Batch>)
    requires
        batch_size >= 1,
    ensures
        r@.len() == spec_batch_count(records@.len() as int, batch_size as int),
        records@.len() == 0 ==> r@.len() == 0,
        forall|i: int| 0 <= i < r@.len() ==> (#[trigger] r@[i]).id == i,
        forall|i: int| 0 <= i < r@.len() - 1 ==> (#[trigger] r@[i]).records@.len() == batch_size,
        r@.len() > 0 ==> r@[r@.len() - 1].records@.len() == spec_last_batch_len(
            records@.len() as int,
            batch_size as int,
        ),
        forall|i: int|
            0 <= i < r@.len() ==> (#[trigger] r@[i]).records@ =~= records@.subrange(
                i * (batch_size as int),
                i * (batch_size as int) + r@[i].records@.len(),
            ),
{
    let ghost all = records@;
    let ghost n = records@.len() as int;
    let ghost b = batch_size as int;
    let mut rest = records;
    let mut out: Vec<Batch> = Vec::new();
    proof {
        if n == 0 {
            vstd::arithmetic::div_mod::lemma_fundamental_div_mod_converse(b - 1, b, 0, b - 1);
        }
        assert(all.subrange(0 * b, n) =~= all);
    }
    while rest.len() > 0
        invariant
            forall|i: int| 0 <= i < out@.len() ==> (#[trigger] out@[i]).id == i,
            forall|i: int|
                0 <= i < out@.len() ==> (#[trigger] out@[i]).records@ =~= all.subrange(
                    i * b,
                    i * b + out@[i].records@.len(),
                ),
            rest@.len() > 0 ==> {
                &&& out@.len() * b + rest@.len() == n
                &&& rest@ =~= all.subrange(out@.len() * b, n)
                &&& forall|i: int|
                    0 <= i < out@.len() ==> (#[trigger] out@[i]).records@.len() == b
            },
            rest@.len() == 0 ==> {
                &&& out@.len() == spec_batch_count(n, b)
                &&& forall|i: int|
                    0 <= i < out@.len() - 1 ==> (#[trigger] out@[i]).records@.len() == b
                &&& out@.len() > 0 ==> out@[out@.len() - 1].records@.len()
                    == spec_last_batch_len(n, b)
            },
        decreases rest@.len(),
    {
        let ghost emitted = out@.len() as int;
        let take: usize = if rest.len() > batch_size as usize {
            batch_size as usize
        } else {
            rest.len()
        };
        let tail = rest.split_off(take);
        let id: u64 = out.len() as u64;
        let full_batch = Batch { id, records: rest };
        rest = tail;
        proof {
            assert((emitted + 1) * b == emitted * b + b) by (nonlinear_arith);
            assert(full_batch.records@ =~= all.subrange(
                emitted * b,
                emitted * b + full_batch.records@.len(),
            ));
            if rest@.len() == 0 {
                let s = take as int;
                if s == b {
                    vstd::arithmetic::div_mod::lemma_fundamental_div_mod_converse(
                        n + b - 1,
                        b,
                        emitted + 1,
                        b - 1,
                    );
                    vstd::arithmetic::div_mod::lemma_fundamental_div_mod_converse(
                        n,
                        b,
                        emitted + 1,
                        0,
                    );
                } else {
                    vstd::arithmetic::div_mod::lemma_fundamental_div_mod_converse(
                        n + b - 1,
                        b,
                        emitted + 1,
                        s - 1,
                    );
                    vstd::arithmetic::div_mod::lemma_fundamental_div_mod_converse(
                        n,
                        b,
                        emitted,
                        s,
                    );
                }
            }
        }
        out.push(full_batch);
    }
    out
}

/// Groups records into batches of at most `capacity` records and numbers
/// the batches from zero. Holds at most one partial batch at a time.
pub struct BatchAssembler {
    capacity: u32,
    buf: Vec<DataValue>,
    emitted: u64,
}

impl BatchAssembler {
    /// The configured batch size.
    pub closed spec fn capacity(&self) -> int {
        self.capacity as int
    }

    /// How many batches have come out so far; also the next batch id.
    pub closed spec fn emitted(&self) -> int {
        self.emitted as int
    }

    /// The records accepted but not yet emitted, in arrival order.
    pub closed spec fn pending(&self) -> Seq<ValueModel> {
        value_model_seq(self.buf@)
    }

    /// How many records have been accepted in all.
    pub open spec fn pushed(&self) -> int {
        self.emitted() * self.capacity() + self.pending().len()
    }

    pub closed spec fn wf(&self) -> bool {
        1 <= self.capacity && self.buf@.len() < self.capacity
    }

    /// A fresh assembler; a batch holds at least one record.
    pub fn new(batch_size: u32) -> (r: BatchAssembler)
        requires
            batch_size >= 1,
        ensures
            r.wf(),
            r.capacity() == batch_size,
            r.emitted() == 0,
            r.pending() =~= Seq::<ValueModel>::empty(),
    {
        BatchAssembler { capacity: batch_size, buf: Vec::new(), emitted: 0 }
    }

    /// Accept one record. A full batch comes out exactly when the record
    /// completes one; its records are the pending ones followed by this
    /// one, and its id is the count of batches emitted before it.
    pub fn push(&mut self, record: DataValue) -> (r: Option<Batch>)
        requires
            old(self).wf(),
            old(self).emitted() < u64::MAX,
        ensures
            final(self).wf(),
            final(self).capacity() == old(self).capacity(),
            match r {
                Some(batch) => {
                    &&& old(self).pending().len() == old(self).capacity() - 1
                    &&& batch.id == old(self).emitted()
                    &&& batch.model() =~= old(self).pending().push(value_model(record))
                    &&& batch.model().len() == old(self).capacity()
                    &&& final(self).emitted() == old(self).emitted() + 1
                    &&& final(self).pending() =~= Seq::<ValueModel>::empty()
                },
                None => {
                    &&& old(self).pending().len() < old(self).capacity() - 1
                    &&& final(self).emitted() == old(self).emitted()
                    &&& final(self).pending() =~= old(self).pending().push(value_model(record))
                },
            },
            final(self).pushed() == old(self).pushed() + 1,
    {
        proof {
            crate::value::lemma_value_model_seq_push(self.buf@, record);
            crate::value::lemma_value_model_seq_props(self.buf@);
        }
        self.buf.push(record);
        proof {
            crate::value::lemma_value_model_seq_props(self.buf@);
        }
        if self.buf.len() == self.capacity as usize {
            let mut records: Vec<DataValue> = Vec::new();
            core::mem::swap(&mut records, &mut self.buf);
            let id = self.emitted;
            self.emitted = self.emitted + 1;
            proof {
                let e = id as int;
                let c = self.capacity as int;
                assert((e + 1) * c == e * c + c) by (nonlinear_arith);
                assert(self.emitted as int == e + 1);
            }
            Some(Batch { id, records })
        } else {
            None
        }
    }

    /// End of data: hand out the final short batch, or nothing when no
    /// record is pending.
    pub fn finish(&mut self) -> (r: Option<Batch>)
        requires
            old(self).wf(),
            old(self).emitted() < u64::MAX,
        ensures
            final(self).wf(),
            final(self).capacity() == old(self).capacity(),
            final(self).pending() =~= Seq::<ValueModel>::empty(),
            match r {
                Some(batch) => {
                    &&& old(self).pending().len() > 0
                    &&& batch.id == old(self).emitted()
                    &&& batch.model() =~= old(self).pending()
                    &&& final(self).emitted() == old(self).emitted() + 1
                },
                None => {
                    &&& old(self).pending().len() == 0
                    &&& final(self).emitted() == old(self).emitted()
                },
            },
    {
        proof {
            crate::value::lemma_value_model_seq_props(self.buf@);
        }
        if self.buf.len() == 0 {
            None
        } else {
            let mut records: Vec<DataValue> = Vec::new();
            core::mem::swap(&mut records, &mut self.buf);
            let id = self.emitted;
            self.emitted = self.emitted + 1;
            Some(Batch { id, records })
        }
    }
}

} // verus!
