use vstd::arithmetic::div_mod::lemma_fundamental_div_mod;
use vstd::arithmetic::mul::lemma_mul_inequality;
use vstd::prelude::*;

use crate::error::GNVerifyError;
use crate::verif::Input;

verus! {

/// Whether the malformed-input safety valve trips after a record is
/// counted: more than 100 records seen for every valid record plus one,
/// i.e. more than ~99% of the stream so far was rejected.
pub open spec fn valve_trips(total: int, valid: int) -> bool {
    total / (valid + 1) > 100
}

/// Whether a record has enough fields for the configured name-field
/// index to point at one of them.
pub open spec fn record_valid(record: Seq<String>, name_field: i64) -> bool {
    1 <= name_field <= record.len()
}

/// Groups a stream of delimited records into fixed-size batches of
/// inputs, dropping records with too few fields, and fails fatally when
/// almost the whole stream so far consists of such records — a sign
/// that the name-field index points at the wrong column.
pub struct Batcher {
    /// How many inputs one emitted batch holds.
    pub batch_size: usize,
    /// Position of the scientific-name field (the first field is 1).
    pub name_field: i64,
    /// How many records this batcher has consumed.
    pub total_seen: u64,
    /// How many of the consumed records had enough fields.
    pub valid_seen: u64,
    /// Inputs collected since the last emitted batch.
    pub pending: Vec<Input>,
}

impl Batcher {
    /// Basic well-formedness of the batcher state. The bound on
    /// `total_seen` is what the safety valve maintains: a batcher that
    /// is still alive has consumed at most 100 records more than 101
    /// times its valid count.
    pub open spec fn well_formed(self) -> bool {
        &&& self.batch_size >= 1
        &&& self.name_field >= 1
        &&& self.valid_seen <= self.total_seen
        &&& self.total_seen <= 101 * self.valid_seen + 100
        &&& self.pending@.len() <= self.batch_size
    }

    /// Creates a batcher that emits batches of `batch_size` inputs and
    /// reads the name from field `name_field` (1-based).
    pub fn new(batch_size: usize, name_field: i64) -> (r: Self)
        requires
            batch_size >= 1,
            name_field >= 1,
        ensures
            r.well_formed(),
            r.batch_size == batch_size,
            r.name_field == name_field,
            r.total_seen == 0,
            r.valid_seen == 0,
            r.pending@.len() == 0,
    {
        Batcher { batch_size, name_field, total_seen: 0, valid_seen: 0, pending: Vec::new() }
    }

    /// Consumes one record. When the pending batch is already full it is
    /// emitted before the record is collected, so a caller forwards the
    /// returned batch (if any) and keeps going. A record with too few
    /// fields is dropped, not retried. When the valve trips the batcher
    /// returns the configuration error and leaves its state untouched.
    pub fn step(&mut self, record: &Vec<String>) -> (r: Result<
        Option<Vec<Input>>,
        GNVerifyError,
    >)
        requires
            old(self).well_formed(),
            old(self).total_seen < u64::MAX,
        ensures
            final(self).well_formed(),
            final(self).batch_size == old(self).batch_size,
            final(self).name_field == old(self).name_field,
            r is Err <==> valve_trips(old(self).total_seen + 1, old(self).valid_seen as int),
            r matches Err(e) ==> e == GNVerifyError::ConfigurationSuspect && *final(self) == *old(
                self,
            ),
            r matches Ok(emitted) ==> {
                let base: Seq<Input> = if old(self).pending@.len() == old(self).batch_size {
                    Seq::empty()
                } else {
                    old(self).pending@
                };
                &&& final(self).total_seen == old(self).total_seen + 1
                &&& if old(self).pending@.len() == old(self).batch_size {
                    emitted matches Some(batch) && batch@ == old(self).pending@
                } else {
                    emitted is None
                }
                &&& if record_valid(record@, old(self).name_field) {
                    &&& final(self).valid_seen == old(self).valid_seen + 1
                    &&& final(self).pending@ == base.push(
                        (Input { id: None, name: record@[old(self).name_field - 1] }),
                    )
                } else {
                    &&& final(self).valid_seen == old(self).valid_seen
                    &&& final(self).pending@ == base
                }
            },
    {
        let new_total = self.total_seen + 1;
        if new_total / (self.valid_seen + 1) > 100 {
            return Err(GNVerifyError::ConfigurationSuspect);
        }
        proof {
            lemma_div_le_bound(new_total as int, self.valid_seen as int + 1);
        }
        let mut emitted: Option<Vec<Input>> = None;
        if self.pending.len() == self.batch_size {
            let mut batch: Vec<Input> = Vec::new();
            std::mem::swap(&mut batch, &mut self.pending);
            emitted = Some(batch);
        }
        self.total_seen = new_total;
        if self.name_field >= 1 && (self.name_field as u64) <= (record.len() as u64) {
            let idx: usize = (self.name_field - 1) as usize;
            self.valid_seen = self.valid_seen + 1;
            self.pending.push(Input { id: None, name: record[idx].clone() });
        }
        Ok(emitted)
    }

    /// Hands back the inputs collected since the last emitted batch; the
    /// final batch of a run may be smaller than the configured size, or
    /// empty.
    pub fn finish(self) -> (r: Vec<Input>)
        ensures
            r == self.pending,
    {
        self.pending
    }
}

/// After a division bounded by 100, the dividend itself is bounded.
proof fn lemma_div_le_bound(t: int, d: int)
    requires
        d > 0,
        t >= 0,
        t / d <= 100,
    ensures
        t <= 100 * d + (d - 1),
{
    lemma_fundamental_div_mod(t, d);
    lemma_mul_inequality(t / d, 100, d);
}

/// Law: the safety valve keeps a live batcher from consuming an almost
/// entirely malformed stream: however long the run, a batcher that has
/// not failed has seen at most 100 records more than 101 times its
/// valid-record count.
pub proof fn lemma_safety_valve(b: Batcher)
    requires
        b.well_formed(),
    ensures
        b.total_seen <= 101 * b.valid_seen + 100,
{
}

/// Law: on a stream whose records are all malformed, a live batcher has
/// consumed at most 100 records, and the valve trips on the very next
/// record exactly when 100 have been consumed — the 101st malformed
/// record is never accepted.
pub proof fn lemma_safety_valve_all_malformed(b: Batcher)
    requires
        b.well_formed(),
        b.valid_seen == 0,
    ensures
        b.total_seen <= 100,
        valve_trips(b.total_seen + 1, 0) <==> b.total_seen == 100,
{
    assert((b.total_seen + 1) / 1int == b.total_seen + 1);
}

} // verus!
