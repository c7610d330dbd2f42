//! Takes a list of name-strings and verifies them against a variety of
//! biodiversity data sources, reshaping the raw verification responses
//! into flat, caller-facing records.
//!
//! The remote round trips themselves are left to the caller: the library
//! decides when to retry, turns raw responses into output records, and
//! flattens records for delimited output.

pub mod batch;
mod error;
pub mod format;
mod text;
pub mod verif;

pub use error::GNVerifyError;
pub use format::Format;
pub use verif::output::{MatchType, Output};
pub use verif::Input;

use verif::output::transform_rel;
use verif::Verified;
use vstd::prelude::*;

verus! {

/// Relates one input to the degraded output record synthesized for it
/// after the retry budget was exhausted: the input's ID and name are
/// preserved, the error is recorded, and every match field stays at its
/// empty default.
pub open spec fn degraded_rel(input: Input, retries: i64, error: Option<String>, r: Output) -> bool {
    &&& r.id == input.id
    &&& r.name == input.name
    &&& r.match_type == MatchType::NoMatch
    &&& r.data_sources_num == 0
    &&& r.data_source_curation is None
    &&& r.retries == retries
    &&& r.error == error
    &&& r.best_result is None
    &&& r.preferred_results is None
}

/// What one decision step of the retry policy resolved to.
pub enum VerifyStep {
    /// The remote attempt failed and the retry budget is not exhausted:
    /// call the service again with the same batch and this retry count.
    Retry {
        /// The retry count to pass to the next attempt.
        retries: i64,
    },
    /// The batch is finished: one output per input.
    Done {
        /// The outputs for the batch, in input order.
        outputs: Vec<Output>,
    },
}

/// Keeps configuration parameters and organizes the main functions for
/// changing configuration, turning verification responses into outputs,
/// and deciding when a failed remote call is retried.
#[derive(Debug, Clone)]
pub struct GNVerify {
    /// List of IDs of data sources. If a name-string has a match in any
    /// of these sources, the matching result is always returned in the
    /// preferred-results section of the output.
    pub sources: Option<Vec<i64>>,
    /// When set, outputs carry only matches from the preferred data
    /// sources; the best result is left out.
    pub preferred_only: bool,
    /// Position of the scientific-name field in the document (the first
    /// field is 1, not 0).
    pub name_field: i64,
    /// Size of a batch of names sent as a unit for verification.
    pub batch_size: usize,
    /// Format of the final output: CSV, JSON, or pretty JSON.
    pub format: Format,
}

impl Default for GNVerify {
    fn default() -> (r: Self)
        ensures
            r.sources is None,
            !r.preferred_only,
            r.name_field == 0,
            r.batch_size == 0,
            r.format == Format::CSV,
    {
        GNVerify {
            sources: None,
            preferred_only: false,
            name_field: 0,
            batch_size: 0,
            format: Format::CSV,
        }
    }
}

impl GNVerify {
    /// Creates a new instance and sets default values for all fields.
    pub fn new() -> (r: Self)
        ensures
            r.sources is None,
            !r.preferred_only,
            r.name_field == 1,
            r.batch_size == 500,
            r.format == Format::CSV,
    {
        GNVerify {
            sources: None,
            preferred_only: false,
            name_field: 1,
            batch_size: 500,
            format: Format::CSV,
        }
    }

    /// Sets the list of IDs of preferred data sources.
    pub fn sources(&mut self, sources: Vec<i64>)
        ensures
            final(self).sources == Some(sources),
            final(self).preferred_only == old(self).preferred_only,
            final(self).name_field == old(self).name_field,
            final(self).batch_size == old(self).batch_size,
            final(self).format == old(self).format,
    {
        self.sources = Some(sources);
    }

    /// Sets the index of the name-string field. For example, if a TSV
    /// file contains "ID", "ScientificName", "Reference", the
    /// scientific-name index is 2.
    pub fn name_field(&mut self, name_field: i64)
        ensures
            final(self).name_field == name_field,
            final(self).sources == old(self).sources,
            final(self).preferred_only == old(self).preferred_only,
            final(self).batch_size == old(self).batch_size,
            final(self).format == old(self).format,
    {
        self.name_field = name_field;
    }

    /// Sets the preferred-only flag to true.
    pub fn preferred_only(&mut self)
        ensures
            final(self).preferred_only,
            final(self).sources == old(self).sources,
            final(self).name_field == old(self).name_field,
            final(self).batch_size == old(self).batch_size,
            final(self).format == old(self).format,
    {
        self.preferred_only = true;
    }

    /// Sets the output format to one of: CSV, JSON, pretty JSON.
    pub fn format(&mut self, format: Format)
        ensures
            final(self).format == format,
            final(self).sources == old(self).sources,
            final(self).preferred_only == old(self).preferred_only,
            final(self).name_field == old(self).name_field,
            final(self).batch_size == old(self).batch_size,
    {
        self.format = format;
    }

    /// Turns the per-input results of one successful remote call into
    /// output records, one per result, in service order.
    pub fn process_outputs(&self, results: Vec<Verified>, retries: i64) -> (outputs: Vec<Output>)
        requires
            forall|i: int| 0 <= i < results@.len() ==> results@[i].supplied_input is Some,
        ensures
            outputs@.len() == results@.len(),
            forall|i: int|
                0 <= i < results@.len() ==> transform_rel(
                    results@[i],
                    retries,
                    self.preferred_only,
                    outputs@[i],
                ),
    {
        let ghost orig = results@;
        let mut rest = results;
        let mut outputs: Vec<Output> = Vec::with_capacity(rest.len());
        while rest.len() > 0
            invariant
                orig.len() == outputs@.len() + rest@.len(),
                rest@ == orig.subrange(outputs@.len() as int, orig.len() as int),
                forall|i: int| 0 <= i < orig.len() ==> orig[i].supplied_input is Some,
                forall|i: int|
                    0 <= i < outputs@.len() ==> transform_rel(
                        orig[i],
                        retries,
                        self.preferred_only,
                        outputs@[i],
                    ),
            decreases rest@.len(),
        {
            let ghost done = outputs@.len() as int;
            let item = rest.remove(0);
            proof {
                assert(item == orig[done]);
                assert(rest@ =~= orig.subrange(done + 1, orig.len() as int));
            }
            let o = Output::new(item, retries, self.preferred_only);
            outputs.push(o);
        }
        outputs
    }

    /// Synthesizes one degraded output per input after the retry budget
    /// was exhausted: the input's ID and name are preserved, the error is
    /// recorded, and every match field stays at its empty default.
    pub fn bad_outputs(&self, inputs: &Vec<Input>, retries: i64, error: Option<String>) -> (outputs:
        Vec<Output>)
        ensures
            outputs@.len() == inputs@.len(),
            forall|i: int|
                0 <= i < inputs@.len() ==> degraded_rel(inputs@[i], retries, error, outputs@[i]),
    {
        let mut outputs: Vec<Output> = Vec::with_capacity(inputs.len());
        let mut i: usize = 0;
        while i < inputs.len()
            invariant
                0 <= i <= inputs@.len(),
                outputs@.len() == i,
                forall|j: int|
                    0 <= j < i ==> degraded_rel(inputs@[j], retries, error, outputs@[j]),
            decreases inputs@.len() - i,
        {
            let input = &inputs[i];
            let output = Output {
                id: match &input.id {
                    None => None,
                    Some(s) => Some(s.clone()),
                },
                name: input.name.clone(),
                match_type: MatchType::NoMatch,
                data_sources_num: 0,
                data_source_curation: None,
                retries,
                error: match &error {
                    None => None,
                    Some(e) => Some(e.clone()),
                },
                best_result: None,
                preferred_results: None,
            };
            outputs.push(output);
            i = i + 1;
        }
        outputs
    }

    /// One decision step of the retry policy for one batch. A successful
    /// remote outcome finishes the batch with one output per result; a
    /// failed outcome is retried immediately until it has failed on
    /// four consecutive attempts (three retries), after which the batch
    /// finishes with degraded outputs carrying the last failure. The
    /// caller performs the remote call itself and hands its outcome in.
    pub fn verify_step(
        &self,
        inputs: &Vec<Input>,
        retries: i64,
        outcome: Result<Vec<Verified>, String>,
    ) -> (step: VerifyStep)
        requires
            0 <= retries <= 3,
            outcome matches Ok(results) ==> results@.len() == inputs@.len() && (forall|i: int|
                0 <= i < results@.len() ==> results@[i].supplied_input is Some),
        ensures
            step matches VerifyStep::Done { outputs } ==> outputs@.len() == inputs@.len(),
            outcome matches Ok(results) ==> (step matches VerifyStep::Done { outputs }
                && outputs@.len() == results@.len() && (forall|i: int|
                0 <= i < results@.len() ==> transform_rel(
                    results@[i],
                    retries,
                    self.preferred_only,
                    outputs@[i],
                ))),
            outcome is Err && retries < 3 ==> step == (VerifyStep::Retry {
                retries: (retries + 1) as i64,
            }),
            outcome is Err && retries == 3 ==> (step matches VerifyStep::Done { outputs }
                && outputs@.len() == inputs@.len() && (forall|i: int|
                0 <= i < inputs@.len() ==> degraded_rel(
                    inputs@[i],
                    retries,
                    Some(outcome->Err_0),
                    outputs@[i],
                ))),
    {
        match outcome {
            Ok(results) => VerifyStep::Done { outputs: self.process_outputs(results, retries) },
            Err(err) => {
                if retries < 3 {
                    VerifyStep::Retry { retries: retries + 1 }
                } else {
                    VerifyStep::Done { outputs: self.bad_outputs(inputs, retries, Some(err)) }
                }
            },
        }
    }
}

} // verus!
