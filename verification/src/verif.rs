use vstd::prelude::*;

pub mod output;
pub mod output_csv;
pub mod verification;

verus! {

/// The input format to send to the verification service.
#[derive(Debug)]
pub struct Input {
    /// Optional ID attached to a name-string.
    pub id: Option<String>,
    /// Name-string to verify.
    pub name: String,
}

impl Default for Input {
    fn default() -> (r: Self)
        ensures
            r.id is None,
            r.name@ == Seq::<char>::empty(),
    {
        Input { id: None, name: String::new() }
    }
}

/// The verification service's response for one input: a ranked list of
/// match candidates, an independently ranked list of matches from the
/// caller-preferred data sources, the number of data sources that
/// matched, and a coarse curation-quality label.
#[derive(Debug)]
pub struct Verified {
    /// The ID supplied with the input, echoed back by the service.
    pub supplied_id: Option<String>,
    /// The name-string supplied for verification, echoed back by the service.
    pub supplied_input: Option<String>,
    /// The number of data sources the name-string could be matched to.
    pub matched_data_sources: i64,
    /// The service's curation-quality label for the matched sources.
    pub quality_summary: Option<String>,
    /// Match candidates, best first.
    pub results: Vec<VerifiedData>,
    /// Matches restricted to the caller-preferred data sources.
    pub preferred_results: Vec<VerifiedData>,
}

/// One match candidate inside a verification response.
#[derive(Debug)]
pub struct VerifiedData {
    /// The service's match-kind label, e.g. "ExactMatch" or "FuzzyCanonicalMatch".
    pub match_kind: String,
    /// Data source ID in the service's database.
    pub data_source_id: i64,
    /// Title of the matched data source.
    pub data_source_title: String,
    /// Taxon ID of the record in the data source.
    pub taxon_id: String,
    /// The name that matched the supplied name-string.
    pub name: String,
    /// The ranked canonical form of the matched name, if any.
    pub canonical_name: Option<String>,
    /// The currently accepted name for the taxon, if any.
    pub accepted_name: Option<String>,
    /// Indicates if the matched name is a synonym.
    pub synonym: bool,
    /// Classification path for the matched taxon, if supported.
    pub classification_path: Option<String>,
    /// Ranks of the classification path elements.
    pub classification_ranks: Option<String>,
    /// Taxon IDs of the classification path elements.
    pub classification_ids: Option<String>,
    /// Levenshtein edit distance of the verbatim match, if reported.
    pub verbatim_edit_distance: Option<i64>,
    /// Edit distance of the stemmed version of the name, if reported.
    pub stem_edit_distance: Option<i64>,
}

} // verus!
