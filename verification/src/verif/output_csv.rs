use vstd::prelude::*;

use crate::verif::output::MatchType;

verus! {

/// A flattened projection of one output record plus one match candidate
/// (either the best match or one preferred match), used for delimited output.
#[derive(Debug)]
pub struct OutputCSV {
    /// Row discriminator: "BestMatch" or "PreferredMatch".
    pub kind: String,
    /// Match type of the candidate in this row.
    pub match_type: MatchType,
    /// Edit distance of the candidate, if a candidate is present.
    pub edit_distance: Option<i64>,
    /// Name-string supplied by the user.
    pub scientific_name: String,
    /// The name that matched, if a candidate is present.
    pub matched_name: Option<String>,
    /// Canonical form of the matched name.
    pub matched_canonical: Option<String>,
    /// Taxon ID of the matched record.
    pub taxon_id: Option<String>,
    /// Currently accepted name of the taxon.
    pub current_name: Option<String>,
    /// Indicates if the matched name is a synonym.
    pub synonym: bool,
    /// ID of the matched data source.
    pub data_source_id: Option<i64>,
    /// Title of the matched data source, truncated for display.
    pub data_source_title: Option<String>,
    /// Classification path of the matched taxon.
    pub classification_path: Option<String>,
}

} // verus!
