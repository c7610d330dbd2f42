use vstd::prelude::*;

use crate::text::str_eq;
use crate::verif::output_csv::OutputCSV;
use crate::verif::{Verified, VerifiedData};

verus! {

/// Describes a match type of a successful verification attempt.
#[derive(Debug, Clone, Copy, PartialEq, Eq, Structural)]
pub enum MatchType {
    /// Supplied name-string did not match anything in a data source.
    NoMatch,
    /// Exact match of either the whole name-string or its canonical form.
    Exact,
    /// Fuzzy match to a canonical form of a record in the data source.
    Fuzzy,
    /// The full canonical form could not be matched, but omitting the last
    /// or middle elements of the canonical form produced an exact match.
    PartialExact,
    /// The full canonical form could not be matched, but omitting the last
    /// or middle elements of the canonical form produced a fuzzy match.
    PartialFuzzy,
}

impl Default for MatchType {
    fn default() -> (r: Self)
        ensures
            r == MatchType::NoMatch,
    {
        MatchType::NoMatch
    }
}

/// Indicates if the name was matched to data sources with human or
/// automatic curation of the data.
#[derive(Debug, Clone, Copy, PartialEq, Eq, Structural)]
pub enum CurationType {
    /// The matched data sources are not curated.
    NotCurated,
    /// The matched data sources are curated automatically.
    AutoCurated,
    /// The matched data sources are curated by people.
    Curated,
}

impl Default for CurationType {
    fn default() -> (r: Self)
        ensures
            r == CurationType::NotCurated,
    {
        CurationType::NotCurated
    }
}

/// Matching result from a data source.
#[derive(Debug)]
pub struct ResultData {
    /// Match type returned by the verification attempt.
    pub match_type: MatchType,
    /// Data source ID in the service's database.
    pub data_source_id: i64,
    /// Title of the matched data source.
    pub data_source_title: String,
    /// Taxon ID of the record in the data source.
    pub taxon_id: String,
    /// A name that matched the supplied name-string.
    pub matched_name: String,
    /// A canonical form of the matched name.
    pub matched_canonical: Option<String>,
    /// Currently accepted name for the taxon according to the data source.
    pub current_name: Option<String>,
    /// Indicates if the matched name is a synonym.
    pub synonym: bool,
    /// Classification path for the matched taxon (if supported).
    pub classification_path: Option<String>,
    /// Classification ranks of the classification path.
    pub classification_rank: Option<String>,
    /// Taxon IDs of every path element.
    pub classification_ids: Option<String>,
    /// Edit distance for the Levenshtein algorithm; greater than 0 when
    /// the match type is fuzzy.
    pub edit_distance: i64,
    /// Edit distance of the stemmed version of the name-string.
    pub stem_edit_distance: i64,
}

/// The normalized, caller-facing record for one verified name-string.
#[derive(Debug)]
pub struct Output {
    /// Opaque caller-supplied correlation token, preserved verbatim.
    pub id: Option<String>,
    /// Name-string supplied by the user for verification.
    pub name: String,
    /// Match type of the best result after the verification attempt.
    pub match_type: MatchType,
    /// The number of data sources that could be matched to the name-string.
    pub data_sources_num: i64,
    /// Indicates if the name was matched to data sources with human or
    /// automatic curation of the data.
    pub data_source_curation: Option<CurationType>,
    /// How many retries were needed to reach the verification service.
    pub retries: i64,
    /// Contains an error string (if any) after the verification attempt.
    pub error: Option<String>,
    /// The apparent best match of the name-string to the data sources.
    pub best_result: Option<ResultData>,
    /// All matches found in the caller-preferred data sources.
    pub preferred_results: Option<Vec<ResultData>>,
}

/// The match type a given service match-kind label maps to.
pub open spec fn spec_match_type(kind: Seq<char>) -> MatchType {
    if kind == "ExactMatch"@ || kind == "ExactCanonicalMatch"@ {
        MatchType::Exact
    } else if kind == "FuzzyCanonicalMatch"@ {
        MatchType::Fuzzy
    } else if kind == "ExactPartialMatch"@ {
        MatchType::PartialExact
    } else if kind == "FuzzyPartialMatch"@ {
        MatchType::PartialFuzzy
    } else {
        MatchType::NoMatch
    }
}

/// The curation label a given quality-summary string maps to; anything
/// outside the three known labels maps to no label at all.
pub open spec fn spec_curation(cur: Seq<char>) -> Option<CurationType> {
    if cur == "HasCuratedSources"@ {
        Some(CurationType::Curated)
    } else if cur == "HasAutoCuratedSources"@ {
        Some(CurationType::AutoCurated)
    } else if cur == "Unknown"@ {
        Some(CurationType::NotCurated)
    } else {
        None
    }
}

/// A title truncated to 40 characters with a trailing ellipsis marker.
pub open spec fn spec_trim(s: Seq<char>) -> Seq<char> {
    if s.len() <= 40 {
        s
    } else {
        s.subrange(0, 40) + "..."@
    }
}

/// Maps the service's match-kind label to a match type.
pub fn get_match_type(match_type: &str) -> (r: MatchType)
    ensures
        r == spec_match_type(match_type@),
{
    if str_eq(match_type, "ExactMatch") || str_eq(match_type, "ExactCanonicalMatch") {
        MatchType::Exact
    } else if str_eq(match_type, "FuzzyCanonicalMatch") {
        MatchType::Fuzzy
    } else if str_eq(match_type, "ExactPartialMatch") {
        MatchType::PartialExact
    } else if str_eq(match_type, "FuzzyPartialMatch") {
        MatchType::PartialFuzzy
    } else {
        MatchType::NoMatch
    }
}

/// Maps the service's quality-summary string to a curation label.
pub fn get_curation(cur: &str) -> (r: Option<CurationType>)
    ensures
        r == spec_curation(cur@),
{
    if str_eq(cur, "HasCuratedSources") {
        Some(CurationType::Curated)
    } else if str_eq(cur, "HasAutoCuratedSources") {
        Some(CurationType::AutoCurated)
    } else if str_eq(cur, "Unknown") {
        Some(CurationType::NotCurated)
    } else {
        None
    }
}

/// Truncates a data-source title to 40 characters, marking the cut with
/// an ellipsis, so that fixed-width downstream consumers stay readable.
pub fn trim(s: String) -> (r: String)
    ensures
        r@ == spec_trim(s@),
{
    let limit: usize = 40;
    let len = s.as_str().unicode_len();
    if len <= limit {
        return s;
    }
    let mut r = s.as_str().substring_char(0, limit).to_owned();
    r.append("...");
    r
}

/// The projection of one raw match candidate into a caller-facing record.
pub open spec fn spec_result_data(d: VerifiedData) -> ResultData {
    ResultData {
        match_type: spec_match_type(d.match_kind@),
        data_source_id: d.data_source_id,
        data_source_title: d.data_source_title,
        taxon_id: d.taxon_id,
        matched_name: d.name,
        matched_canonical: d.canonical_name,
        current_name: d.accepted_name,
        synonym: d.synonym,
        classification_path: d.classification_path,
        classification_rank: d.classification_ranks,
        classification_ids: d.classification_ids,
        edit_distance: match d.verbatim_edit_distance {
            Some(e) => e,
            None => 0,
        },
        stem_edit_distance: match d.stem_edit_distance {
            Some(e) => e,
            None => 0,
        },
    }
}

impl VerifiedData {
    /// Projects one raw match candidate into a caller-facing record.
    pub fn to_result_data(&self) -> (r: ResultData)
        ensures
            r == spec_result_data(*self),
    {
        let matched_canonical = match &self.canonical_name {
            None => None,
            Some(can) => Some(can.clone()),
        };
        let current_name = match &self.accepted_name {
            None => None,
            Some(acc_name) => Some(acc_name.clone()),
        };
        ResultData {
            match_type: get_match_type(self.match_kind.as_str()),
            data_source_id: self.data_source_id,
            data_source_title: self.data_source_title.clone(),
            taxon_id: self.taxon_id.clone(),
            matched_name: self.name.clone(),
            matched_canonical,
            current_name,
            synonym: self.synonym,
            classification_path: match &self.classification_path {
                None => None,
                Some(p) => Some(p.clone()),
            },
            classification_rank: match &self.classification_ranks {
                None => None,
                Some(p) => Some(p.clone()),
            },
            classification_ids: match &self.classification_ids {
                None => None,
                Some(p) => Some(p.clone()),
            },
            edit_distance: match self.verbatim_edit_distance {
                None => 0,
                Some(e) => e,
            },
            stem_edit_distance: match self.stem_edit_distance {
                None => 0,
                Some(e) => e,
            },
        }
    }
}

/// The match type assigned to the whole output: the best candidate's
/// match type, or no match when the service returned no candidates.
pub open spec fn spec_output_match_type(item: Verified) -> MatchType {
    if item.results@.len() > 0 {
        spec_match_type(item.results@[0].match_kind@)
    } else {
        MatchType::NoMatch
    }
}

/// The curation label derived from the response's quality summary.
pub open spec fn spec_output_curation(item: Verified) -> Option<CurationType> {
    match item.quality_summary {
        Some(q) => spec_curation(q@),
        None => None,
    }
}

/// Relates a raw verification response (plus the retry count and the
/// preferred-only flag) to the normalized output record built from it.
pub open spec fn transform_rel(
    item: Verified,
    retries: i64,
    preferred_only: bool,
    r: Output,
) -> bool {
    &&& r.id == item.supplied_id
    &&& item.supplied_input matches Some(n) ==> r.name == n
    &&& r.match_type == spec_output_match_type(item)
    &&& r.data_sources_num == item.matched_data_sources
    &&& r.data_source_curation == spec_output_curation(item)
    &&& r.retries == retries
    &&& r.error is None
    &&& if item.results@.len() > 0 && !preferred_only {
        r.best_result == Some(spec_result_data(item.results@[0]))
    } else {
        r.best_result is None
    }
    &&& if item.preferred_results@.len() > 0 {
        r.preferred_results matches Some(ps) && ps@.len() == item.preferred_results@.len()
            && (forall|i: int|
            0 <= i < ps@.len() ==> ps@[i] == spec_result_data(item.preferred_results@[i]))
    } else {
        r.preferred_results is None
    }
}

impl Output {
    /// Creates a new output from the verification data returned by the
    /// remote service for one input. The best candidate (if any) sets the
    /// output's match type; when `preferred_only` is set, the best result
    /// itself is left out of the output. Preferred matches are projected
    /// in service order, and an empty list is recorded as absent.
    pub fn new(item: Verified, retries: i64, preferred_only: bool) -> (r: Output)
        requires
            item.supplied_input is Some,
        ensures
            transform_rel(item, retries, preferred_only, r),
    {
        let mut best_result: Option<ResultData> = None;
        let mut match_type = MatchType::NoMatch;
        if item.results.len() > 0 {
            let best_match = item.results[0].to_result_data();
            match_type = best_match.match_type;
            if !preferred_only {
                best_result = Some(best_match);
            }
        }
        let mut pref_res_tmp: Vec<ResultData> = Vec::with_capacity(item.preferred_results.len());
        let mut i: usize = 0;
        while i < item.preferred_results.len()
            invariant
                0 <= i <= item.preferred_results@.len(),
                pref_res_tmp@.len() == i,
                forall|j: int|
                    0 <= j < i ==> pref_res_tmp@[j] == spec_result_data(
                        item.preferred_results@[j],
                    ),
            decreases item.preferred_results@.len() - i,
        {
            pref_res_tmp.push(item.preferred_results[i].to_result_data());
            i = i + 1;
        }
        let preferred_results: Option<Vec<ResultData>> = if pref_res_tmp.len() > 0 {
            Some(pref_res_tmp)
        } else {
            None
        };
        let data_source_curation = match &item.quality_summary {
            Some(q) => get_curation(q.as_str()),
            None => None,
        };
        Output {
            id: item.supplied_id,
            name: item.supplied_input.unwrap(),
            match_type,
            data_sources_num: item.matched_data_sources,
            data_source_curation,
            retries,
            error: None,
            best_result,
            preferred_results,
        }
    }
}

/// Relates an output to the single delimited row built for its best
/// match: the match fields are copied from the best result when it is
/// present and left blank/default otherwise; the data-source title is
/// truncated for display.
pub open spec fn csv_best_row(row: OutputCSV, o: Output) -> bool {
    &&& row.kind@ == "BestMatch"@
    &&& row.scientific_name == o.name
    &&& row.synonym == false
    &&& match o.best_result {
        Some(b) => {
            &&& row.match_type == b.match_type
            &&& row.edit_distance == Some(b.edit_distance)
            &&& row.matched_name == Some(b.matched_name)
            &&& row.matched_canonical == b.matched_canonical
            &&& row.taxon_id == Some(b.taxon_id)
            &&& row.current_name == b.current_name
            &&& row.data_source_id == Some(b.data_source_id)
            &&& row.data_source_title matches Some(t) && t@ == spec_trim(b.data_source_title@)
            &&& row.classification_path == b.classification_path
        },
        None => {
            &&& row.match_type == MatchType::NoMatch
            &&& row.edit_distance is None
            &&& row.matched_name is None
            &&& row.matched_canonical is None
            &&& row.taxon_id is None
            &&& row.current_name is None
            &&& row.data_source_id is None
            &&& row.data_source_title is None
            &&& row.classification_path is None
        },
    }
}

/// Relates an output and one of its preferred matches to the delimited
/// row built for that match.
pub open spec fn csv_pref_row(row: OutputCSV, o: Output, p: ResultData) -> bool {
    &&& row.kind@ == "PreferredMatch"@
    &&& row.scientific_name == o.name
    &&& row.synonym == false
    &&& row.match_type == p.match_type
    &&& row.edit_distance == Some(p.edit_distance)
    &&& row.matched_name == Some(p.matched_name)
    &&& row.matched_canonical == p.matched_canonical
    &&& row.taxon_id == Some(p.taxon_id)
    &&& row.current_name == p.current_name
    &&& row.data_source_id == Some(p.data_source_id)
    &&& row.data_source_title matches Some(t) && t@ == spec_trim(p.data_source_title@)
    &&& row.classification_path == p.classification_path
}

/// The number of preferred matches an output carries.
pub open spec fn spec_pref_len(o: Output) -> int {
    match o.preferred_results {
        Some(ps) => ps@.len() as int,
        None => 0,
    }
}

/// Whether the flattening emits the synthetic best-match row: always,
/// except when only preferred matches were asked for and some exist.
pub open spec fn spec_has_best_row(o: Output, preferred_only: bool) -> bool {
    !preferred_only || o.preferred_results is None
}

/// Relates an output (and the preferred-only flag) to the full sequence
/// of delimited rows built from it: one best-match row unless it is
/// suppressed, followed by one row per preferred match, in service order.
pub open spec fn csv_rows_rel(o: Output, preferred_only: bool, rows: Seq<OutputCSV>) -> bool {
    let k: int = if spec_has_best_row(o, preferred_only) {
        1
    } else {
        0
    };
    &&& rows.len() == k + spec_pref_len(o)
    &&& spec_has_best_row(o, preferred_only) ==> csv_best_row(rows[0], o)
    &&& o.preferred_results matches Some(ps) ==> forall|i: int|
        0 <= i < ps@.len() ==> csv_pref_row(rows[k + i], o, ps@[i])
}

impl Output {
    /// Converts one output record to rows for the delimited format: one
    /// best-match row (blank match fields when there is no best result),
    /// suppressed when only preferred matches were asked for and some
    /// exist, then one row per preferred match.
    pub fn to_csv(&self, preferred_only: bool) -> (rows: Vec<OutputCSV>)
        ensures
            csv_rows_rel(*self, preferred_only, rows@),
    {
        let mut res: Vec<OutputCSV> = Vec::new();
        if !preferred_only || self.preferred_results.is_none() {
            let mut o_csv = OutputCSV {
                kind: String::from_str("BestMatch"),
                match_type: MatchType::NoMatch,
                edit_distance: None,
                scientific_name: self.name.clone(),
                matched_name: None,
                matched_canonical: None,
                taxon_id: None,
                current_name: None,
                synonym: false,
                data_source_id: None,
                data_source_title: None,
                classification_path: None,
            };
            match &self.best_result {
                Some(best) => {
                    o_csv.matched_name = Some(best.matched_name.clone());
                    o_csv.matched_canonical = match &best.matched_canonical {
                        None => None,
                        Some(c) => Some(c.clone()),
                    };
                    o_csv.taxon_id = Some(best.taxon_id.clone());
                    o_csv.current_name = match &best.current_name {
                        None => None,
                        Some(c) => Some(c.clone()),
                    };
                    o_csv.edit_distance = Some(best.edit_distance);
                    o_csv.data_source_id = Some(best.data_source_id);
                    o_csv.data_source_title = Some(trim(best.data_source_title.clone()));
                    o_csv.classification_path = match &best.classification_path {
                        None => None,
                        Some(c) => Some(c.clone()),
                    };
                    o_csv.match_type = best.match_type;
                },
                None => {},
            }
            res.push(o_csv);
        }
        let ghost k: int = res@.len() as int;
        match &self.preferred_results {
            Some(pref) => {
                let mut i: usize = 0;
                while i < pref.len()
                    invariant
                        0 <= i <= pref@.len(),
                        res@.len() == k + i,
                        k == if spec_has_best_row(*self, preferred_only) {
                            1int
                        } else {
                            0int
                        },
                        spec_has_best_row(*self, preferred_only) ==> csv_best_row(res@[0], *self),
                        self.preferred_results matches Some(ps) && ps@ == pref@,
                        forall|j: int| 0 <= j < i ==> csv_pref_row(res@[k + j], *self, pref@[j]),
                    decreases pref@.len() - i,
                {
                    let p = &pref[i];
                    let o_csv = OutputCSV {
                        kind: String::from_str("PreferredMatch"),
                        scientific_name: self.name.clone(),
                        matched_name: Some(p.matched_name.clone()),
                        matched_canonical: match &p.matched_canonical {
                            None => None,
                            Some(c) => Some(c.clone()),
                        },
                        taxon_id: Some(p.taxon_id.clone()),
                        current_name: match &p.current_name {
                            None => None,
                            Some(c) => Some(c.clone()),
                        },
                        edit_distance: Some(p.edit_distance),
                        data_source_id: Some(p.data_source_id),
                        data_source_title: Some(trim(p.data_source_title.clone())),
                        classification_path: match &p.classification_path {
                            None => None,
                            Some(c) => Some(c.clone()),
                        },
                        match_type: p.match_type,
                        synonym: false,
                    };
                    res.push(o_csv);
                    i = i + 1;
                }
            },
            None => {},
        }
        res
    }
}

/// Law: whenever a transformed output carries a best result, the
/// output's match type mirrors the best result's match type.
pub proof fn lemma_match_type_mirrors_best(
    item: Verified,
    retries: i64,
    preferred_only: bool,
    r: Output,
)
    requires
        transform_rel(item, retries, preferred_only, r),
        r.best_result is Some,
    ensures
        r.match_type == r.best_result->0.match_type,
{
}

/// Law: when only preferred matches were asked for and the output
/// carries some, the best result is absent and the flattening emits
/// exactly one row per preferred match, none of them a best-match row.
pub proof fn lemma_preferred_only_suppresses_best(
    item: Verified,
    retries: i64,
    r: Output,
    rows: Seq<OutputCSV>,
)
    requires
        transform_rel(item, retries, true, r),
        r.preferred_results is Some,
        csv_rows_rel(r, true, rows),
    ensures
        r.best_result is None,
        rows.len() == r.preferred_results->0@.len(),
        forall|i: int| 0 <= i < rows.len() ==> rows[i].kind@ != "BestMatch"@,
{
    reveal_strlit("BestMatch");
    reveal_strlit("PreferredMatch");
    assert("BestMatch"@.len() == 9);
    assert("PreferredMatch"@.len() == 14);
    assert forall|i: int| 0 <= i < rows.len() implies rows[i].kind@ != "BestMatch"@ by {
        assert(csv_pref_row(rows[i], r, r.preferred_results->0@[i]));
    }
}

/// Law: when the flattening is not restricted to preferred matches, it
/// emits exactly one best-match row plus one row per preferred match.
pub proof fn lemma_csv_row_count(o: Output, rows: Seq<OutputCSV>)
    requires
        csv_rows_rel(o, false, rows),
    ensures
        rows.len() == 1 + spec_pref_len(o),
{
}

/// Law: the transformation is deterministic. Two outputs related to the
/// same raw response with the same retry count and flag agree on every
/// field (the preferred lists agree element by element).
pub proof fn lemma_transform_deterministic(
    item: Verified,
    retries: i64,
    preferred_only: bool,
    r1: Output,
    r2: Output,
)
    requires
        item.supplied_input is Some,
        transform_rel(item, retries, preferred_only, r1),
        transform_rel(item, retries, preferred_only, r2),
    ensures
        r1.id == r2.id,
        r1.name == r2.name,
        r1.match_type == r2.match_type,
        r1.data_sources_num == r2.data_sources_num,
        r1.data_source_curation == r2.data_source_curation,
        r1.retries == r2.retries,
        r1.error == r2.error,
        r1.best_result == r2.best_result,
        r1.preferred_results is Some <==> r2.preferred_results is Some,
        r1.preferred_results is Some && r2.preferred_results is Some
            ==> r1.preferred_results->0@ =~= r2.preferred_results->0@,
{
    if r1.preferred_results is Some && r2.preferred_results is Some {
        let ps1 = r1.preferred_results->0;
        let ps2 = r2.preferred_results->0;
        assert forall|i: int| 0 <= i < ps1@.len() implies ps1@[i] == ps2@[i] by {
            assert(ps1@[i] == spec_result_data(item.preferred_results@[i]));
            assert(ps2@[i] == spec_result_data(item.preferred_results@[i]));
        }
        assert(ps1@ =~= ps2@);
    }
}

} // verus!
