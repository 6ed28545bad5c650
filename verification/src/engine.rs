//! The query pipeline: validate the version, consult the cache, then
//! evaluate deserialized candidate records and project the matches.
//!
//! Fetching candidate rows and turning their stored JSON back into records
//! is outside work; the caller hands both in, and every decision made on
//! them is verified here.

use vstd::prelude::*;

use crate::cache::{
    cache_contains, cache_index, cache_inv, cache_lookup, lemma_cache_put_lookup, spec_bump,
    CacheEntry, ResultCache,
};
use crate::record::{spec_problems, spec_record_matches, spec_summary, strings_views, CveRecord};
use crate::strutil::str_eq;
use crate::versioncmp::{version_is_valid, version_parses};

verus! {

/// A search query: a product, an optional vendor, and a version string.
#[derive(Debug, Clone, PartialEq, Eq, Hash)]
pub struct Query {
    pub vendor: Option<String>,
    pub product: String,
    pub version: String,
}

/// The key a query is cached under.
pub open spec fn query_key(q: Query) -> (Option<Seq<char>>, Seq<char>, Seq<char>) {
    (
        match q.vendor {
            Some(v) => Some(v@),
            None => None,
        },
        q.product@,
        q.version@,
    )
}

/// Whether two queries have the same key.
pub fn query_eq(a: &Query, b: &Query) -> (r: bool)
    ensures
        r == (query_key(*a) == query_key(*b)),
{
    let vendors_eq = match (&a.vendor, &b.vendor) {
        (Some(x), Some(y)) => str_eq(x.as_str(), y.as_str()),
        (None, None) => true,
        _ => false,
    };
    vendors_eq && str_eq(a.product.as_str(), b.product.as_str()) && str_eq(
        a.version.as_str(),
        b.version.as_str(),
    )
}

/// A reference attached to a response: a URL and its tags.
#[derive(Debug, Clone, PartialEq, Eq)]
pub struct Reference {
    pub url: String,
    pub tags: Vec<String>,
}

/// One CVSS tier of a response; scores stay the feed's decimal strings.
#[derive(Debug, Clone, PartialEq, Eq)]
pub struct CVSSVData {
    pub vector_string: String,
    pub base_score: String,
    pub impact_score: String,
    pub severity: String,
}

/// The CVSS block of a response: either tier may be absent.
#[derive(Debug, Clone, PartialEq, Eq)]
pub struct CVSS {
    pub v3: Option<CVSSVData>,
    pub v2: Option<CVSSVData>,
}

/// A query response entry, projected from a matching record and the stored
/// (vendor, product) row it was found under.
#[derive(Debug, Clone, PartialEq, Eq)]
pub struct MatchedCVE {
    pub cve: String,
    pub source: String,
    pub vendor: String,
    pub product: String,
    pub summary: Option<String>,
    pub references: Vec<Reference>,
    pub problems: Vec<String>,
    pub published_date: String,
    pub last_modified_date: String,
    pub cvss: CVSS,
}

pub open spec fn opt_string_view(o: Option<String>) -> Option<Seq<char>> {
    match o {
        Some(s) => Some(s@),
        None => None,
    }
}

pub open spec fn reference_view(r: Reference) -> (Seq<char>, Seq<Seq<char>>) {
    (r.url@, strings_views(r.tags@))
}

pub open spec fn refs_view(rs: Seq<Reference>) -> Seq<(Seq<char>, Seq<Seq<char>>)> {
    rs.map_values(|r: Reference| reference_view(r))
}

pub open spec fn cvss_data_view(d: CVSSVData) -> (Seq<char>, Seq<char>, Seq<char>, Seq<char>) {
    (d.vector_string@, d.base_score@, d.impact_score@, d.severity@)
}

pub open spec fn opt_cvss_view(o: Option<CVSSVData>) -> Option<
    (Seq<char>, Seq<char>, Seq<char>, Seq<char>),
> {
    match o {
        Some(d) => Some(cvss_data_view(d)),
        None => None,
    }
}

/// The full abstract value of a response entry.
pub open spec fn matched_cve_view(m: MatchedCVE) -> (
    Seq<char>,
    Seq<char>,
    Seq<char>,
    Seq<char>,
    Option<Seq<char>>,
    Seq<(Seq<char>, Seq<Seq<char>>)>,
    Seq<Seq<char>>,
    Seq<char>,
    Seq<char>,
    (Option<(Seq<char>, Seq<char>, Seq<char>, Seq<char>)>, Option<
        (Seq<char>, Seq<char>, Seq<char>, Seq<char>),
    >),
) {
    (
        m.cve@,
        m.source@,
        m.vendor@,
        m.product@,
        opt_string_view(m.summary),
        refs_view(m.references@),
        strings_views(m.problems@),
        m.published_date@,
        m.last_modified_date@,
        (opt_cvss_view(m.cvss.v3), opt_cvss_view(m.cvss.v2)),
    )
}

/// The abstract value of a response list.
pub open spec fn matched_list_view(s: Seq<MatchedCVE>) -> Seq<
    (
        Seq<char>,
        Seq<char>,
        Seq<char>,
        Seq<char>,
        Option<Seq<char>>,
        Seq<(Seq<char>, Seq<Seq<char>>)>,
        Seq<Seq<char>>,
        Seq<char>,
        Seq<char>,
        (Option<(Seq<char>, Seq<char>, Seq<char>, Seq<char>)>, Option<
            (Seq<char>, Seq<char>, Seq<char>, Seq<char>),
        >),
    ),
> {
    s.map_values(|m: MatchedCVE| matched_cve_view(m))
}

proof fn lemma_cloned_strings(a: Seq<String>, b: Seq<String>)
    requires
        a.len() == b.len(),
        forall|i: int| #![all_triggers] 0 <= i < a.len() ==> cloned::<String>(a[i], b[i]),
    ensures
        a == b,
{
    assert forall|i: int| 0 <= i < a.len() implies a[i] == b[i] by {
        assert(cloned::<String>(a[i], b[i]));
    }
    assert(a =~= b);
}

/// Copy a vector of strings, value for value.
pub(crate) fn dup_strings(v: &Vec<String>) -> (r: Vec<String>)
    ensures
        r@ == v@,
{
    let r = v.clone();
    proof {
        lemma_cloned_strings(v@, r@);
    }
    r
}

pub(crate) fn dup_opt_string(o: &Option<String>) -> (r: Option<String>)
    ensures
        opt_string_view(r) == opt_string_view(*o),
{
    match o {
        Some(s) => Some(s.clone()),
        None => None,
    }
}

pub(crate) fn dup_references(rs: &Vec<Reference>) -> (r: Vec<Reference>)
    ensures
        refs_view(r@) == refs_view(rs@),
{
    let mut out: Vec<Reference> = Vec::new();
    let mut i: usize = 0;
    while i < rs.len()
        invariant
            i <= rs@.len(),
            out@.len() == i,
            forall|j: int| 0 <= j < i ==> reference_view(out@[j]) == reference_view(rs@[j]),
        decreases rs@.len() - i,
    {
        let q = Reference { url: rs[i].url.clone(), tags: dup_strings(&rs[i].tags) };
        out.push(q);
        i += 1;
    }
    proof {
        assert(refs_view(out@) =~= refs_view(rs@));
    }
    out
}

fn dup_cvss_data(d: &CVSSVData) -> (r: CVSSVData)
    ensures
        cvss_data_view(r) == cvss_data_view(*d),
{
    CVSSVData {
        vector_string: d.vector_string.clone(),
        base_score: d.base_score.clone(),
        impact_score: d.impact_score.clone(),
        severity: d.severity.clone(),
    }
}

fn dup_opt_cvss(o: &Option<CVSSVData>) -> (r: Option<CVSSVData>)
    ensures
        opt_cvss_view(r) == opt_cvss_view(*o),
{
    match o {
        Some(d) => Some(dup_cvss_data(d)),
        None => None,
    }
}

impl MatchedCVE {
    /// Copy the entry, field for field.
    pub fn duplicate(&self) -> (r: MatchedCVE)
        ensures
            matched_cve_view(r) == matched_cve_view(*self),
    {
        MatchedCVE {
            cve: self.cve.clone(),
            source: self.source.clone(),
            vendor: self.vendor.clone(),
            product: self.product.clone(),
            summary: dup_opt_string(&self.summary),
            references: dup_references(&self.references),
            problems: dup_strings(&self.problems),
            published_date: self.published_date.clone(),
            last_modified_date: self.last_modified_date.clone(),
            cvss: CVSS { v3: dup_opt_cvss(&self.cvss.v3), v2: dup_opt_cvss(&self.cvss.v2) },
        }
    }
}

/// The errors the query pipeline can surface.
#[derive(Debug, Clone, PartialEq, Eq)]
pub enum EngineError {
    /// The query's version string does not parse.
    InvalidQuery,
    /// A stored record could not be reconstituted; carries the CVE id.
    Deserialization(String),
    /// A stored row names a source tag the engine does not know.
    UnsupportedSource(String),
}

/// The message each error renders to.
pub open spec fn spec_error_message(e: EngineError) -> Seq<char> {
    match e {
        EngineError::InvalidQuery => "invalid version string"@,
        EngineError::Deserialization(id) => "could not deserialize "@ + id@,
        EngineError::UnsupportedSource(s) => "unsupported data source "@ + s@,
    }
}

impl EngineError {
    /// Render the error message.
    pub fn message(&self) -> (r: String)
        ensures
            r@ == spec_error_message(*self),
    {
        match self {
            EngineError::InvalidQuery => String::from_str("invalid version string"),
            EngineError::Deserialization(id) => {
                let mut m = String::from_str("could not deserialize ");
                m.append(id.as_str());
                m
            },
            EngineError::UnsupportedSource(s) => {
                let mut m = String::from_str("unsupported data source ");
                m.append(s.as_str());
                m
            },
        }
    }
}

/// The stored key row of a candidate record: its source tag and the
/// (vendor, product) pair it was indexed under, plus its CVE id.
#[derive(Debug, Clone)]
pub struct CveMeta {
    pub source: String,
    pub vendor: String,
    pub product: String,
    pub cve: String,
}

/// One candidate handed to the engine: the stored row, and the record
/// reconstituted from its JSON, or nothing where that failed.
#[derive(Debug)]
pub struct Candidate {
    pub meta: CveMeta,
    pub record: Option<CveRecord>,
}

/// Copy a response list, entry for entry.
pub fn duplicate_matched_list(v: &Vec<MatchedCVE>) -> (r: Vec<MatchedCVE>)
    ensures
        matched_list_view(r@) == matched_list_view(v@),
{
    let mut out: Vec<MatchedCVE> = Vec::new();
    let mut i: usize = 0;
    while i < v.len()
        invariant
            i <= v@.len(),
            out@.len() == i,
            forall|j: int| 0 <= j < i ==> matched_cve_view(out@[j]) == matched_cve_view(v@[j]),
        decreases v@.len() - i,
    {
        let d = v[i].duplicate();
        out.push(d);
        i += 1;
    }
    proof {
        assert(matched_list_view(out@) =~= matched_list_view(v@));
    }
    out
}

/// The view of a record's reference list as it appears in a response.
pub open spec fn spec_refs_of_record(rs: Seq<crate::record::Reference>) -> Seq<
    (Seq<char>, Seq<Seq<char>>),
> {
    rs.map_values(|r: crate::record::Reference| (r.url@, strings_views(r.tags@)))
}

/// The CVSS block a record projects to: each tier's vector string, base
/// score, impact score and severity, where present.
pub open spec fn spec_cvss_of_record(imp: crate::record::Impact) -> (
    Option<(Seq<char>, Seq<char>, Seq<char>, Seq<char>)>,
    Option<(Seq<char>, Seq<char>, Seq<char>, Seq<char>)>,
) {
    (
        match imp.metric_v3 {
            Some(m) => Some(
                (m.cvss.vector_string@, m.cvss.base_score@, m.impact_score@, m.cvss.base_severity@),
            ),
            None => None,
        },
        match imp.metric_v2 {
            Some(m) => Some(
                (m.cvss.vector_string@, m.cvss.base_score@, m.impact_score@, m.severity@),
            ),
            None => None,
        },
    )
}

/// The response entry a matching record projects to: everything from the
/// record except the vendor and product, which come from the stored row.
pub open spec fn spec_project(meta: CveMeta, rec: CveRecord) -> (
    Seq<char>,
    Seq<char>,
    Seq<char>,
    Seq<char>,
    Option<Seq<char>>,
    Seq<(Seq<char>, Seq<Seq<char>>)>,
    Seq<Seq<char>>,
    Seq<char>,
    Seq<char>,
    (Option<(Seq<char>, Seq<char>, Seq<char>, Seq<char>)>, Option<
        (Seq<char>, Seq<char>, Seq<char>, Seq<char>),
    >),
) {
    (
        rec.cve.meta.id@,
        "NIST"@,
        meta.vendor@,
        meta.product@,
        spec_summary(rec.cve.description.description_data@),
        spec_refs_of_record(rec.cve.references.reference_data@),
        spec_problems(rec.cve.problem_type.problem_type_data@),
        rec.published_date@,
        rec.last_modified_date@,
        spec_cvss_of_record(rec.impact),
    )
}

/// Project a matching record into a response entry under the stored row's
/// vendor and product.
fn project(meta: &CveMeta, rec: &CveRecord) -> (m: MatchedCVE)
    ensures
        matched_cve_view(m) == spec_project(*meta, *rec),
{
    let summary = match rec.summary() {
        Some(s) => Some(s.clone()),
        None => None,
    };
    let rs = &rec.cve.references.reference_data;
    let mut references: Vec<Reference> = Vec::new();
    let mut i: usize = 0;
    while i < rs.len()
        invariant
            i <= rs@.len(),
            rs@ == rec.cve.references.reference_data@,
            references@.len() == i,
            forall|j: int|
                0 <= j < i ==> reference_view(references@[j]) == spec_refs_of_record(rs@)[j],
        decreases rs@.len() - i,
    {
        let q = Reference { url: rs[i].url.clone(), tags: dup_strings(&rs[i].tags) };
        references.push(q);
        i += 1;
    }
    proof {
        assert(refs_view(references@) =~= spec_refs_of_record(rs@));
    }
    let problems = rec.problems();
    let v3 = match &rec.impact.metric_v3 {
        Some(m3) => Some(
            CVSSVData {
                vector_string: m3.cvss.vector_string.clone(),
                base_score: m3.cvss.base_score.clone(),
                impact_score: m3.impact_score.clone(),
                severity: m3.cvss.base_severity.clone(),
            },
        ),
        None => None,
    };
    let v2 = match &rec.impact.metric_v2 {
        Some(m2) => Some(
            CVSSVData {
                vector_string: m2.cvss.vector_string.clone(),
                base_score: m2.cvss.base_score.clone(),
                impact_score: m2.impact_score.clone(),
                severity: m2.severity.clone(),
            },
        ),
        None => None,
    };
    MatchedCVE {
        cve: rec.id().clone(),
        source: String::from_str("NIST"),
        vendor: meta.vendor.clone(),
        product: meta.product.clone(),
        summary,
        references,
        problems,
        published_date: rec.published_date.clone(),
        last_modified_date: rec.last_modified_date.clone(),
        cvss: CVSS { v3, v2 },
    }
}

/// The first failing candidate from position `i` on: an unknown source tag,
/// or a record that could not be reconstituted.
pub open spec fn spec_scan_error(cs: Seq<Candidate>, i: int) -> Option<EngineError>
    decreases cs.len() - i,
{
    if i < 0 || i >= cs.len() {
        None
    } else if cs[i].meta.source@ != "NIST"@ {
        Some(EngineError::UnsupportedSource(cs[i].meta.source))
    } else if cs[i].record is None {
        Some(EngineError::Deserialization(cs[i].meta.cve))
    } else {
        spec_scan_error(cs, i + 1)
    }
}

/// The response views of the matching candidates among the first `i`, in
/// candidate order.
pub open spec fn spec_results_upto(
    cs: Seq<Candidate>,
    product: Seq<char>,
    version: Seq<char>,
    i: int,
) -> Seq<
    (
        Seq<char>,
        Seq<char>,
        Seq<char>,
        Seq<char>,
        Option<Seq<char>>,
        Seq<(Seq<char>, Seq<Seq<char>>)>,
        Seq<Seq<char>>,
        Seq<char>,
        Seq<char>,
        (Option<(Seq<char>, Seq<char>, Seq<char>, Seq<char>)>, Option<
            (Seq<char>, Seq<char>, Seq<char>, Seq<char>),
        >),
    ),
>
    decreases i,
{
    if i <= 0 {
        Seq::empty()
    } else {
        let pre = spec_results_upto(cs, product, version, i - 1);
        match cs[i - 1].record {
            Some(rec) => if spec_record_matches(rec, product, version) {
                pre.push(spec_project(cs[i - 1].meta, rec))
            } else {
                pre
            },
            None => pre,
        }
    }
}

/// The full response of a query over a candidate list.
pub open spec fn spec_query_results(cs: Seq<Candidate>, product: Seq<char>, version: Seq<char>) -> Seq<
    (
        Seq<char>,
        Seq<char>,
        Seq<char>,
        Seq<char>,
        Option<Seq<char>>,
        Seq<(Seq<char>, Seq<Seq<char>>)>,
        Seq<Seq<char>>,
        Seq<char>,
        Seq<char>,
        (Option<(Seq<char>, Seq<char>, Seq<char>, Seq<char>)>, Option<
            (Seq<char>, Seq<char>, Seq<char>, Seq<char>),
        >),
    ),
> {
    spec_results_upto(cs, product, version, cs.len() as int)
}

/// Copy a query, value for value.
pub fn dup_query(q: &Query) -> (r: Query)
    ensures
        query_key(r) == query_key(*q),
{
    Query {
        vendor: dup_opt_string(&q.vendor),
        product: q.product.clone(),
        version: q.version.clone(),
    }
}

/// The first step of a query: reject an unparseable version before
/// anything else, then consult the cache. A hit answers the query; a miss
/// asks the caller to fetch the candidate rows.
#[derive(Debug)]
pub enum QueryOutcome {
    CacheHit(Vec<MatchedCVE>),
    NeedCandidates,
}

/// Validate the query's version string and consult the cache. The version
/// is rejected if and only if it does not parse; storage is only ever
/// consulted after a miss.
pub fn query_begin(cache: &mut ResultCache, q: &Query) -> (r: Result<QueryOutcome, EngineError>)
    requires
        cache_inv(*old(cache)),
    ensures
        cache_inv(*final (cache)),
        final (cache).cap == old(cache).cap,
        r is Err <==> !version_parses(q.version@),
        r matches Err(e) ==> e is InvalidQuery && final (cache).entries@ == old(cache).entries@,
        r matches Ok(o) ==> match o {
            QueryOutcome::CacheHit(v) => {
                &&& cache_contains(old(cache).entries@, query_key(*q))
                &&& Some(matched_list_view(v@)) == cache_lookup(
                    old(cache).entries@,
                    query_key(*q),
                )
                &&& final (cache).entries@ == spec_bump(
                    old(cache).entries@,
                    cache_index(old(cache).entries@, query_key(*q)),
                )
            },
            QueryOutcome::NeedCandidates => {
                &&& !cache_contains(old(cache).entries@, query_key(*q))
                &&& final (cache).entries@ == old(cache).entries@
            },
        },
{
    if !version_is_valid(q.version.as_str()) {
        return Err(EngineError::InvalidQuery);
    }
    match cache.get(q) {
        Some(v) => Ok(QueryOutcome::CacheHit(v)),
        None => Ok(QueryOutcome::NeedCandidates),
    }
}

/// Evaluate fetched candidates: reject an unparseable version, abort on
/// the first candidate with an unknown source tag or an unreadable record,
/// else project every matching record in candidate order. Touches no
/// shared state, so a caller can run it outside the cache lock.
pub fn evaluate_candidates(q: &Query, candidates: Vec<Candidate>) -> (r: Result<
    Vec<MatchedCVE>,
    EngineError,
>)
    ensures
        !version_parses(q.version@) ==> (r matches Err(e) && e is InvalidQuery),
        version_parses(q.version@) && spec_scan_error(candidates@, 0) is Some ==> (r matches Err(e)
            && Some(e) == spec_scan_error(candidates@, 0)),
        version_parses(q.version@) && spec_scan_error(candidates@, 0) is None ==> (r matches Ok(v)
            && matched_list_view(v@) == spec_query_results(candidates@, q.product@, q.version@)),
{
    if !version_is_valid(q.version.as_str()) {
        return Err(EngineError::InvalidQuery);
    }
    let mut out: Vec<MatchedCVE> = Vec::new();
    let mut i: usize = 0;
    while i < candidates.len()
        invariant
            i <= candidates@.len(),
            version_parses(q.version@),
            spec_scan_error(candidates@, 0) == spec_scan_error(candidates@, i as int),
            matched_list_view(out@) == spec_results_upto(
                candidates@,
                q.product@,
                q.version@,
                i as int,
            ),
        decreases candidates@.len() - i,
    {
        let c = &candidates[i];
        if !str_eq(c.meta.source.as_str(), "NIST") {
            return Err(EngineError::UnsupportedSource(c.meta.source.clone()));
        }
        match &c.record {
            None => {
                return Err(EngineError::Deserialization(c.meta.cve.clone()));
            },
            Some(rec) => {
                if rec.is_match(q.product.as_str(), q.version.as_str()) {
                    let m = project(&c.meta, rec);
                    out.push(m);
                    proof {
                        assert(matched_list_view(out@) =~= spec_results_upto(
                            candidates@,
                            q.product@,
                            q.version@,
                            i as int + 1,
                        ));
                    }
                } else {
                    proof {
                        assert(matched_list_view(out@) =~= spec_results_upto(
                            candidates@,
                            q.product@,
                            q.version@,
                            i as int + 1,
                        ));
                    }
                }
            },
        }
        i += 1;
    }
    Ok(out)
}

/// Store a query's result list in the cache: afterwards the query's key
/// answers with exactly this list. The critical section is this call
/// alone; evaluation happens before it, outside any lock.
pub fn query_store(cache: &mut ResultCache, q: &Query, results: &Vec<MatchedCVE>)
    requires
        cache_inv(*old(cache)),
    ensures
        cache_inv(*final (cache)),
        final (cache).cap == old(cache).cap,
        cache_lookup(final (cache).entries@, query_key(*q)) == Some(matched_list_view(results@)),
{
    let stored = duplicate_matched_list(results);
    let q2 = dup_query(q);
    let ghost pre_entries = cache.entries@;
    let ghost e = (CacheEntry { query: q2, cves: stored });
    cache.put(q2, stored);
    proof {
        lemma_cache_put_lookup(pre_entries, cache.cap as int, e);
    }
}

/// The whole tail of the query protocol after a cache miss: evaluate the
/// candidates, and on success store the result under the query before
/// returning it.
pub fn query_finish(cache: &mut ResultCache, q: &Query, candidates: Vec<Candidate>) -> (r: Result<
    Vec<MatchedCVE>,
    EngineError,
>)
    requires
        cache_inv(*old(cache)),
    ensures
        cache_inv(*final (cache)),
        final (cache).cap == old(cache).cap,
        !version_parses(q.version@) ==> (r matches Err(e) && e is InvalidQuery) && final (
        cache).entries@ == old(cache).entries@,
        version_parses(q.version@) && spec_scan_error(candidates@, 0) is Some ==> (r matches Err(e)
            && Some(e) == spec_scan_error(candidates@, 0)) && final (cache).entries@ == old(
        cache).entries@,
        version_parses(q.version@) && spec_scan_error(candidates@, 0) is None ==> (r matches Ok(v)
            && matched_list_view(v@) == spec_query_results(candidates@, q.product@, q.version@)
            && cache_lookup(final (cache).entries@, query_key(*q)) == Some(matched_list_view(v@))),
{
    match evaluate_candidates(q, candidates) {
        Ok(v) => {
            query_store(cache, q, &v);
            Ok(v)
        },
        Err(e) => Err(e),
    }
}

} // verus!
