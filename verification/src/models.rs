//! The stored representation: an object row per record (its JSON), and one
//! CVE row per (vendor, product) pair the record names.

use vstd::prelude::*;

use crate::engine::{
    dup_opt_string, dup_references, opt_string_view, refs_view, spec_refs_of_record, Reference,
};
use crate::node::{product_key, Product};
use crate::record::{spec_score_severity_vector, spec_summary, CveRecord};

verus! {

/// A stored object row: the record's JSON under its CVE id.
#[derive(Debug, Clone)]
pub struct Object {
    pub id: i32,
    pub cve: String,
    pub data: String,
}

/// A new object row, before the store assigns an id.
#[derive(Debug, Clone)]
pub struct NewObject {
    pub cve: String,
    pub data: String,
}

impl NewObject {
    /// A row holding exactly the given id and JSON text.
    pub fn with(cve: String, data: String) -> (r: NewObject)
        ensures
            r.cve == cve,
            r.data == data,
    {
        NewObject { cve, data }
    }
}

/// A new CVE row: the key tuple, the projected summary and scoring, the
/// references, and the object row it belongs to.
#[derive(Debug, Clone)]
pub struct NewCVE {
    pub source: String,
    pub vendor: String,
    pub product: String,
    pub cve: String,
    pub summary: String,
    pub score: String,
    pub severity: String,
    pub vector: Option<String>,
    pub references: Vec<Reference>,
    pub object_id: Option<i32>,
}

/// The abstract value of a CVE row.
pub open spec fn spec_row_view(c: NewCVE) -> (
    Seq<char>,
    Seq<char>,
    Seq<char>,
    Seq<char>,
    Seq<char>,
    Seq<char>,
    Seq<char>,
    Option<Seq<char>>,
    Seq<(Seq<char>, Seq<Seq<char>>)>,
    Option<i32>,
) {
    (
        c.source@,
        c.vendor@,
        c.product@,
        c.cve@,
        c.summary@,
        c.score@,
        c.severity@,
        opt_string_view(c.vector),
        refs_view(c.references@),
        c.object_id,
    )
}

/// The row a record yields for one of its (vendor, product) keys.
pub open spec fn spec_record_row(
    rec: CveRecord,
    pk: (Seq<char>, Seq<char>),
    object_id: Option<i32>,
) -> (
    Seq<char>,
    Seq<char>,
    Seq<char>,
    Seq<char>,
    Seq<char>,
    Seq<char>,
    Seq<char>,
    Option<Seq<char>>,
    Seq<(Seq<char>, Seq<Seq<char>>)>,
    Option<i32>,
) {
    let ssv = spec_score_severity_vector(rec);
    (
        "NIST"@,
        pk.0,
        pk.1,
        rec.cve.meta.id@,
        match spec_summary(rec.cve.description.description_data@) {
            Some(s) => s,
            None => Seq::empty(),
        },
        ssv.0,
        ssv.1,
        ssv.2,
        spec_refs_of_record(rec.cve.references.reference_data@),
        object_id,
    )
}

impl NewCVE {
    /// A row holding exactly the given values.
    #[allow(clippy::too_many_arguments)]
    pub fn with(
        source: String,
        vendor: String,
        product: String,
        cve: String,
        summary: String,
        score: String,
        severity: String,
        vector: Option<String>,
        references: Vec<Reference>,
        object_id: Option<i32>,
    ) -> (r: NewCVE)
        ensures
            r == (NewCVE {
                source,
                vendor,
                product,
                cve,
                summary,
                score,
                severity,
                vector,
                references,
                object_id,
            }),
    {
        NewCVE {
            source,
            vendor,
            product,
            cve,
            summary,
            score,
            severity,
            vector,
            references,
            object_id,
        }
    }
}

/// The CVE rows a record contributes: one per given (vendor, product)
/// pair, each carrying the record's id, summary, preferred scoring tier
/// and references, under the `NIST` source tag.
pub fn nist_record_rows(rec: &CveRecord, products: &Vec<Product>, object_id: Option<i32>) -> (r:
    Vec<NewCVE>)
    ensures
        r@.len() == products@.len(),
        forall|i: int|
            0 <= i < products@.len() ==> spec_row_view(r@[i]) == spec_record_row(
                *rec,
                product_key(products@[i]),
                object_id,
            ),
{
    let summary = match rec.summary() {
        Some(s) => s.clone(),
        None => String::new(),
    };
    let (score, severity, vector) = rec.extract_cve_score_severity_vector();
    let rs = &rec.cve.references.reference_data;
    let mut refs: Vec<Reference> = Vec::new();
    let mut i: usize = 0;
    while i < rs.len()
        invariant
            i <= rs@.len(),
            rs@ == rec.cve.references.reference_data@,
            refs@.len() == i,
            forall|j: int|
                0 <= j < i ==> crate::engine::reference_view(refs@[j]) == spec_refs_of_record(
                    rs@,
                )[j],
        decreases rs@.len() - i,
    {
        let q = Reference {
            url: rs[i].url.clone(),
            tags: crate::engine::dup_strings(&rs[i].tags),
        };
        refs.push(q);
        i += 1;
    }
    proof {
        assert(refs_view(refs@) =~= spec_refs_of_record(rs@));
    }
    let mut rows: Vec<NewCVE> = Vec::new();
    let mut p: usize = 0;
    while p < products.len()
        invariant
            p <= products@.len(),
            rows@.len() == p,
            refs_view(refs@) == spec_refs_of_record(rec.cve.references.reference_data@),
            summary@ == match spec_summary(rec.cve.description.description_data@) {
                Some(s) => s,
                None => Seq::<char>::empty(),
            },
            (score@, severity@, opt_string_view(vector)) == spec_score_severity_vector(*rec),
            forall|j: int|
                0 <= j < p ==> spec_row_view(rows@[j]) == spec_record_row(
                    *rec,
                    product_key(products@[j]),
                    object_id,
                ),
        decreases products@.len() - p,
    {
        let row = NewCVE {
            source: String::from_str("NIST"),
            vendor: products[p].vendor.clone(),
            product: products[p].product.clone(),
            cve: rec.id().clone(),
            summary: summary.clone(),
            score: score.clone(),
            severity: severity.clone(),
            vector: dup_opt_string(&vector),
            references: dup_references(&refs),
            object_id,
        };
        rows.push(row);
        p += 1;
    }
    rows
}

} // verus!
