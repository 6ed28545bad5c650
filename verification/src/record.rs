//! A vulnerability record as stored from the NVD feed: metadata,
//! descriptions, weakness identifiers, impact metrics, and the configuration
//! tree that decides which products and versions are affected.
//!
//! Impact scores travel through the library as the decimal strings of the
//! feed; nothing here computes on them.

use vstd::prelude::*;

use crate::node::{
    merge_unique, products_key_set, products_unique, spec_nodes_products_upto, Node, Product,
};
use crate::strutil::str_eq;

verus! {

/// Record metadata: the CVE id and its optional assigner.
#[derive(Debug, Clone)]
pub struct Meta {
    pub id: String,
    pub assigner: Option<String>,
}

/// A reference to further information: a URL with a name and tags.
#[derive(Debug, Clone)]
pub struct Reference {
    pub url: String,
    pub name: String,
    pub tags: Vec<String>,
}

/// The list of references of a record.
#[derive(Debug, Clone)]
pub struct References {
    pub reference_data: Vec<Reference>,
}

/// One description text with its language tag.
#[derive(Debug, Clone)]
pub struct DescriptionData {
    pub lang: String,
    pub value: String,
}

/// The descriptions of a record.
#[derive(Debug, Clone)]
pub struct Description {
    pub description_data: Vec<DescriptionData>,
}

/// One weakness description with its language tag.
#[derive(Debug, Clone)]
pub struct ProblemTypeDescription {
    pub lang: String,
    pub value: String,
}

/// A group of weakness descriptions.
#[derive(Debug, Clone)]
pub struct ProblemTypeDataItem {
    pub description: Vec<ProblemTypeDescription>,
}

/// The weakness identifiers of a record.
#[derive(Debug, Clone)]
pub struct ProblemType {
    pub problem_type_data: Vec<ProblemTypeDataItem>,
}

/// The `cve` object of a record: metadata, references, descriptions and
/// weakness identifiers.
#[derive(Debug, Clone)]
pub struct Info {
    pub meta: Meta,
    pub references: References,
    pub description: Description,
    pub problem_type: ProblemType,
}

/// CVSS v2 base metrics; scores are kept as the feed's decimal strings.
#[derive(Debug, Clone)]
pub struct CVSSV2 {
    pub version: String,
    pub vector_string: String,
    pub access_vector: String,
    pub access_complexity: String,
    pub authentication: String,
    pub confidentiality_impact: String,
    pub integrity_impact: String,
    pub availability_impact: String,
    pub base_score: String,
}

/// CVSS v3 base metrics; scores are kept as the feed's decimal strings.
#[derive(Debug, Clone)]
pub struct CVSSV3 {
    pub version: String,
    pub vector_string: String,
    pub attack_vector: String,
    pub attack_complexity: String,
    pub privileges_required: String,
    pub user_interaction: String,
    pub scope: String,
    pub confidentiality_impact: String,
    pub integrity_impact: String,
    pub availability_impact: String,
    pub base_score: String,
    pub base_severity: String,
}

/// The v2 impact tier of a record.
#[derive(Debug, Clone)]
pub struct ImpactMetricV2 {
    pub cvss: CVSSV2,
    pub exploitability_score: String,
    pub impact_score: String,
    pub severity: String,
    pub ac_insuf_info: Option<bool>,
    pub obtain_all_privilege: bool,
    pub obtain_user_privilege: bool,
    pub obtain_other_privilege: bool,
    pub user_interaction_required: Option<bool>,
}

/// The v3 impact tier of a record.
#[derive(Debug, Clone)]
pub struct ImpactMetricV3 {
    pub cvss: CVSSV3,
    pub exploitability_score: String,
    pub impact_score: String,
}

/// The impact metrics of a record; either tier may be absent.
#[derive(Debug, Clone)]
pub struct Impact {
    pub metric_v2: Option<ImpactMetricV2>,
    pub metric_v3: Option<ImpactMetricV3>,
}

/// The configuration trees of a record; their roots are joined by OR.
#[derive(Debug)]
pub struct Configurations {
    pub data_version: String,
    pub nodes: Vec<Node>,
}

/// A full vulnerability record.
#[derive(Debug)]
pub struct CveRecord {
    pub cve: Info,
    pub impact: Impact,
    pub configurations: Configurations,
    pub published_date: String,
    pub last_modified_date: String,
}

/// The first English description from position `i` on, if any.
pub open spec fn spec_summary_from(ds: Seq<DescriptionData>, i: int) -> Option<Seq<char>>
    decreases ds.len() - i,
{
    if i < 0 || i >= ds.len() {
        None
    } else if ds[i].lang@ == "en"@ {
        Some(ds[i].value@)
    } else {
        spec_summary_from(ds, i + 1)
    }
}

/// The record summary: the first description tagged `en`, if any.
pub open spec fn spec_summary(ds: Seq<DescriptionData>) -> Option<Seq<char>> {
    spec_summary_from(ds, 0)
}

/// The texts of one weakness group, in order.
pub open spec fn spec_item_values(ds: Seq<ProblemTypeDescription>) -> Seq<Seq<char>> {
    ds.map_values(|d: ProblemTypeDescription| d.value@)
}

/// The flattened weakness texts of the first `i` groups.
pub open spec fn spec_problems_upto(items: Seq<ProblemTypeDataItem>, i: int) -> Seq<Seq<char>>
    decreases i,
{
    if i <= 0 {
        Seq::empty()
    } else {
        spec_problems_upto(items, i - 1) + spec_item_values(items[i - 1].description@)
    }
}

/// All weakness texts of a record, flattened in order.
pub open spec fn spec_problems(items: Seq<ProblemTypeDataItem>) -> Seq<Seq<char>> {
    spec_problems_upto(items, items.len() as int)
}

/// The views of a vector of strings.
pub open spec fn strings_views(s: Seq<String>) -> Seq<Seq<char>> {
    s.map_values(|x: String| x@)
}

/// What the score accessor yields: the v3 tier when present, else the v2
/// tier, else the zero score with an empty severity and no vector.
pub open spec fn spec_score_severity_vector(r: CveRecord) -> (Seq<char>, Seq<char>, Option<
    Seq<char>,
>) {
    if r.impact.metric_v3 is Some {
        let v3 = r.impact.metric_v3->0;
        (v3.cvss.base_score@, v3.cvss.base_severity@, Some(v3.cvss.attack_vector@))
    } else if r.impact.metric_v2 is Some {
        let v2 = r.impact.metric_v2->0;
        (v2.cvss.base_score@, v2.severity@, Some(v2.cvss.access_vector@))
    } else {
        ("0.0"@, Seq::empty(), None)
    }
}

/// A record matches a pair when any of its configuration roots does: the
/// roots are joined by OR.
pub open spec fn spec_record_matches(r: CveRecord, product: Seq<char>, version: Seq<char>) -> bool {
    exists|i: int|
        0 <= i < r.configurations.nodes@.len() && crate::node::spec_node_matches(
            r.configurations.nodes@[i],
            product,
            version,
        )
}

/// The set of (vendor, product) keys over all configuration roots.
pub open spec fn spec_record_products(r: CveRecord) -> Set<(Seq<char>, Seq<char>)> {
    spec_nodes_products_upto(r.configurations.nodes@, r.configurations.nodes@.len() as int)
}

impl CveRecord {
    /// A record is complete when it has at least one configuration root.
    pub fn is_complete(&self) -> (r: bool)
        ensures
            r == (self.configurations.nodes@.len() > 0),
    {
        self.configurations.nodes.len() > 0
    }

    /// The CVE id of the record.
    pub fn id(&self) -> (r: &String)
        ensures
            r@ == self.cve.meta.id@,
    {
        &self.cve.meta.id
    }

    /// The first description tagged `en`, if any.
    pub fn summary(&self) -> (r: Option<&String>)
        ensures
            match r {
                Some(v) => spec_summary(self.cve.description.description_data@) == Some(v@),
                None => spec_summary(self.cve.description.description_data@) is None,
            },
    {
        let ds = &self.cve.description.description_data;
        let mut i: usize = 0;
        while i < ds.len()
            invariant
                i <= ds@.len(),
                ds@ == self.cve.description.description_data@,
                spec_summary_from(ds@, 0) == spec_summary_from(ds@, i as int),
            decreases ds@.len() - i,
        {
            if str_eq(ds[i].lang.as_str(), "en") {
                return Some(&ds[i].value);
            }
            i += 1;
        }
        None
    }

    /// All weakness texts, flattened group by group.
    pub fn problems(&self) -> (r: Vec<String>)
        ensures
            strings_views(r@) == spec_problems(self.cve.problem_type.problem_type_data@),
    {
        let items = &self.cve.problem_type.problem_type_data;
        let mut out: Vec<String> = Vec::new();
        proof {
            assert(strings_views(out@) =~= spec_problems_upto(items@, 0));
        }
        let mut i: usize = 0;
        while i < items.len()
            invariant
                i <= items@.len(),
                items@ == self.cve.problem_type.problem_type_data@,
                strings_views(out@) == spec_problems_upto(items@, i as int),
            decreases items@.len() - i,
        {
            let ds = &items[i].description;
            let mut l: usize = 0;
            while l < ds.len()
                invariant
                    l <= ds@.len(),
                    items@ == self.cve.problem_type.problem_type_data@,
                    i < items@.len(),
                    ds@ == items@[i as int].description@,
                    strings_views(out@) == spec_problems_upto(items@, i as int) + spec_item_values(
                        ds@,
                    ).subrange(0, l as int),
                decreases ds@.len() - l,
            {
                let ghost before = out@;
                let v = ds[l].value.clone();
                proof {
                    assert(v@ == ds@[l as int].value@);
                }
                out.push(v);
                proof {
                    assert(out@ == before.push(ds@[l as int].value));
                    assert(strings_views(before.push(ds@[l as int].value)) =~= strings_views(
                        before,
                    ).push(ds@[l as int].value@));
                    assert(spec_item_values(ds@).subrange(0, l as int + 1) =~= spec_item_values(
                        ds@,
                    ).subrange(0, l as int).push(ds@[l as int].value@));
                    assert(strings_views(out@) =~= spec_problems_upto(items@, i as int)
                        + spec_item_values(ds@).subrange(0, l as int + 1));
                }
                l += 1;
            }
            proof {
                assert(spec_item_values(ds@).subrange(0, ds@.len() as int) =~= spec_item_values(
                    ds@,
                ));
                assert(strings_views(out@) =~= spec_problems_upto(items@, i as int + 1));
            }
            i += 1;
        }
        out
    }

    /// The distinct (vendor, product) keys over every predicate of every
    /// configuration root.
    pub fn collect_unique_products(&self) -> (r: Vec<Product>)
        ensures
            products_unique(r@),
            products_key_set(r@) == spec_record_products(*self),
    {
        let roots = &self.configurations.nodes;
        let mut products: Vec<Product> = Vec::new();
        proof {
            assert(products_key_set(products@) =~= spec_nodes_products_upto(roots@, 0));
        }
        let mut i: usize = 0;
        while i < roots.len()
            invariant
                i <= roots@.len(),
                roots@ == self.configurations.nodes@,
                products_unique(products@),
                products_key_set(products@) == spec_nodes_products_upto(roots@, i as int),
            decreases roots@.len() - i,
        {
            let from_root = roots[i].collect_unique_products();
            merge_unique(&mut products, &from_root);
            i += 1;
        }
        products
    }

    /// The score, severity and vector of the preferred impact tier: v3 when
    /// present, else v2, else `0.0` with empty severity and no vector.
    pub fn extract_cve_score_severity_vector(&self) -> (r: (String, String, Option<String>))
        ensures
            (r.0@, r.1@, match r.2 {
                Some(v) => Some(v@),
                None => None,
            }) == spec_score_severity_vector(*self),
    {
        if let Some(v3) = &self.impact.metric_v3 {
            let score = v3.cvss.base_score.clone();
            let severity = v3.cvss.base_severity.clone();
            let vector = Some(v3.cvss.attack_vector.clone());
            (score, severity, vector)
        } else if let Some(v2) = &self.impact.metric_v2 {
            let score = v2.cvss.base_score.clone();
            let severity = v2.severity.clone();
            let vector = Some(v2.cvss.access_vector.clone());
            (score, severity, vector)
        } else {
            (String::from_str("0.0"), String::new(), None)
        }
    }

    /// Whether any configuration root covers the (product, version) pair.
    pub fn is_match(&self, product: &str, version: &str) -> (r: bool)
        ensures
            r == spec_record_matches(*self, product@, version@),
    {
        let roots = &self.configurations.nodes;
        let mut i: usize = 0;
        while i < roots.len()
            invariant
                i <= roots@.len(),
                roots@ == self.configurations.nodes@,
                forall|j: int|
                    0 <= j < i ==> !crate::node::spec_node_matches(roots@[j], product@, version@),
            decreases roots@.len() - i,
        {
            if roots[i].is_match(product, version) {
                return true;
            }
            i += 1;
        }
        false
    }
}

} // verus!
