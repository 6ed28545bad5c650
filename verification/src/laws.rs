//! The matching algebra, stated on its own: what the wildcard components
//! decide, and how leaves, internal nodes and record roots combine their
//! parts.

use vstd::prelude::*;

use crate::cpe::{spec_product_match, spec_version_match, CPE23};
use crate::node::{spec_match_matches, spec_node_matches, Node};
use crate::record::{spec_record_matches, CveRecord};

verus! {

/// A wildcard product accepts every queried product; a not-applicable
/// product accepts none.
pub proof fn lemma_product_match_wildcards(c: CPE23, product: Seq<char>)
    ensures
        c.product is Any ==> spec_product_match(c, product),
        c.product is NotApplicable ==> !spec_product_match(c, product),
{
}

/// A wildcard version accepts every queried version; a not-applicable
/// version accepts none.
pub proof fn lemma_version_match_wildcards(c: CPE23, version: Seq<char>)
    ensures
        c.version is Any ==> spec_version_match(c, version),
        c.version is NotApplicable ==> !spec_version_match(c, version),
{
}

/// An OR leaf holds exactly when some predicate of it holds.
pub proof fn lemma_leaf_or(n: Node, product: Seq<char>, version: Seq<char>)
    requires
        n.cpe_match@.len() > 0,
        n.operator is Or,
    ensures
        spec_node_matches(n, product, version) <==> exists|i: int|
            0 <= i < n.cpe_match@.len() && spec_match_matches(n.cpe_match@[i], product, version),
{
}

/// An AND leaf holds exactly when every predicate of it holds.
pub proof fn lemma_leaf_and(n: Node, product: Seq<char>, version: Seq<char>)
    requires
        n.cpe_match@.len() > 0,
        n.operator is And,
    ensures
        spec_node_matches(n, product, version) <==> forall|i: int|
            0 <= i < n.cpe_match@.len() ==> spec_match_matches(n.cpe_match@[i], product, version),
{
}

/// An internal OR node holds exactly when some child holds: the connective
/// applies to children just as it applies to a leaf's predicates.
pub proof fn lemma_internal_or(n: Node, product: Seq<char>, version: Seq<char>)
    requires
        n.cpe_match@.len() == 0,
        n.children@.len() > 0,
        n.operator is Or,
    ensures
        spec_node_matches(n, product, version) <==> exists|i: int|
            0 <= i < n.children@.len() && spec_node_matches(n.children@[i], product, version),
{
}

/// An internal AND node holds exactly when every child holds.
pub proof fn lemma_internal_and(n: Node, product: Seq<char>, version: Seq<char>)
    requires
        n.cpe_match@.len() == 0,
        n.children@.len() > 0,
        n.operator is And,
    ensures
        spec_node_matches(n, product, version) <==> forall|i: int|
            0 <= i < n.children@.len() ==> spec_node_matches(n.children@[i], product, version),
{
}

/// A record matches exactly when one of its configuration roots does: the
/// roots are joined by OR.
pub proof fn lemma_roots_or(r: CveRecord, product: Seq<char>, version: Seq<char>)
    ensures
        spec_record_matches(r, product, version) <==> exists|i: int|
            0 <= i < r.configurations.nodes@.len() && spec_node_matches(
                r.configurations.nodes@[i],
                product,
                version,
            ),
{
}

} // verus!
