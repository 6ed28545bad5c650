//! Match predicates and the recursive AND/OR configuration tree that decides
//! whether a (product, version) pair is covered by a record.

use vstd::prelude::*;

use crate::component::spec_component_render;
use crate::cpe::{spec_product_match, spec_version_match, CPE23};
use crate::strutil::str_eq;
use crate::versioncmp::{spec_version_cmp, version_cmp, CmpOp};

verus! {

/// A (vendor, product) pair, as stored alongside each record.
#[derive(Debug, Clone, PartialEq, Eq, Hash)]
pub struct Product {
    pub vendor: String,
    pub product: String,
}

/// The pair of rendered texts that identifies a `Product`.
pub open spec fn product_key(p: Product) -> (Seq<char>, Seq<char>) {
    (p.vendor@, p.product@)
}

/// A single match predicate: one CPE plus an optional version range.
#[derive(Debug, Clone)]
pub struct Match {
    pub vulnerable: bool,
    pub cpe23: CPE23,
    pub version_start_including: Option<String>,
    pub version_start_excluding: Option<String>,
    pub version_end_including: Option<String>,
    pub version_end_excluding: Option<String>,
}

/// Whether at least one of the four version bounds is present.
pub open spec fn spec_has_version_range(m: Match) -> bool {
    ||| m.version_start_including is Some
    ||| m.version_start_excluding is Some
    ||| m.version_end_including is Some
    ||| m.version_end_excluding is Some
}

/// Every present bound must hold, fail-closed: inclusive start means
/// `v >= bound`, exclusive start `v > bound`, and dually for the ends.
pub open spec fn spec_version_range_matches(m: Match, v: Seq<char>) -> bool {
    &&& (m.version_start_including matches Some(b) ==> spec_version_cmp(v, b@, CmpOp::Ge))
    &&& (m.version_start_excluding matches Some(b) ==> spec_version_cmp(v, b@, CmpOp::Gt))
    &&& (m.version_end_including matches Some(b) ==> spec_version_cmp(v, b@, CmpOp::Le))
    &&& (m.version_end_excluding matches Some(b) ==> spec_version_cmp(v, b@, CmpOp::Lt))
}

/// A predicate covers a pair when the product matches and either the version
/// range (if any bound is present) or the CPE's own version accepts the
/// version. The `vulnerable` flag is not consulted.
pub open spec fn spec_match_matches(m: Match, product: Seq<char>, version: Seq<char>) -> bool {
    &&& spec_product_match(m.cpe23, product)
    &&& if spec_has_version_range(m) {
        spec_version_range_matches(m, version)
    } else {
        spec_version_match(m.cpe23, version)
    }
}

/// The (vendor, product) key a predicate contributes: the raw rendered
/// vendor and product of its CPE, without `target_sw` composition.
pub open spec fn spec_product_key(m: Match) -> (Seq<char>, Seq<char>) {
    (spec_component_render(m.cpe23.vendor), spec_component_render(m.cpe23.product))
}

impl Match {
    /// Whether any of the four version bounds is present.
    pub fn has_version_range(&self) -> (r: bool)
        ensures
            r == spec_has_version_range(*self),
    {
        self.version_start_including.is_some() || self.version_start_excluding.is_some()
            || self.version_end_including.is_some() || self.version_end_excluding.is_some()
    }

    /// Test the version against every present bound; fail-closed.
    pub fn version_range_matches(&self, ver: &str) -> (r: bool)
        ensures
            r == spec_version_range_matches(*self, ver@),
    {
        if let Some(start_inc) = &self.version_start_including {
            if !version_cmp(ver, start_inc.as_str(), CmpOp::Ge) {
                return false;
            }
        }
        if let Some(start_exc) = &self.version_start_excluding {
            if !version_cmp(ver, start_exc.as_str(), CmpOp::Gt) {
                return false;
            }
        }
        if let Some(end_inc) = &self.version_end_including {
            if !version_cmp(ver, end_inc.as_str(), CmpOp::Le) {
                return false;
            }
        }
        if let Some(end_exc) = &self.version_end_excluding {
            if !version_cmp(ver, end_exc.as_str(), CmpOp::Lt) {
                return false;
            }
        }
        true
    }

    /// The stored (vendor, product) key of this predicate's CPE.
    pub fn product(&self) -> (r: Product)
        ensures
            product_key(r) == spec_product_key(*self),
    {
        Product {
            vendor: self.cpe23.vendor.to_string(),
            product: self.cpe23.product.to_string(),
        }
    }

    /// Whether this predicate covers the (product, version) pair.
    pub fn is_match(&self, product: &str, version: &str) -> (r: bool)
        ensures
            r == spec_match_matches(*self, product@, version@),
    {
        if self.cpe23.is_product_match(product) {
            if self.has_version_range() {
                return self.version_range_matches(version);
            }
            return self.cpe23.is_version_match(version);
        }
        false
    }
}

/// The boolean connective of a configuration node.
#[derive(Debug, Clone, PartialEq, Eq)]
pub enum Operator {
    And,
    Or,
}

impl Default for Operator {
    /// Nodes without an explicit operator are OR nodes.
    fn default() -> (r: Operator)
        ensures
            r is Or,
    {
        Operator::Or
    }
}

/// A node of the configuration tree: a leaf when `cpe_match` is non-empty,
/// else an internal node over `children`.
#[derive(Debug)]
pub struct Node {
    pub operator: Operator,
    pub children: Vec<Node>,
    pub cpe_match: Vec<Match>,
}

/// Tree evaluation: a leaf ORs or ANDs its predicates, an internal node ORs
/// or ANDs its children, and a node with neither predicates nor children
/// matches nothing.
pub open spec fn spec_node_matches(n: Node, product: Seq<char>, version: Seq<char>) -> bool
    decreases n,
{
    if n.cpe_match@.len() > 0 {
        match n.operator {
            Operator::Or => exists|i: int|
                0 <= i < n.cpe_match@.len() && spec_match_matches(n.cpe_match@[i], product, version),
            Operator::And => forall|i: int|
                0 <= i < n.cpe_match@.len() ==> spec_match_matches(
                    n.cpe_match@[i],
                    product,
                    version,
                ),
        }
    } else if n.children@.len() > 0 {
        match n.operator {
            Operator::Or => exists|i: int|
                0 <= i < n.children@.len() && spec_node_matches(n.children@[i], product, version),
            Operator::And => forall|i: int|
                0 <= i < n.children@.len() ==> spec_node_matches(n.children@[i], product, version),
        }
    } else {
        false
    }
}

/// The keys of the first `i` predicates of a leaf.
pub open spec fn spec_matches_products_upto(ms: Seq<Match>, i: int) -> Set<(Seq<char>, Seq<char>)> {
    Set::new(|k: (Seq<char>, Seq<char>)| exists|j: int| 0 <= j < i && spec_product_key(ms[j]) == k)
}

/// The set of (vendor, product) keys among a leaf's predicates.
pub open spec fn spec_matches_products(ms: Seq<Match>) -> Set<(Seq<char>, Seq<char>)> {
    spec_matches_products_upto(ms, ms.len() as int)
}

proof fn lemma_matches_upto_step(ms: Seq<Match>, i: int)
    requires
        0 <= i < ms.len(),
    ensures
        spec_matches_products_upto(ms, i + 1) == spec_matches_products_upto(ms, i).insert(
            spec_product_key(ms[i]),
        ),
{
    assert forall|x: (Seq<char>, Seq<char>)|
        spec_matches_products_upto(ms, i + 1).contains(x) implies spec_matches_products_upto(
        ms,
        i,
    ).insert(spec_product_key(ms[i])).contains(x) by {
        let j = choose|j: int| 0 <= j < i + 1 && spec_product_key(ms[j]) == x;
        if j < i {
            assert(spec_matches_products_upto(ms, i).contains(x));
        }
    }
    assert(spec_matches_products_upto(ms, i + 1) =~= spec_matches_products_upto(ms, i).insert(
        spec_product_key(ms[i]),
    ));
}

/// The keys contributed by the first `i` nodes of a child list.
pub open spec fn spec_nodes_products_upto(ns: Seq<Node>, i: int) -> Set<(Seq<char>, Seq<char>)>
    decreases ns, i,
{
    if i <= 0 {
        Set::empty()
    } else if i > ns.len() {
        spec_nodes_products_upto(ns, ns.len() as int)
    } else {
        spec_nodes_products_upto(ns, i - 1) + spec_node_products(ns[i - 1])
    }
}

/// The set of (vendor, product) keys of every predicate reachable in the
/// tree under a node.
pub open spec fn spec_node_products(n: Node) -> Set<(Seq<char>, Seq<char>)>
    decreases n,
{
    spec_matches_products(n.cpe_match@) + spec_nodes_products_upto(
        n.children@,
        n.children@.len() as int,
    )
}

/// The key set of a vector of products.
pub open spec fn products_key_set(s: Seq<Product>) -> Set<(Seq<char>, Seq<char>)> {
    Set::new(|k: (Seq<char>, Seq<char>)| exists|i: int| 0 <= i < s.len() && product_key(s[i]) == k)
}

/// No two entries of the vector carry the same key.
pub open spec fn products_unique(s: Seq<Product>) -> bool {
    forall|i: int, j: int| 0 <= i < j < s.len() ==> product_key(s[i]) != product_key(s[j])
}

proof fn lemma_key_set_push(s: Seq<Product>, p: Product)
    ensures
        products_key_set(s.push(p)) == products_key_set(s).insert(product_key(p)),
{
    assert(product_key(s.push(p)[s.len() as int]) == product_key(p));
    assert forall|x: (Seq<char>, Seq<char>)| products_key_set(s.push(p)).contains(x) implies
        products_key_set(s).insert(product_key(p)).contains(x) by {
        let i = choose|i: int| 0 <= i < s.push(p).len() && product_key(s.push(p)[i]) == x;
        if i < s.len() {
            assert(product_key(s[i]) == x);
        }
    }
    assert forall|x: (Seq<char>, Seq<char>)|
        products_key_set(s).insert(product_key(p)).contains(x) implies products_key_set(
        s.push(p),
    ).contains(x) by {
        if x == product_key(p) {
            assert(product_key(s.push(p)[s.len() as int]) == x);
        } else {
            let i = choose|i: int| 0 <= i < s.len() && product_key(s[i]) == x;
            assert(product_key(s.push(p)[i]) == x);
        }
    }
    assert(products_key_set(s.push(p)) =~= products_key_set(s).insert(product_key(p)));
}

proof fn lemma_key_set_subrange_step(s: Seq<Product>, l: int)
    requires
        0 <= l < s.len(),
    ensures
        products_key_set(s.subrange(0, l + 1)) == products_key_set(s.subrange(0, l)).insert(
            product_key(s[l]),
        ),
{
    assert(s.subrange(0, l + 1) =~= s.subrange(0, l).push(s[l]));
    lemma_key_set_push(s.subrange(0, l), s[l]);
}

/// Whether the vector already holds an entry with this product's key.
fn products_contains(v: &Vec<Product>, p: &Product) -> (r: bool)
    ensures
        r == products_key_set(v@).contains(product_key(*p)),
{
    let mut i: usize = 0;
    while i < v.len()
        invariant
            i <= v@.len(),
            forall|j: int| 0 <= j < i ==> product_key(v@[j]) != product_key(*p),
        decreases v@.len() - i,
    {
        if str_eq(v[i].vendor.as_str(), p.vendor.as_str()) && str_eq(
            v[i].product.as_str(),
            p.product.as_str(),
        ) {
            return true;
        }
        i += 1;
    }
    false
}

/// Append a product unless its key is already present.
fn products_insert(v: &mut Vec<Product>, p: Product)
    requires
        products_unique(old(v)@),
    ensures
        products_unique(final (v)@),
        products_key_set(final (v)@) == products_key_set(old(v)@).insert(product_key(p)),
{
    if !products_contains(v, &p) {
        let ghost pk = product_key(p);
        proof {
            lemma_key_set_push(v@, p);
        }
        v.push(p);
        proof {
            assert forall|i: int, j: int| 0 <= i < j < v@.len() implies product_key(v@[i])
                != product_key(v@[j]) by {
                if j == v@.len() - 1 {
                    assert(product_key(old(v)@[i]) != pk);
                }
            }
        }
    } else {
        proof {
            assert(products_key_set(v@) =~= products_key_set(old(v)@).insert(product_key(p)));
        }
    }
}

/// Append each product of `src` whose key is not yet present in `dst`.
pub(crate) fn merge_unique(dst: &mut Vec<Product>, src: &Vec<Product>)
    requires
        products_unique(old(dst)@),
    ensures
        products_unique(final (dst)@),
        products_key_set(final (dst)@) == products_key_set(old(dst)@) + products_key_set(src@),
{
    proof {
        assert(src@.subrange(0, 0) =~= Seq::<Product>::empty());
        assert(products_key_set(Seq::<Product>::empty()) =~= Set::empty());
        assert(products_key_set(dst@) =~= products_key_set(old(dst)@) + products_key_set(
            src@.subrange(0, 0),
        ));
    }
    let mut l: usize = 0;
    while l < src.len()
        invariant
            l <= src@.len(),
            products_unique(dst@),
            products_key_set(dst@) == products_key_set(old(dst)@) + products_key_set(
                src@.subrange(0, l as int),
            ),
        decreases src@.len() - l,
    {
        let q = Product { vendor: src[l].vendor.clone(), product: src[l].product.clone() };
        proof {
            assert(product_key(q) == product_key(src@[l as int]));
            lemma_key_set_subrange_step(src@, l as int);
        }
        products_insert(dst, q);
        proof {
            assert(products_key_set(dst@) =~= products_key_set(old(dst)@) + products_key_set(
                src@.subrange(0, l as int + 1),
            ));
        }
        l += 1;
    }
    proof {
        assert(src@.subrange(0, src@.len() as int) =~= src@);
    }
}

impl Node {
    /// Collect the distinct (vendor, product) keys of every predicate in
    /// the tree, first occurrence first.
    pub fn collect_unique_products(&self) -> (r: Vec<Product>)
        ensures
            products_unique(r@),
            products_key_set(r@) == spec_node_products(*self),
        decreases *self,
    {
        let mut products: Vec<Product> = Vec::new();
        proof {
            assert(products_key_set(products@) =~= spec_matches_products_upto(self.cpe_match@, 0));
        }
        let mut i: usize = 0;
        while i < self.cpe_match.len()
            invariant
                i <= self.cpe_match@.len(),
                products_unique(products@),
                products_key_set(products@) == spec_matches_products_upto(
                    self.cpe_match@,
                    i as int,
                ),
            decreases self.cpe_match@.len() - i,
        {
            let prod = self.cpe_match[i].product();
            proof {
                lemma_matches_upto_step(self.cpe_match@, i as int);
            }
            products_insert(&mut products, prod);
            i += 1;
        }
        let mut c: usize = 0;
        while c < self.children.len()
            invariant
                c <= self.children@.len(),
                products_unique(products@),
                products_key_set(products@) == spec_matches_products(self.cpe_match@)
                    + spec_nodes_products_upto(self.children@, c as int),
            decreases self.children@.len() - c,
        {
            proof {
                assert(decreases_to!(*self => self.children@[c as int]));
            }
            let child_products = self.children[c].collect_unique_products();
            merge_unique(&mut products, &child_products);
            proof {
                assert(products_key_set(products@) =~= spec_matches_products(self.cpe_match@)
                    + spec_nodes_products_upto(self.children@, c as int + 1));
            }
            c += 1;
        }
        proof {
            assert(products_key_set(products@) =~= spec_node_products(*self));
        }
        products
    }

    /// Evaluate the tree on a (product, version) pair.
    pub fn is_match(&self, product: &str, version: &str) -> (r: bool)
        ensures
            r == spec_node_matches(*self, product@, version@),
        decreases *self,
    {
        if self.cpe_match.len() > 0 {
            match self.operator {
                Operator::Or => {
                    let mut i: usize = 0;
                    while i < self.cpe_match.len()
                        invariant
                            self.operator is Or,
                            self.cpe_match@.len() > 0,
                            i <= self.cpe_match@.len(),
                            forall|j: int|
                                0 <= j < i ==> !spec_match_matches(
                                    self.cpe_match@[j],
                                    product@,
                                    version@,
                                ),
                        decreases self.cpe_match@.len() - i,
                    {
                        if self.cpe_match[i].is_match(product, version) {
                            return true;
                        }
                        i += 1;
                    }
                    false
                },
                Operator::And => {
                    let mut i: usize = 0;
                    while i < self.cpe_match.len()
                        invariant
                            self.operator is And,
                            self.cpe_match@.len() > 0,
                            i <= self.cpe_match@.len(),
                            forall|j: int|
                                0 <= j < i ==> spec_match_matches(
                                    self.cpe_match@[j],
                                    product@,
                                    version@,
                                ),
                        decreases self.cpe_match@.len() - i,
                    {
                        if !self.cpe_match[i].is_match(product, version) {
                            return false;
                        }
                        i += 1;
                    }
                    true
                },
            }
        } else if self.children.len() > 0 {
            match self.operator {
                Operator::Or => {
                    let mut i: usize = 0;
                    while i < self.children.len()
                        invariant
                            self.operator is Or,
                            self.cpe_match@.len() == 0,
                            self.children@.len() > 0,
                            i <= self.children@.len(),
                            forall|j: int|
                                0 <= j < i ==> !spec_node_matches(
                                    self.children@[j],
                                    product@,
                                    version@,
                                ),
                        decreases self.children@.len() - i,
                    {
                        proof {
                            assert(decreases_to!(*self => self.children@[i as int]));
                        }
                        if self.children[i].is_match(product, version) {
                            return true;
                        }
                        i += 1;
                    }
                    false
                },
                Operator::And => {
                    let mut i: usize = 0;
                    while i < self.children.len()
                        invariant
                            self.operator is And,
                            self.cpe_match@.len() == 0,
                            self.children@.len() > 0,
                            i <= self.children@.len(),
                            forall|j: int|
                                0 <= j < i ==> spec_node_matches(
                                    self.children@[j],
                                    product@,
                                    version@,
                                ),
                        decreases self.children@.len() - i,
                    {
                        proof {
                            assert(decreases_to!(*self => self.children@[i as int]));
                        }
                        if !self.children[i].is_match(product, version) {
                            return false;
                        }
                        i += 1;
                    }
                    true
                },
            }
        } else {
            false
        }
    }
}

} // verus!
