use kepler::versioncmp::{version_cmp, CmpOp};
use kepler::{
    Configurations, CveRecord, Description, DescriptionData, Impact, Info, Match, Meta, Node,
    Operator, ProblemType, References, CPE23,
};

fn cpe(s: &str) -> CPE23 {
    CPE23::from_str(s).unwrap()
}

fn plain_match(uri: &str) -> Match {
    Match {
        vulnerable: true,
        cpe23: cpe(uri),
        version_start_including: None,
        version_start_excluding: None,
        version_end_including: None,
        version_end_excluding: None,
    }
}

fn leaf(op: Operator, ms: Vec<Match>) -> Node {
    Node {
        operator: op,
        children: Vec::new(),
        cpe_match: ms,
    }
}

fn record(roots: Vec<Node>) -> CveRecord {
    CveRecord {
        cve: Info {
            meta: Meta {
                id: "CVE-2021-12345".to_owned(),
                assigner: None,
            },
            references: References {
                reference_data: Vec::new(),
            },
            description: Description {
                description_data: vec![DescriptionData {
                    lang: "en".to_owned(),
                    value: "an example weakness".to_owned(),
                }],
            },
            problem_type: ProblemType {
                problem_type_data: Vec::new(),
            },
        },
        impact: Impact {
            metric_v2: None,
            metric_v3: None,
        },
        configurations: Configurations {
            data_version: "4.0".to_owned(),
            nodes: roots,
        },
        published_date: "2021-01-01T00:00Z".to_owned(),
        last_modified_date: "2021-06-01T00:00Z".to_owned(),
    }
}

#[test]
fn node_can_match_products_correctly() {
    let table = vec![
        ("cpe:2.3:o:vendor:product:-:*:*:*:*:*:*:*", "stratocaster", false),
        ("cpe:2.3:o:gibson:lespaul:-:*:*:*:*:*:*:*", "lespaul", true),
        ("cpe:2.3:o:vendor:tar:-:*:*:*:*:node.js:*:*", "tar", false),
        ("cpe:2.3:o:vendor:tar:-:*:*:*:*:node.js:*:*", "node-tar", true),
    ];

    for (s, product, m) in table {
        let res = CPE23::from_str(s);
        assert!(res.is_ok());
        assert_eq!(m, res.unwrap().is_product_match(product));
    }
}

#[test]
fn mod_can_match_products_correctly() {
    let table = vec![
        ("cpe:2.3:o:vendor:product:-:*:*:*:*:*:*:*", "stratocaster", false),
        ("cpe:2.3:o:gibson:lespaul:-:*:*:*:*:*:*:*", "lespaul", true),
        ("cpe:2.3:o:vendor:tar:-:*:*:*:*:node.js:*:*", "tar", false),
        ("cpe:2.3:o:vendor:tar:-:*:*:*:*:node.js:*:*", "node-tar", true),
    ];

    for (s, product, m) in table {
        let res = CPE23::from_str(s);
        assert!(res.is_ok());
        assert_eq!(m, res.unwrap().is_product_match(product));
    }
}

#[test]
fn node_can_match_versions_correctly() {
    let table = vec![
        ("cpe:2.3:o:vendor:product:-:*:*:*:*:*:*:*", "1.0.0", false),
        ("cpe:2.3:o:vendor:product:*:*:*:*:*:*:*:*", "1.0.0", true),
        ("cpe:2.3:o:vendor:product:*:*:*:*:*:*:*:*", "0.0.0", true),
        ("cpe:2.3:o:vendor:product:1:*:*:*:*:*:*:*", "1.0.0", true),
        ("cpe:2.3:o:vendor:product:1.0:*:*:*:*:*:*:*", "1.0.0", true),
        ("cpe:2.3:o:vendor:product:1.0.0:*:*:*:*:*:*:*", "1.0.0", true),
        ("cpe:2.3:o:vendor:product:1.0.1:*:*:*:*:*:*:*", "1.0.0", false),
        ("cpe:2.3:o:vendor:product:1.0.1:*:*:*:*:*:*:*", "1.0.1", true),
        ("cpe:2.3:o:vendor:product:1.0.1:rc0:*:*:*:*:*:*", "1.0.1", false),
        ("cpe:2.3:o:vendor:product:1.0.1:rc0:*:*:*:*:*:*", "1.0.1 RC0", true),
    ];

    for (s, version, m) in table {
        let res = CPE23::from_str(s);
        assert!(res.is_ok());
        assert_eq!(m, res.unwrap().is_version_match(version));
    }
}

#[test]
fn mod_can_match_versions_correctly() {
    let table = vec![
        ("cpe:2.3:o:vendor:product:-:*:*:*:*:*:*:*", "1.0.0", false),
        ("cpe:2.3:o:vendor:product:*:*:*:*:*:*:*:*", "1.0.0", true),
        ("cpe:2.3:o:vendor:product:*:*:*:*:*:*:*:*", "0.0.0", true),
        ("cpe:2.3:o:vendor:product:1:*:*:*:*:*:*:*", "1.0.0", true),
        ("cpe:2.3:o:vendor:product:1.0:*:*:*:*:*:*:*", "1.0.0", true),
        ("cpe:2.3:o:vendor:product:1.0.0:*:*:*:*:*:*:*", "1.0.0", true),
        ("cpe:2.3:o:vendor:product:1.0.1:*:*:*:*:*:*:*", "1.0.0", false),
        ("cpe:2.3:o:vendor:product:1.0.1:*:*:*:*:*:*:*", "1.0.1", true),
        ("cpe:2.3:o:vendor:product:1.0.1:rc0:*:*:*:*:*:*", "1.0.1", false),
        ("cpe:2.3:o:vendor:product:1.0.1:rc0:*:*:*:*:*:*", "1.0.1 RC0", true),
    ];

    for (s, version, m) in table {
        let res = CPE23::from_str(s);
        assert!(res.is_ok());
        assert_eq!(m, res.unwrap().is_version_match(version));
    }
}

#[test]
fn version_cmp_orders_versions() {
    assert!(version_cmp("1.0", "1.0.0", CmpOp::Eq));
    assert!(version_cmp("1.5.3", "1.0", CmpOp::Gt));
    assert!(version_cmp("1.5.3", "2.0", CmpOp::Lt));
    assert!(version_cmp("0.9", "1.0", CmpOp::Le));
    assert!(version_cmp("1.0", "1.0", CmpOp::Ge));
    assert!(version_cmp("1.0", "2.0", CmpOp::Ne));
    assert!(!version_cmp("not a version", "1.0", CmpOp::Eq));
}

#[test]
fn version_range_bounds_behave_per_operator() {
    let mut m = plain_match("cpe:2.3:a:acme:foo:*:*:*:*:*:*:*:*");
    m.version_start_including = Some("1.0".to_owned());
    m.version_end_excluding = Some("2.0".to_owned());
    assert!(m.has_version_range());
    assert!(m.version_range_matches("1.0"));
    assert!(m.version_range_matches("1.5.3"));
    assert!(m.version_range_matches("1.9.9"));
    assert!(!m.version_range_matches("0.9"));
    assert!(!m.version_range_matches("2.0"));
    assert!(!m.version_range_matches("2.1"));

    let mut excl = plain_match("cpe:2.3:a:acme:foo:*:*:*:*:*:*:*:*");
    excl.version_start_excluding = Some("1.0".to_owned());
    excl.version_end_including = Some("2.0".to_owned());
    assert!(!excl.version_range_matches("1.0"));
    assert!(excl.version_range_matches("1.0.1"));
    assert!(excl.version_range_matches("2.0"));
    assert!(!excl.version_range_matches("2.0.1"));

    let none = plain_match("cpe:2.3:a:acme:foo:*:*:*:*:*:*:*:*");
    assert!(!none.has_version_range());
    assert!(none.version_range_matches("anything at all"));
}

#[test]
fn predicate_prefers_range_over_cpe_version() {
    let mut m = plain_match("cpe:2.3:a:acme:foo:9.9:*:*:*:*:*:*:*");
    m.version_start_including = Some("1.0".to_owned());
    assert!(m.is_match("foo", "1.5"));
    assert!(!m.is_match("foo", "0.5"));
    assert!(!m.is_match("bar", "1.5"));

    let plain = plain_match("cpe:2.3:a:acme:foo:1.0:*:*:*:*:*:*:*");
    assert!(plain.is_match("foo", "1.0.0"));
    assert!(!plain.is_match("foo", "1.1"));
}

#[test]
fn leaf_or_matches_when_any_predicate_does() {
    let n = leaf(
        Operator::Or,
        vec![
            plain_match("cpe:2.3:a:acme:foo:1.0:*:*:*:*:*:*:*"),
            plain_match("cpe:2.3:a:acme:bar:1.0:*:*:*:*:*:*:*"),
        ],
    );
    assert!(n.is_match("bar", "1.0"));
    assert!(n.is_match("foo", "1.0"));
    assert!(!n.is_match("baz", "1.0"));
    assert!(!n.is_match("foo", "2.0"));
}

#[test]
fn leaf_and_matches_when_all_predicates_do() {
    let n = leaf(
        Operator::And,
        vec![
            plain_match("cpe:2.3:a:acme:app:1.0:*:*:*:*:*:*:*"),
            plain_match("cpe:2.3:o:linux:*:*:*:*:*:*:*:*:*"),
        ],
    );
    // The second predicate's wildcard product and version accept anything,
    // so the conjunction holds exactly when the first predicate holds.
    assert!(n.is_match("app", "1.0"));
    assert!(!n.is_match("app", "2.0"));
    assert!(!n.is_match("kernel", "1.0"));

    let strict = leaf(
        Operator::And,
        vec![
            plain_match("cpe:2.3:a:acme:app:1.0:*:*:*:*:*:*:*"),
            plain_match("cpe:2.3:o:linux:kernel:5.0:*:*:*:*:*:*:*"),
        ],
    );
    // A single (product, version) pair cannot satisfy two predicates with
    // distinct literal products: satisfying one leaves the other false.
    assert!(!strict.is_match("app", "1.0"));
    assert!(!strict.is_match("kernel", "5.0"));
}

#[test]
fn internal_nodes_recurse_on_children() {
    let or_node = Node {
        operator: Operator::Or,
        children: vec![
            leaf(Operator::Or, vec![plain_match("cpe:2.3:a:acme:foo:1.0:*:*:*:*:*:*:*")]),
            leaf(Operator::Or, vec![plain_match("cpe:2.3:a:acme:bar:2.0:*:*:*:*:*:*:*")]),
        ],
        cpe_match: Vec::new(),
    };
    assert!(or_node.is_match("foo", "1.0"));
    assert!(or_node.is_match("bar", "2.0"));
    assert!(!or_node.is_match("foo", "2.0"));

    let and_node = Node {
        operator: Operator::And,
        children: vec![
            leaf(Operator::Or, vec![plain_match("cpe:2.3:a:acme:foo:*:*:*:*:*:*:*:*")]),
            leaf(Operator::Or, vec![plain_match("cpe:2.3:a:acme:foo:1.0:*:*:*:*:*:*:*")]),
        ],
        cpe_match: Vec::new(),
    };
    assert!(and_node.is_match("foo", "1.0"));
    assert!(!and_node.is_match("foo", "2.0"));
}

#[test]
fn empty_node_matches_nothing() {
    let or_empty = Node {
        operator: Operator::Or,
        children: Vec::new(),
        cpe_match: Vec::new(),
    };
    let and_empty = Node {
        operator: Operator::And,
        children: Vec::new(),
        cpe_match: Vec::new(),
    };
    assert!(!or_empty.is_match("anything", "1.0"));
    assert!(!and_empty.is_match("anything", "1.0"));
}

#[test]
fn record_roots_are_or_joined() {
    let r = record(vec![
        leaf(Operator::Or, vec![plain_match("cpe:2.3:a:acme:foo:1.0:*:*:*:*:*:*:*")]),
        leaf(Operator::Or, vec![plain_match("cpe:2.3:a:acme:bar:2.0:*:*:*:*:*:*:*")]),
    ]);
    assert!(r.is_match("foo", "1.0"));
    assert!(r.is_match("bar", "2.0"));
    assert!(!r.is_match("foo", "2.0"));
    assert!(r.is_complete());

    let empty = record(Vec::new());
    assert!(!empty.is_complete());
    assert!(!empty.is_match("foo", "1.0"));
}

#[test]
fn collect_unique_products_deduplicates() {
    let n = Node {
        operator: Operator::Or,
        children: vec![leaf(
            Operator::Or,
            vec![
                plain_match("cpe:2.3:a:acme:foo:1.0:*:*:*:*:*:*:*"),
                plain_match("cpe:2.3:a:other:baz:2.0:*:*:*:*:*:*:*"),
            ],
        )],
        cpe_match: vec![
            plain_match("cpe:2.3:a:acme:foo:1.0:*:*:*:*:*:*:*"),
            plain_match("cpe:2.3:a:acme:foo:2.0:*:*:*:*:*:*:*"),
            plain_match("cpe:2.3:a:acme:bar:1.0:*:*:*:*:*:*:*"),
        ],
    };
    let products = n.collect_unique_products();
    let pairs: Vec<(String, String)> = products
        .iter()
        .map(|p| (p.vendor.clone(), p.product.clone()))
        .collect();
    assert_eq!(
        pairs,
        vec![
            ("acme".to_owned(), "foo".to_owned()),
            ("acme".to_owned(), "bar".to_owned()),
            ("other".to_owned(), "baz".to_owned()),
        ]
    );
}

#[test]
fn target_sw_composition_disambiguates() {
    let c = cpe("cpe:2.3:a:vendor:tar:-:*:*:*:*:node.js:*:*");
    assert!(!c.is_product_match("tar"));
    assert!(c.is_product_match("node-tar"));
}
