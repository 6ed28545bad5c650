//! CPE 2.3 identifiers: parsing from and rendering to the colon-separated
//! URI form `cpe:2.3:<type>:<vendor>:<product>:...:<other>`.

use vstd::prelude::*;

use crate::component::{component_parses_to, spec_component_render, Component};
use crate::cpe_type::{
    spec_type_error, spec_type_uri_render, type_field_accepts, type_parses_to, CpeType,
};
use crate::strutil::{char_is_alphanumeric, is_alphanum, push_char, str_eq};
use crate::versioncmp::{spec_version_cmp, version_cmp, CmpOp};

verus! {

/// Split a string on `:`. The result always has at least one field; a string
/// without a colon is a single field, and each colon opens a new one.
pub open spec fn split_colon(s: Seq<char>) -> Seq<Seq<char>>
    decreases s.len(),
{
    if s.len() == 0 {
        seq![Seq::<char>::empty()]
    } else if s[0] == ':' {
        seq![Seq::<char>::empty()] + split_colon(s.drop_first())
    } else {
        let rest = split_colon(s.drop_first());
        seq![seq![s[0]] + rest[0]] + rest.drop_first()
    }
}

/// Join fields with `:` separators; the inverse of `split_colon`.
pub open spec fn join_colon(parts: Seq<Seq<char>>) -> Seq<char>
    decreases parts.len(),
{
    if parts.len() == 0 {
        Seq::empty()
    } else if parts.len() == 1 {
        parts[0]
    } else {
        parts[0] + seq![':'] + join_colon(parts.drop_first())
    }
}

pub proof fn lemma_split_len(s: Seq<char>)
    ensures
        split_colon(s).len() >= 1,
    decreases s.len(),
{
    if s.len() == 0 {
    } else {
        lemma_split_len(s.drop_first());
    }
}

/// How splitting changes when one character is appended: a colon opens a new
/// empty field, any other character extends the last field.
pub proof fn lemma_split_push(s: Seq<char>, c: char)
    ensures
        c == ':' ==> split_colon(s.push(c)) == split_colon(s).push(Seq::<char>::empty()),
        c != ':' ==> split_colon(s.push(c)) == split_colon(s).update(
            split_colon(s).len() - 1,
            split_colon(s).last().push(c),
        ),
    decreases s.len(),
{
    lemma_split_len(s);
    if s.len() == 0 {
        assert(s.push(c).drop_first() =~= Seq::<char>::empty());
        assert(split_colon(Seq::<char>::empty()) == seq![Seq::<char>::empty()]);
        assert(split_colon(s.push(c).drop_first()) == seq![Seq::<char>::empty()]);
        if c == ':' {
            assert(split_colon(s.push(c)) == seq![Seq::<char>::empty()] + seq![
                Seq::<char>::empty(),
            ]);
            assert(split_colon(s.push(c)) =~~= split_colon(s).push(Seq::<char>::empty()));
        } else {
            assert(split_colon(s.push(c)) =~~= split_colon(s).update(
                split_colon(s).len() - 1,
                split_colon(s).last().push(c),
            ));
        }
    } else {
        let d = s.drop_first();
        let spd = split_colon(d);
        lemma_split_len(d);
        lemma_split_push(d, c);
        assert(s.push(c).len() > 0);
        assert(s.push(c)[0] == s[0]);
        assert(s.push(c).drop_first() =~= d.push(c));
        assert(split_colon(s.push(c).drop_first()) == split_colon(d.push(c)));
        if c == ':' {
            assert(split_colon(d.push(c)) == spd.push(Seq::<char>::empty()));
            if s[0] == ':' {
                assert(split_colon(s) == seq![Seq::<char>::empty()] + spd);
                assert(split_colon(s.push(c)) == seq![Seq::<char>::empty()] + spd.push(
                    Seq::<char>::empty(),
                ));
                assert(split_colon(s.push(c)) =~~= split_colon(s).push(Seq::<char>::empty()));
            } else {
                assert(split_colon(s) == seq![seq![s[0]] + spd[0]] + spd.drop_first());
                assert(split_colon(s.push(c)) == seq![seq![s[0]] + spd.push(Seq::<char>::empty())[0]]
                    + spd.push(Seq::<char>::empty()).drop_first());
                assert(spd.push(Seq::<char>::empty())[0] == spd[0]);
                assert(spd.push(Seq::<char>::empty()).drop_first() =~~= spd.drop_first().push(
                    Seq::<char>::empty(),
                ));
                assert(split_colon(s.push(c)) =~~= split_colon(s).push(Seq::<char>::empty()));
            }
        } else {
            let spd2 = spd.update(spd.len() - 1, spd.last().push(c));
            assert(split_colon(d.push(c)) == spd2);
            if s[0] == ':' {
                assert(split_colon(s) == seq![Seq::<char>::empty()] + spd);
                assert(split_colon(s.push(c)) == seq![Seq::<char>::empty()] + spd2);
                assert(split_colon(s).last() == spd.last());
                assert(split_colon(s.push(c)) =~~= split_colon(s).update(
                    split_colon(s).len() - 1,
                    split_colon(s).last().push(c),
                ));
            } else {
                assert(split_colon(s) == seq![seq![s[0]] + spd[0]] + spd.drop_first());
                assert(split_colon(s.push(c)) == seq![seq![s[0]] + spd2[0]] + spd2.drop_first());
                if spd.len() == 1 {
                    assert(spd2[0] == spd[0].push(c));
                    assert(seq![s[0]] + spd[0].push(c) =~= (seq![s[0]] + spd[0]).push(c));
                    assert(split_colon(s).len() == 1);
                    assert(split_colon(s).last() == seq![s[0]] + spd[0]);
                    assert(split_colon(s.push(c)) =~~= split_colon(s).update(
                        split_colon(s).len() - 1,
                        split_colon(s).last().push(c),
                    ));
                } else {
                    assert(spd2[0] == spd[0]);
                    assert(spd2.drop_first() =~~= spd.drop_first().update(
                        spd.len() - 2,
                        spd.last().push(c),
                    ));
                    assert(split_colon(s).last() == spd.last());
                    assert(split_colon(s.push(c)) =~~= split_colon(s).update(
                        split_colon(s).len() - 1,
                        split_colon(s).last().push(c),
                    ));
                }
            }
        }
    }
}

/// Joining the fields of a split gives back the string that was split.
pub proof fn lemma_join_split(s: Seq<char>)
    ensures
        join_colon(split_colon(s)) == s,
    decreases s.len(),
{
    lemma_split_len(s);
    if s.len() == 0 {
        assert(join_colon(split_colon(s)) =~= s);
    } else {
        let d = s.drop_first();
        lemma_split_len(d);
        lemma_join_split(d);
        if s[0] == ':' {
            assert((seq![Seq::<char>::empty()] + split_colon(d)).drop_first() =~= split_colon(d));
            assert(join_colon(split_colon(s)) =~= s);
        } else {
            let rest = split_colon(d);
            let parts = seq![seq![s[0]] + rest[0]] + rest.drop_first();
            assert(split_colon(s) == parts);
            if rest.len() == 1 {
                assert(parts.len() == 1);
                assert(join_colon(rest) == rest[0]);
                assert(rest[0] == d);
                assert(join_colon(parts) == parts[0]);
                assert(parts[0] == seq![s[0]] + rest[0]);
                assert(join_colon(parts) =~= s);
            } else {
                assert(parts.drop_first() =~= rest.drop_first());
                assert(join_colon(parts.drop_first()) == join_colon(rest.drop_first()));
                assert(join_colon(rest) == rest[0] + seq![':'] + join_colon(rest.drop_first()));
                assert(d == rest[0] + seq![':'] + join_colon(rest.drop_first()));
                assert(parts[0] == seq![s[0]] + rest[0]);
                assert(join_colon(parts) == parts[0] + seq![':'] + join_colon(parts.drop_first()));
                assert(join_colon(parts) == seq![s[0]] + rest[0] + seq![':'] + join_colon(
                    rest.drop_first(),
                )) by {
                    assert(seq![s[0]] + rest[0] + seq![':'] + join_colon(rest.drop_first()) =~= (
                    seq![s[0]] + rest[0]) + seq![':'] + join_colon(rest.drop_first()));
                }
                assert(s =~= seq![s[0]] + d);
                assert(join_colon(parts) =~= seq![s[0]] + d);
            }
        }
    }
}

/// Split a string slice on `:`, as `split_colon` describes.
fn split_colon_exec(s: &str) -> (parts: Vec<String>)
    ensures
        parts@.len() == split_colon(s@).len(),
        forall|i: int| 0 <= i < parts@.len() ==> parts@[i]@ == split_colon(s@)[i],
{
    let n = s.unicode_len();
    let mut parts: Vec<String> = Vec::new();
    let mut cur: String = String::new();
    let mut i: usize = 0;
    while i < n
        invariant
            i <= n,
            n == s@.len(),
            parts@.len() + 1 == split_colon(s@.subrange(0, i as int)).len(),
            forall|j: int|
                0 <= j < parts@.len() ==> parts@[j]@ == split_colon(s@.subrange(0, i as int))[j],
            cur@ == split_colon(s@.subrange(0, i as int)).last(),
        decreases n - i,
    {
        let ghost pre = s@.subrange(0, i as int);
        let c = s.get_char(i);
        proof {
            lemma_split_len(pre);
            lemma_split_push(pre, s@[i as int]);
            assert(pre.push(s@[i as int]) =~= s@.subrange(0, i + 1 as int));
        }
        if c == ':' {
            parts.push(cur);
            cur = String::new();
        } else {
            push_char(&mut cur, c);
            proof {
                assert(cur@ =~= split_colon(pre).last().push(c));
            }
        }
        i += 1;
    }
    proof {
        assert(s@.subrange(0, n as int) =~= s@);
        lemma_split_len(s@);
    }
    parts.push(cur);
    parts
}

/// A CPE 2.3 identifier: the part-type tag and ten ordered components.
#[derive(Debug, Clone, PartialEq, Eq, Hash)]
pub struct CPE23 {
    pub what: CpeType,
    pub vendor: Component,
    pub product: Component,
    pub version: Component,
    pub update: Component,
    pub edition: Component,
    pub language: Component,
    pub sw_edition: Component,
    pub target_sw: Component,
    pub target_hw: Component,
    pub other: Component,
}

/// The URI a CPE renders to: the lowercase prefix, the type token, and the
/// ten components, colon-separated.
pub open spec fn spec_cpe_render(c: CPE23) -> Seq<char> {
    "cpe"@ + seq![':'] + "2.3"@ + seq![':'] + spec_type_uri_render(c.what) + seq![':']
        + spec_component_render(c.vendor) + seq![':'] + spec_component_render(c.product) + seq![':']
        + spec_component_render(c.version) + seq![':'] + spec_component_render(c.update) + seq![':']
        + spec_component_render(c.edition) + seq![':'] + spec_component_render(c.language)
        + seq![':'] + spec_component_render(c.sw_edition) + seq![':'] + spec_component_render(
        c.target_sw,
    ) + seq![':'] + spec_component_render(c.target_hw) + seq![':'] + spec_component_render(c.other)
}

/// Which URIs parse: exactly 13 colon-separated fields, the prefix token
/// `cpe` in either case, the literal `2.3`, and an accepted type field.
pub open spec fn cpe_fields_ok(p: Seq<Seq<char>>) -> bool {
    &&& p.len() == 13
    &&& (p[0] == "cpe"@ || p[0] == "CPE"@)
    &&& p[1] == "2.3"@
    &&& type_field_accepts(p[2])
}

pub open spec fn cpe_uri_accepts(s: Seq<char>) -> bool {
    cpe_fields_ok(split_colon(s))
}

/// The error message a rejected URI produces, by the first failing check.
pub open spec fn spec_cpe_parse_error(s: Seq<char>) -> Seq<char> {
    let p = split_colon(s);
    if p.len() != 13 {
        "invalid version string"@
    } else if !(p[0] == "cpe"@ || p[0] == "CPE"@) {
        "expected 'cpe' found '"@ + p[0] + "'"@
    } else if p[1] != "2.3"@ {
        "expected cpe v2.3, found v"@ + p[1]
    } else {
        spec_type_error(p[2])
    }
}

/// Field-by-field relation between a parsed CPE and the 13 fields.
pub open spec fn cpe_parses_from(c: CPE23, p: Seq<Seq<char>>) -> bool {
    &&& type_parses_to(p[2], c.what)
    &&& component_parses_to(p[3], c.vendor)
    &&& component_parses_to(p[4], c.product)
    &&& component_parses_to(p[5], c.version)
    &&& component_parses_to(p[6], c.update)
    &&& component_parses_to(p[7], c.edition)
    &&& component_parses_to(p[8], c.language)
    &&& component_parses_to(p[9], c.sw_edition)
    &&& component_parses_to(p[10], c.target_sw)
    &&& component_parses_to(p[11], c.target_hw)
    &&& component_parses_to(p[12], c.other)
}

/// A URI in the exact form the renderer emits: lowercase `cpe` token and a
/// single-character type field. Rendering a parse of such a URI is the
/// identity; `ANY` type fields and the uppercase prefix re-render otherwise.
pub open spec fn canonical_cpe_uri(s: Seq<char>) -> bool {
    let p = split_colon(s);
    &&& cpe_fields_ok(p)
    &&& p[0] == "cpe"@
    &&& (p[2] == "h"@ || p[2] == "o"@ || p[2] == "a"@)
}

/// A component parsed from a field renders back to that field.
proof fn lemma_component_render_roundtrip(f: Seq<char>, c: Component)
    requires
        component_parses_to(f, c),
    ensures
        spec_component_render(c) == f,
{
}

/// Unrolled form of `join_colon` for exactly 13 fields.
#[verifier::rlimit(100)]
proof fn lemma_join_13(p: Seq<Seq<char>>)
    requires
        p.len() == 13,
    ensures
        join_colon(p) == p[0] + seq![':'] + p[1] + seq![':'] + p[2] + seq![':'] + p[3] + seq![':']
            + p[4] + seq![':'] + p[5] + seq![':'] + p[6] + seq![':'] + p[7] + seq![':'] + p[8]
            + seq![':'] + p[9] + seq![':'] + p[10] + seq![':'] + p[11] + seq![':'] + p[12],
{
    reveal_with_fuel(join_colon, 14);
    assert(join_colon(p) =~= p[0] + seq![':'] + p[1] + seq![':'] + p[2] + seq![':'] + p[3]
        + seq![':'] + p[4] + seq![':'] + p[5] + seq![':'] + p[6] + seq![':'] + p[7] + seq![':']
        + p[8] + seq![':'] + p[9] + seq![':'] + p[10] + seq![':'] + p[11] + seq![':'] + p[12]);
}

impl CPE23 {
    /// Parse a CPE 2.3 URI. Accepts exactly 13 colon-separated fields with
    /// the `cpe`/`CPE` token and the literal `2.3`; reports the first failing
    /// check. Rendering the parse of a canonical URI gives back the input.
    pub fn from_str(s: &str) -> (r: Result<CPE23, String>)
        ensures
            r is Ok <==> cpe_uri_accepts(s@),
            r matches Ok(c) ==> cpe_parses_from(c, split_colon(s@)),
            r matches Ok(c) ==> (canonical_cpe_uri(s@) ==> spec_cpe_render(c) == s@),
            r matches Err(e) ==> e@ == spec_cpe_parse_error(s@),
    {
        let parts = split_colon_exec(s);
        let ghost p = split_colon(s@);
        if parts.len() != 13 {
            return Err(String::from_str("invalid version string"));
        }
        if !(str_eq(parts[0].as_str(), "cpe") || str_eq(parts[0].as_str(), "CPE")) {
            let mut e = String::from_str("expected 'cpe' found '");
            e.append(parts[0].as_str());
            e.append("'");
            return Err(e);
        }
        if !str_eq(parts[1].as_str(), "2.3") {
            let mut e = String::from_str("expected cpe v2.3, found v");
            e.append(parts[1].as_str());
            return Err(e);
        }
        let what = match CpeType::from_str(parts[2].as_str()) {
            Ok(t) => t,
            Err(e) => {
                return Err(e);
            },
        };
        let c = CPE23 {
            what,
            vendor: Component::from_str(parts[3].as_str()),
            product: Component::from_str(parts[4].as_str()),
            version: Component::from_str(parts[5].as_str()),
            update: Component::from_str(parts[6].as_str()),
            edition: Component::from_str(parts[7].as_str()),
            language: Component::from_str(parts[8].as_str()),
            sw_edition: Component::from_str(parts[9].as_str()),
            target_sw: Component::from_str(parts[10].as_str()),
            target_hw: Component::from_str(parts[11].as_str()),
            other: Component::from_str(parts[12].as_str()),
        };
        proof {
            if canonical_cpe_uri(s@) {
                lemma_component_render_roundtrip(p[3], c.vendor);
                lemma_component_render_roundtrip(p[4], c.product);
                lemma_component_render_roundtrip(p[5], c.version);
                lemma_component_render_roundtrip(p[6], c.update);
                lemma_component_render_roundtrip(p[7], c.edition);
                lemma_component_render_roundtrip(p[8], c.language);
                lemma_component_render_roundtrip(p[9], c.sw_edition);
                lemma_component_render_roundtrip(p[10], c.target_sw);
                lemma_component_render_roundtrip(p[11], c.target_hw);
                lemma_component_render_roundtrip(p[12], c.other);
                reveal_strlit("h");
                reveal_strlit("o");
                reveal_strlit("a");
                reveal_strlit("ANY");
                assert(spec_type_uri_render(c.what) == p[2]);
                lemma_join_13(p);
                lemma_join_split(s@);
                assert(spec_cpe_render(c) == s@);
            }
        }
        Ok(c)
    }

    /// Render the URI form: lowercase `cpe:2.3:` prefix, then the type token
    /// and the ten components, colon-separated.
    pub fn to_string(&self) -> (r: String)
        ensures
            r@ == spec_cpe_render(*self),
    {
        let mut out = String::from_str("cpe:2.3:");
        let t = self.what.to_uri_string();
        out.append(t.as_str());
        out.append(":");
        let f = self.vendor.to_string();
        out.append(f.as_str());
        out.append(":");
        let f = self.product.to_string();
        out.append(f.as_str());
        out.append(":");
        let f = self.version.to_string();
        out.append(f.as_str());
        out.append(":");
        let f = self.update.to_string();
        out.append(f.as_str());
        out.append(":");
        let f = self.edition.to_string();
        out.append(f.as_str());
        out.append(":");
        let f = self.language.to_string();
        out.append(f.as_str());
        out.append(":");
        let f = self.sw_edition.to_string();
        out.append(f.as_str());
        out.append(":");
        let f = self.target_sw.to_string();
        out.append(f.as_str());
        out.append(":");
        let f = self.target_hw.to_string();
        out.append(f.as_str());
        out.append(":");
        let f = self.other.to_string();
        out.append(f.as_str());
        proof {
            reveal_strlit("cpe:2.3:");
            reveal_strlit("cpe");
            reveal_strlit("2.3");
            reveal_strlit(":");
            assert("cpe:2.3:"@ =~= "cpe"@ + seq![':'] + "2.3"@ + seq![':']);
            assert(":"@ =~= seq![':']);
            assert(out@ =~= spec_cpe_render(*self));
        }
        out
    }
}

/// The leading run of alphanumeric characters of a `target_sw` value;
/// everything from the first other character on is cut.
pub open spec fn spec_normalize_target_sw(s: Seq<char>) -> Seq<char>
    decreases s.len(),
{
    if s.len() == 0 || !is_alphanum(s[0]) {
        Seq::empty()
    } else {
        seq![s[0]] + spec_normalize_target_sw(s.drop_first())
    }
}

proof fn lemma_normalize_prefix(s: Seq<char>, i: int)
    requires
        0 <= i <= s.len(),
        forall|j: int| 0 <= j < i ==> is_alphanum(s[j]),
        i < s.len() ==> !is_alphanum(s[i]),
    ensures
        spec_normalize_target_sw(s) == s.subrange(0, i),
    decreases i,
{
    if i == 0 {
        assert(spec_normalize_target_sw(s) =~= s.subrange(0, 0));
    } else {
        let d = s.drop_first();
        lemma_normalize_prefix(d, i - 1);
        assert(seq![s[0]] + d.subrange(0, i - 1) =~= s.subrange(0, i));
    }
}

/// Cut a `target_sw` value at its first non-alphanumeric character.
pub fn normalize_target_software(target_sw: &str) -> (r: &str)
    ensures
        r@ == spec_normalize_target_sw(target_sw@),
{
    let n = target_sw.unicode_len();
    let mut i: usize = 0;
    loop
        invariant_except_break
            i <= n,
            n == target_sw@.len(),
            forall|j: int| 0 <= j < i ==> is_alphanum(target_sw@[j]),
        ensures
            i <= n,
            n == target_sw@.len(),
            forall|j: int| 0 <= j < i ==> is_alphanum(target_sw@[j]),
            i < n ==> !is_alphanum(target_sw@[i as int]),
        decreases n - i,
    {
        if i == n {
            break;
        }
        let c = target_sw.get_char(i);
        if !char_is_alphanumeric(c) {
            break;
        }
        i += 1;
    }
    proof {
        lemma_normalize_prefix(target_sw@, i as int);
    }
    target_sw.substring_char(0, i)
}

/// The product name a CPE effectively claims: where `target_sw` is a
/// literal, its normalized form is prefixed with a dash to the product.
pub open spec fn spec_effective_product(c: CPE23) -> Seq<char> {
    match c.target_sw {
        Component::Value(sw) => spec_normalize_target_sw(sw@) + "-"@ + spec_component_render(
            c.product,
        ),
        _ => spec_component_render(c.product),
    }
}

/// Product matching: a wildcard product accepts everything, a
/// not-applicable product nothing, and a literal product exactly the
/// effective product name.
pub open spec fn spec_product_match(c: CPE23, product: Seq<char>) -> bool {
    if c.product is Any {
        true
    } else if c.product is NotApplicable {
        false
    } else {
        product == spec_effective_product(c)
    }
}

/// The version string a CPE effectively claims: a literal `update` is
/// appended after a space.
pub open spec fn spec_effective_version(c: CPE23) -> Seq<char> {
    match c.update {
        Component::Value(u) => spec_component_render(c.version) + " "@ + u@,
        _ => spec_component_render(c.version),
    }
}

/// Version matching: a wildcard version accepts everything, a
/// not-applicable version nothing, and a literal version exactly the
/// versions that compare equal to the effective version string.
pub open spec fn spec_version_match(c: CPE23, version: Seq<char>) -> bool {
    if c.version is Any {
        true
    } else if c.version is NotApplicable {
        false
    } else {
        spec_version_cmp(version, spec_effective_version(c), CmpOp::Eq)
    }
}

impl CPE23 {
    /// Whether this CPE's product, composed with `target_sw`, names the
    /// queried product.
    pub fn is_product_match(&self, product: &str) -> (r: bool)
        ensures
            r == spec_product_match(*self, product@),
    {
        if self.product.is_any() {
            return true;
        }
        if self.product.is_na() {
            return false;
        }
        let my_product = match &self.target_sw {
            Component::Value(software) => {
                let norm = normalize_target_software(software.as_str());
                let mut m = norm.to_owned();
                m.append("-");
                let p = self.product.to_string();
                m.append(p.as_str());
                m
            },
            _ => self.product.to_string(),
        };
        str_eq(product, my_product.as_str())
    }

    /// Whether this CPE's version, composed with a literal `update`, compares
    /// equal to the queried version.
    pub fn is_version_match(&self, version: &str) -> (r: bool)
        ensures
            r == spec_version_match(*self, version@),
    {
        if self.version.is_any() {
            return true;
        }
        if self.version.is_na() {
            return false;
        }
        let my_version = match &self.update {
            Component::Value(u) => {
                let mut m = self.version.to_string();
                m.append(" ");
                m.append(u.as_str());
                m
            },
            _ => self.version.to_string(),
        };
        version_cmp(version, my_version.as_str(), CmpOp::Eq)
    }
}

} // verus!
