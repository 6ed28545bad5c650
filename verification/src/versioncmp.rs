//! Version-string comparison, delegated to the `version_compare` crate and
//! exposed through an exact, fail-closed boolean test.

use vstd::prelude::*;

verus! {

/// The comparison operators a version test can use.
#[derive(Debug, Clone, Copy, PartialEq, Eq)]
pub enum CmpOp {
    Lt,
    Le,
    Eq,
    Ne,
    Ge,
    Gt,
}

/// Whether `version_compare` can parse the string as a version at all.
pub uninterp spec fn version_parses(s: Seq<char>) -> bool;

/// The ordering `version_compare` assigns to two parseable versions:
/// negative for less, zero for equal, positive for greater.
pub uninterp spec fn version_order(a: Seq<char>, b: Seq<char>) -> int;

/// Relies on `version_compare::compare`: it fails exactly when one of the two
/// strings has no parseable version part, and otherwise returns one of
/// `Lt`/`Eq`/`Gt`, a function of the two strings alone.
#[verifier::external_body]
fn compare_versions(a: &str, b: &str) -> (r: Option<i8>)
    ensures
        r is Some <==> (version_parses(a@) && version_parses(b@)),
        r matches Some(o) ==> o as int == version_order(a@, b@),
{
    match version_compare::compare(a, b) {
        Ok(version_compare::Cmp::Lt) => Some(-1),
        Ok(version_compare::Cmp::Eq) => Some(0),
        Ok(version_compare::Cmp::Gt) => Some(1),
        _ => None,
    }
}

/// Relies on `version_compare::compare_to` against the sentinel `1.0.0`,
/// which always parses: the call succeeds exactly when `v` parses.
#[verifier::external_body]
pub(crate) fn version_is_valid(v: &str) -> (r: bool)
    ensures
        r == version_parses(v@),
{
    version_compare::compare_to(v, "1.0.0", version_compare::Cmp::Ne).is_ok()
}

/// What the comparison operator asks of the ordering.
pub open spec fn spec_op_eval(ord: int, op: CmpOp) -> bool {
    match op {
        CmpOp::Lt => ord < 0,
        CmpOp::Le => ord <= 0,
        CmpOp::Eq => ord == 0,
        CmpOp::Ne => ord != 0,
        CmpOp::Ge => ord >= 0,
        CmpOp::Gt => ord > 0,
    }
}

/// The fail-closed version test: false whenever either string does not parse
/// as a version, else the operator applied to the ordering.
pub open spec fn spec_version_cmp(a: Seq<char>, b: Seq<char>, op: CmpOp) -> bool {
    &&& version_parses(a)
    &&& version_parses(b)
    &&& spec_op_eval(version_order(a, b), op)
}

/// Compare two version strings under an operator; unparseable input is a
/// non-match, never an error.
pub fn version_cmp(a: &str, b: &str, op: CmpOp) -> (r: bool)
    ensures
        r == spec_version_cmp(a@, b@, op),
{
    match compare_versions(a, b) {
        None => false,
        Some(o) => match op {
            CmpOp::Lt => o < 0,
            CmpOp::Le => o <= 0,
            CmpOp::Eq => o == 0,
            CmpOp::Ne => o != 0,
            CmpOp::Ge => o >= 0,
            CmpOp::Gt => o > 0,
        },
    }
}

} // verus!
