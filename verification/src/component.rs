//! Atomic value of a single CPE 2.3 field: a wildcard that matches anything,
//! a marker that matches nothing, or a literal string.

use vstd::prelude::*;

use crate::strutil::str_eq;

verus! {

/// One field of a CPE 2.3 identifier.
#[derive(Debug, Clone, PartialEq, Eq, Hash)]
pub enum Component {
    Any,
    NotApplicable,
    Value(String),
}

/// The text a component renders to: `*` for `Any`, `-` for `NotApplicable`,
/// the literal text otherwise.
pub open spec fn spec_component_render(c: Component) -> Seq<char> {
    match c {
        Component::Any => "*"@,
        Component::NotApplicable => "-"@,
        Component::Value(v) => v@,
    }
}

/// The component that a field text parses to: `*` is `Any`, `-` is
/// `NotApplicable`, anything else (including `**` and `--`) is a literal.
pub open spec fn component_parses_to(s: Seq<char>, c: Component) -> bool {
    if s == "*"@ {
        c is Any
    } else if s == "-"@ {
        c is NotApplicable
    } else {
        c matches Component::Value(v) && v@ == s
    }
}

/// Whether the component accepts the literal string `s`.
pub open spec fn spec_component_matches(c: Component, s: Seq<char>) -> bool {
    match c {
        Component::Any => true,
        Component::NotApplicable => false,
        Component::Value(v) => v@ == s,
    }
}

impl Component {
    /// Parse a field text; never fails.
    pub fn from_str(s: &str) -> (r: Component)
        ensures
            component_parses_to(s@, r),
    {
        proof {
            reveal_strlit("*");
            reveal_strlit("-");
        }
        let n = s.unicode_len();
        if n == 1 {
            let c = s.get_char(0);
            if c == '*' {
                proof {
                    assert(s@ =~= "*"@);
                }
                return Component::Any;
            }
            if c == '-' {
                proof {
                    assert(s@ =~= "-"@);
                }
                return Component::NotApplicable;
            }
        }
        Component::Value(s.to_owned())
    }

    /// Render the component back to its field text.
    pub fn to_string(&self) -> (r: String)
        ensures
            r@ == spec_component_render(*self),
    {
        match self {
            Component::Any => String::from_str("*"),
            Component::NotApplicable => String::from_str("-"),
            Component::Value(v) => v.clone(),
        }
    }

    /// Whether this component accepts the literal string `val`.
    pub fn matches(&self, val: &str) -> (r: bool)
        ensures
            r == spec_component_matches(*self, val@),
    {
        match self {
            Component::Any => true,
            Component::NotApplicable => false,
            Component::Value(v) => str_eq(v.as_str(), val),
        }
    }

    pub fn is_any(&self) -> (r: bool)
        ensures
            r == (*self is Any),
    {
        matches!(self, Component::Any)
    }

    pub fn is_na(&self) -> (r: bool)
        ensures
            r == (*self is NotApplicable),
    {
        matches!(self, Component::NotApplicable)
    }

    pub fn is_value(&self) -> (r: bool)
        ensures
            r == (*self is Value),
    {
        matches!(self, Component::Value(_))
    }
}

} // verus!
