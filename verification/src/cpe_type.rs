//! The type tag of a CPE 2.3 identifier: hardware, operating system or
//! application, with `ANY` as the wildcard.

use vstd::prelude::*;

use crate::strutil::{push_char, str_eq};

verus! {

/// The part-type tag of a CPE 2.3 identifier.
#[derive(Debug, Clone, PartialEq, Eq, Hash)]
pub enum CpeType {
    Any,
    Hardware,
    OperatingSystem,
    Application,
}

/// The single-token form used inside a CPE URI: `*` for the wildcard, else
/// one of `h`, `o`, `a`.
pub open spec fn spec_type_uri_render(t: CpeType) -> Seq<char> {
    match t {
        CpeType::Any => "*"@,
        CpeType::Hardware => "h"@,
        CpeType::OperatingSystem => "o"@,
        CpeType::Application => "a"@,
    }
}

/// Which field texts are accepted as a type: the sentinel `ANY`, or anything
/// whose first character is `h`, `o` or `a`.
pub open spec fn type_field_accepts(s: Seq<char>) -> bool {
    s == "ANY"@ || (s.len() > 0 && (s[0] == 'h' || s[0] == 'o' || s[0] == 'a'))
}

/// The type that an accepted field text parses to.
pub open spec fn type_parses_to(s: Seq<char>, t: CpeType) -> bool {
    if s == "ANY"@ {
        t is Any
    } else if s.len() > 0 && s[0] == 'h' {
        t is Hardware
    } else if s.len() > 0 && s[0] == 'o' {
        t is OperatingSystem
    } else if s.len() > 0 && s[0] == 'a' {
        t is Application
    } else {
        false
    }
}

/// The error message for a rejected type field.
pub open spec fn spec_type_error(s: Seq<char>) -> Seq<char> {
    if s.len() == 0 {
        "No chars for type"@
    } else {
        "could not convert '"@ + seq![s[0]] + "' to cpe type"@
    }
}

impl CpeType {
    /// Parse a type field: `ANY`, or by first character `h`/`o`/`a`.
    pub fn from_str(s: &str) -> (r: Result<CpeType, String>)
        ensures
            r is Ok <==> type_field_accepts(s@),
            r matches Ok(t) ==> type_parses_to(s@, t),
            r matches Err(e) ==> e@ == spec_type_error(s@),
    {
        if str_eq(s, "ANY") {
            return Ok(CpeType::Any);
        }
        let n = s.unicode_len();
        if n == 0 {
            return Err(String::from_str("No chars for type"));
        }
        let c = s.get_char(0);
        match c {
            'h' => Ok(CpeType::Hardware),
            'o' => Ok(CpeType::OperatingSystem),
            'a' => Ok(CpeType::Application),
            _ => {
                let mut e = String::from_str("could not convert '");
                push_char(&mut e, c);
                e.append("' to cpe type");
                Err(e)
            },
        }
    }

    /// Render the token used inside a CPE URI.
    pub fn to_uri_string(&self) -> (r: String)
        ensures
            r@ == spec_type_uri_render(*self),
    {
        match self {
            CpeType::Any => String::from_str("*"),
            CpeType::Hardware => String::from_str("h"),
            CpeType::OperatingSystem => String::from_str("o"),
            CpeType::Application => String::from_str("a"),
        }
    }
}

} // verus!
