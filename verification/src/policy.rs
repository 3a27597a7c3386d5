//! Rendering policy: undefined-variable semantics and the autoescape
//! decision, each built once per call from the request's plain flags.

use vstd::prelude::*;
use vstd::string::*;

verus! {

/// How the engine treats references to missing context keys.
#[derive(Clone, Copy, PartialEq, Eq, Structural, Debug)]
pub enum UndefinedMode {
    Strict,
    SemiStrict,
    Chainable,
    Lenient,
}

/// The mode a behavior string selects: the four recognized names map to
/// their modes; anything else, or no string at all, means `Lenient`.
pub open spec fn spec_undefined_mode(behavior: Option<Seq<char>>) -> UndefinedMode {
    match behavior {
        Option::None => UndefinedMode::Lenient,
        Option::Some(b) => if b == "strict"@ {
            UndefinedMode::Strict
        } else if b == "semistrict"@ {
            UndefinedMode::SemiStrict
        } else if b == "chainable"@ {
            UndefinedMode::Chainable
        } else {
            UndefinedMode::Lenient
        },
    }
}

/// Select the undefined-variable mode named by an optional behavior string.
pub fn parse_undefined_mode(behavior: &Option<String>) -> (m: UndefinedMode)
    ensures
        m == spec_undefined_mode(behavior.deep_view()),
{
    match behavior {
        Option::None => UndefinedMode::Lenient,
        Option::Some(b) => {
            if b.eq(&String::from_str("strict")) {
                UndefinedMode::Strict
            } else if b.eq(&String::from_str("semistrict")) {
                UndefinedMode::SemiStrict
            } else if b.eq(&String::from_str("chainable")) {
                UndefinedMode::Chainable
            } else {
                UndefinedMode::Lenient
            }
        },
    }
}

/// An absent or empty optional string counts as absent; any other string
/// stands as it is.
pub open spec fn spec_normalize_opt(s: Option<Seq<char>>) -> Option<Seq<char>> {
    match s {
        Option::None => Option::None,
        Option::Some(v) => if v.len() == 0 {
            Option::None
        } else {
            Option::Some(v)
        },
    }
}

/// Treat an absent or empty optional string alike: both become `None`.
pub fn normalize_opt_string(s: Option<String>) -> (r: Option<String>)
    ensures
        r.deep_view() == spec_normalize_opt(s.deep_view()),
{
    match s {
        Option::None => Option::None,
        Option::Some(v) => {
            if v.as_str().is_empty() {
                Option::None
            } else {
                Option::Some(v)
            }
        },
    }
}

/// The autoescape decision for a call: escape every template as HTML,
/// escape none, or escape exactly the template names that end in one of
/// the listed suffixes.
#[derive(Clone)]
pub enum AutoescapePolicy {
    AlwaysHtml,
    Never,
    Suffixes(Vec<String>),
}

/// `suffix` is the tail of `s`.
pub open spec fn is_suffix_of(suffix: Seq<char>, s: Seq<char>) -> bool {
    suffix.len() <= s.len() && s.skip(s.len() - suffix.len()) == suffix
}

/// The decision table over the two autoescape inputs: a supplied suffix
/// list wins over the plain flag, even when skipping its malformed entries
/// left it empty; with no list, the flag decides between escaping
/// everything and escaping nothing.
pub open spec fn spec_choose_policy(autoescape: bool, suffixes: Option<Vec<String>>)
    -> AutoescapePolicy {
    match suffixes {
        Option::Some(v) => AutoescapePolicy::Suffixes(v),
        Option::None => if autoescape {
            AutoescapePolicy::AlwaysHtml
        } else {
            AutoescapePolicy::Never
        },
    }
}

/// Select the autoescape policy the decision table names.
pub fn choose_autoescape_policy(autoescape: bool, suffixes: Option<Vec<String>>) -> (p:
    AutoescapePolicy)
    ensures
        p == spec_choose_policy(autoescape, suffixes),
{
    match suffixes {
        Option::Some(v) => AutoescapePolicy::Suffixes(v),
        Option::None => {
            if !autoescape {
                AutoescapePolicy::Never
            } else {
                AutoescapePolicy::AlwaysHtml
            }
        },
    }
}

/// Whether a policy escapes a template of the given name.
pub open spec fn escapes_name(p: AutoescapePolicy, name: Seq<char>) -> bool {
    match p {
        AutoescapePolicy::AlwaysHtml => true,
        AutoescapePolicy::Never => false,
        AutoescapePolicy::Suffixes(v) => exists|i: int|
            0 <= i < v@.len() && is_suffix_of(v@[i]@, name),
    }
}

/// `s` ends with `suffix`, compared character by character.
pub fn str_ends_with(s: &str, suffix: &str) -> (b: bool)
    ensures
        b == is_suffix_of(suffix@, s@),
{
    let n = s.unicode_len();
    let m = suffix.unicode_len();
    if m > n {
        return false;
    }
    let mut i: usize = 0;
    while i < m
        invariant
            m <= n,
            i <= m,
            n == s@.len(),
            m == suffix@.len(),
            forall|j: int| 0 <= j < i ==> s@[n - m + j] == suffix@[j],
        decreases m - i,
    {
        if s.get_char(n - m + i) != suffix.get_char(i) {
            proof {
                assert(s@.skip(n - m) != suffix@) by {
                    assert(s@.skip(n - m)[i as int] == s@[n - m + i]);
                }
            }
            return false;
        }
        i += 1;
    }
    proof {
        assert(s@.skip(n - m) =~= suffix@);
    }
    true
}

/// Apply a policy to a template name.
pub fn should_escape(p: &AutoescapePolicy, name: &str) -> (b: bool)
    ensures
        b == escapes_name(*p, name@),
{
    match p {
        AutoescapePolicy::AlwaysHtml => true,
        AutoescapePolicy::Never => false,
        AutoescapePolicy::Suffixes(v) => {
            let mut i: usize = 0;
            while i < v.len()
                invariant
                    i <= v@.len(),
                    *p matches AutoescapePolicy::Suffixes(w) && w@ == v@,
                    forall|j: int| 0 <= j < i ==> !is_suffix_of(v@[j]@, name@),
                decreases v@.len() - i,
            {
                if str_ends_with(name, v[i].as_str()) {
                    proof {
                        assert(escapes_name(*p, name@)) by {
                            assert(0 <= i < v@.len() && is_suffix_of(v@[i as int]@, name@));
                        }
                    }
                    return true;
                }
                i += 1;
            }
            false
        },
    }
}

} // verus!
