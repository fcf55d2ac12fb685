//! Candidate configuration paths and home-directory expansion.
//!
//! A configuration file is looked for at up to six places, in a fixed
//! order: the value of an override environment variable (named after the
//! application), then five conventional directories. Paths that begin
//! with `~/` are expanded against the user's home directory; a candidate
//! whose expansion fails is skipped, never reported as an error.

use vstd::prelude::*;

use convert_case::Case;
use convert_case::Casing;

verus! {

/// A path starts with the home-directory marker `~/`.
pub open spec fn starts_with_tilde(p: Seq<char>) -> bool {
    p.len() >= 2 && p[0] == '~' && p[1] == '/'
}

/// The view of an optional borrowed string.
pub open spec fn opt_str_view(o: Option<&str>) -> Option<Seq<char>> {
    match o {
        Some(s) => Some(s@),
        None => None,
    }
}

/// The view of an optional owned string.
pub open spec fn opt_string_view(o: Option<String>) -> Option<Seq<char>> {
    match o {
        Some(s) => Some(s@),
        None => None,
    }
}

/// Home-directory expansion of a single path: a leading `~/` is replaced
/// by the home directory, a path without the marker is kept as it is, and
/// a path with the marker but no known home directory expands to nothing.
pub open spec fn expand_spec(p: Seq<char>, home: Option<Seq<char>>) -> Option<Seq<char>> {
    if starts_with_tilde(p) {
        match home {
            Some(h) => Some(h + "/"@ + p.subrange(2, p.len() as int)),
            None => None,
        }
    } else {
        Some(p)
    }
}

/// The i-th fallback path template for an application name, before
/// home-directory expansion.
pub open spec fn fallback_template(name: Seq<char>, i: int) -> Seq<char> {
    if i == 0 {
        "~/.config/"@ + name + "/config.toml"@
    } else if i == 1 {
        "/etc/"@ + name + "/config.toml"@
    } else if i == 2 {
        "/usr/local/etc/"@ + name + "/config.toml"@
    } else if i == 3 {
        "~/Library/Preferences/"@ + name + "/config.toml"@
    } else {
        "/Library/Preferences/"@ + name + "/config.toml"@
    }
}

/// What one candidate contributes to the probe list: its expansion, or
/// nothing when expansion fails.
pub open spec fn expanded_one(p: Seq<char>, home: Option<Seq<char>>) -> Seq<Seq<char>> {
    match expand_spec(p, home) {
        Some(q) => seq![q],
        None => Seq::empty(),
    }
}

/// What the override variable contributes to the probe list: its expanded
/// value when the variable is set to a non-empty string and expansion
/// succeeds, nothing otherwise.
pub open spec fn override_candidates(
    override_value: Option<Seq<char>>,
    home: Option<Seq<char>>,
) -> Seq<Seq<char>> {
    match override_value {
        Some(v) => if v.len() > 0 {
            expanded_one(v, home)
        } else {
            Seq::empty()
        },
        None => Seq::empty(),
    }
}

/// The full ordered list of paths to probe: the override value first,
/// then the five fallback locations, each after home-directory expansion
/// and with unexpandable candidates left out.
pub open spec fn candidate_list(
    name: Seq<char>,
    override_value: Option<Seq<char>>,
    home: Option<Seq<char>>,
) -> Seq<Seq<char>> {
    override_candidates(override_value, home) + expanded_one(fallback_template(name, 0), home)
        + expanded_one(fallback_template(name, 1), home)
        + expanded_one(fallback_template(name, 2), home)
        + expanded_one(fallback_template(name, 3), home)
        + expanded_one(fallback_template(name, 4), home)
}

/// The views of a sequence of owned strings.
pub open spec fn string_views(v: Seq<String>) -> Seq<Seq<char>> {
    v.map_values(|s: String| s@)
}

/// The constant-case (upper snake case) rendering of a string, as
/// convert_case computes it from the string's characters alone.
pub uninterp spec fn constant_case_of(s: Seq<char>) -> Seq<char>;

/// Relies on convert_case's `Casing::to_case` with `Case::Constant`:
/// splits the name at word boundaries, upper-cases each word, and joins
/// the words with underscores. The result depends on the characters of
/// the input alone.
#[verifier::external_body]
fn to_constant_case(s: &str) -> (r: String)
    ensures
        r@ == constant_case_of(s@),
{
    s.to_case(Case::Constant)
}

/// Relies on dirs::home_dir: the current user's home directory, or `None`
/// when it cannot be determined. The result depends on the process
/// environment, so nothing is promised of it; a home directory that is
/// not valid Unicode counts as undetermined.
#[verifier::external_body]
pub(crate) fn home_dir_string() -> (r: Option<String>)
{
    dirs::home_dir().and_then(|p| p.into_os_string().into_string().ok())
}

/// The name of the override environment variable for an application:
/// the application name in constant case, followed by `_CONFIG`.
pub fn override_var_name(name: &str) -> (r: String)
    ensures
        r@ == constant_case_of(name@) + "_CONFIG"@,
{
    let mut s = to_constant_case(name);
    s.append("_CONFIG");
    s
}

fn starts_with_tilde_exec(p: &str) -> (r: bool)
    ensures
        r == starts_with_tilde(p@),
{
    if p.unicode_len() >= 2 {
        p.get_char(0) == '~' && p.get_char(1) == '/'
    } else {
        false
    }
}

/// Expand a leading `~/` in a path against the given home directory.
/// A path without the marker is returned unchanged; with the marker but
/// no home directory, the path expands to nothing.
pub fn expand_home(path: &str, home: Option<&str>) -> (r: Option<String>)
    ensures
        opt_string_view(r) == expand_spec(path@, opt_str_view(home)),
{
    if starts_with_tilde_exec(path) {
        match home {
            Some(h) => {
                let mut s = String::from_str(h);
                s.append("/");
                let n = path.unicode_len();
                let rest = path.substring_char(2, n);
                s.append(rest);
                Some(s)
            },
            None => None,
        }
    } else {
        Some(String::from_str(path))
    }
}

fn join_name(prefix: &str, name: &str) -> (r: String)
    ensures
        r@ == prefix@ + name@ + "/config.toml"@,
{
    let mut s = String::from_str(prefix);
    s.append(name);
    s.append("/config.toml");
    s
}

fn push_expanded(out: &mut Vec<String>, path: &str, home: Option<&str>)
    ensures
        string_views(final(out)@) == string_views(old(out)@) + expanded_one(
            path@,
            opt_str_view(home),
        ),
{
    match expand_home(path, home) {
        Some(p) => out.push(p),
        None => {},
    }
    proof {
        assert(string_views(out@) =~= string_views(old(out)@) + expanded_one(
            path@,
            opt_str_view(home),
        ));
    }
}

/// The ordered candidate paths for an application, given the override
/// variable's value and the home directory: the override first (when set,
/// non-empty and expandable), then the five fallback locations, each
/// expanded, with unexpandable candidates skipped.
pub fn candidate_paths(name: &str, override_value: Option<&str>, home: Option<&str>) -> (r: Vec<
    String,
>)
    ensures
        string_views(r@) == candidate_list(name@, opt_str_view(override_value), opt_str_view(home)),
{
    let mut out: Vec<String> = Vec::new();
    match override_value {
        Some(v) => {
            if !v.is_empty() {
                push_expanded(&mut out, v, home);
            }
        },
        None => {},
    }
    proof {
        assert(string_views(out@) =~= override_candidates(
            opt_str_view(override_value),
            opt_str_view(home),
        ));
    }
    let t0 = join_name("~/.config/", name);
    push_expanded(&mut out, t0.as_str(), home);
    let t1 = join_name("/etc/", name);
    push_expanded(&mut out, t1.as_str(), home);
    let t2 = join_name("/usr/local/etc/", name);
    push_expanded(&mut out, t2.as_str(), home);
    let t3 = join_name("~/Library/Preferences/", name);
    push_expanded(&mut out, t3.as_str(), home);
    let t4 = join_name("/Library/Preferences/", name);
    push_expanded(&mut out, t4.as_str(), home);
    out
}

} // verus!
