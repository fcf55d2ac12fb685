//! Laws of the resolution model.
//!
//! These proof functions state, once and for all probe outcomes, how the
//! resolution behaves: the first decisive outcome wins and nothing after
//! it is probed, a missing file merely moves resolution to the next
//! candidate, and exhausting every candidate yields [`Error::NoPath`].

use vstd::prelude::*;

use crate::errors::Error;
use crate::paths::candidate_list;
use crate::paths::expand_spec;
use crate::paths::override_candidates;
use crate::resolve::Outcome;
use crate::resolve::all_missing;
use crate::resolve::probes_model;
use crate::resolve::resolve_model;

verus! {

/// When the override variable is set to a non-empty value that expands,
/// its expansion is the first candidate probed, ahead of every fallback.
pub proof fn lemma_override_is_first_candidate(
    name: Seq<char>,
    v: Seq<char>,
    home: Option<Seq<char>>,
    p: Seq<char>,
)
    requires
        v.len() > 0,
        expand_spec(v, home) == Some(p),
    ensures
        candidate_list(name, Some(v), home).len() > 0,
        candidate_list(name, Some(v), home)[0] == p,
{
    assert(override_candidates(Some(v), home) == seq![p]);
}

/// A successful parse at the first probed candidate is the result, after
/// exactly one probe: no later candidate is looked at.
pub proof fn lemma_first_parse_wins<Config, ParseError>(
    outs: Seq<Outcome<Config, ParseError>>,
    c: Config,
)
    requires
        outs.len() > 0,
        outs[0] == Outcome::<Config, ParseError>::Parsed(Ok(c)),
    ensures
        resolve_model(outs) == Ok::<Config, Error<ParseError>>(c),
        probes_model(outs) == 1,
{
}

/// A missing file at the first probed candidate only moves resolution on
/// to the remaining candidates; it surfaces no error of its own.
pub proof fn lemma_missing_continues<Config, ParseError>(outs: Seq<Outcome<Config, ParseError>>)
    requires
        outs.len() > 0,
        outs[0] is Missing,
    ensures
        resolve_model(outs) == resolve_model(outs.skip(1)),
        probes_model(outs) == 1 + probes_model(outs.skip(1)),
{
}

/// A parse failure at the first probed candidate ends the resolution at
/// once with [`Error::Parse`]: no later candidate is tried.
pub proof fn lemma_parse_failure_aborts<Config, ParseError>(
    outs: Seq<Outcome<Config, ParseError>>,
    e: ParseError,
)
    requires
        outs.len() > 0,
        outs[0] == Outcome::<Config, ParseError>::Parsed(Err(e)),
    ensures
        resolve_model(outs) == Err::<Config, Error<ParseError>>(Error::Parse(e)),
        probes_model(outs) == 1,
{
}

/// A read failure other than "file not found" at the first probed
/// candidate ends the resolution at once with [`Error::Io`], carrying
/// the OS error verbatim: no later candidate is tried.
pub proof fn lemma_read_failure_aborts<Config, ParseError>(
    outs: Seq<Outcome<Config, ParseError>>,
    e: std::io::Error,
)
    requires
        outs.len() > 0,
        outs[0] == Outcome::<Config, ParseError>::Failed(e),
    ensures
        resolve_model(outs) == Err::<Config, Error<ParseError>>(Error::Io(e)),
        probes_model(outs) == 1,
{
}

/// When every candidate's file is missing, the resolution fails with
/// [`Error::NoPath`], after probing all of them.
pub proof fn lemma_all_missing_no_path<Config, ParseError>(outs: Seq<Outcome<Config, ParseError>>)
    requires
        all_missing(outs),
    ensures
        resolve_model(outs) == Err::<Config, Error<ParseError>>(Error::NoPath),
        probes_model(outs) == outs.len(),
    decreases outs.len(),
{
    if outs.len() > 0 {
        assert(all_missing(outs.skip(1))) by {
            assert(forall|i: int|
                0 <= i < outs.skip(1).len() ==> outs.skip(1)[i] == outs[i + 1]);
        }
        lemma_all_missing_no_path::<Config, ParseError>(outs.skip(1));
    }
}

/// A home-directory marker with no known home directory makes the
/// candidate expand to nothing, so it is skipped rather than reported:
/// the candidate list is the same as if the candidate contributed no
/// path at all, and no error enters the model for it.
pub proof fn lemma_no_home_skips_candidate(p: Seq<char>)
    requires
        crate::paths::starts_with_tilde(p),
    ensures
        expand_spec(p, None) is None,
        crate::paths::expanded_one(p, None) == Seq::<Seq<char>>::empty(),
{
}

} // verus!
