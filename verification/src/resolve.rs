//! The probing state machine.
//!
//! Candidates are probed strictly in order. The embedding application
//! asks for the next path, attempts to read and parse the file there,
//! and reports the outcome. A missing file means "try the next
//! candidate"; every other outcome — a read failure, a parse failure,
//! or a successful parse — ends the resolution at once. When every
//! candidate is exhausted the resolution ends with [`Error::NoPath`].
//!
//! The machine keeps a ghost log of the outcomes reported so far, and
//! its answer is proved equal to [`resolve_model`], the mathematical
//! resolution of that log: whatever outcomes the environment produces,
//! the machine computes exactly what the model says.

use vstd::prelude::*;

use crate::errors::Error;
use crate::paths::candidate_list;
use crate::paths::candidate_paths;
use crate::paths::home_dir_string;
use crate::paths::opt_str_view;
use crate::paths::opt_string_view;
use crate::paths::string_views;

verus! {

/// What probing one candidate path produced.
#[derive(Debug)]
pub enum Outcome<Config, ParseError> {
    /// No file exists at the path ("file not found").
    Missing,
    /// The file could not be read for another reason; the OS error is
    /// carried verbatim.
    Failed(std::io::Error),
    /// The file was read and handed to the caller's parser; this is the
    /// parser's verdict.
    Parsed(Result<Config, ParseError>),
}

/// The resolution that a single probe outcome forces, were it the last
/// word: a missing file leaves no path found, any other outcome is final.
pub open spec fn outcome_result<Config, ParseError>(
    out: Outcome<Config, ParseError>,
) -> Result<Config, Error<ParseError>> {
    match out {
        Outcome::Missing => Err(Error::NoPath),
        Outcome::Failed(e) => Err(Error::Io(e)),
        Outcome::Parsed(Ok(c)) => Ok(c),
        Outcome::Parsed(Err(e)) => Err(Error::Parse(e)),
    }
}

/// The mathematical resolution of a sequence of probe outcomes: skip
/// leading misses, return the first decisive outcome, and fail with
/// [`Error::NoPath`] when every probe missed.
pub open spec fn resolve_model<Config, ParseError>(
    outs: Seq<Outcome<Config, ParseError>>,
) -> Result<Config, Error<ParseError>>
    decreases outs.len(),
{
    if outs.len() == 0 {
        Err(Error::NoPath)
    } else if outs[0] is Missing {
        resolve_model(outs.skip(1))
    } else {
        outcome_result(outs[0])
    }
}

/// How many probes the model consumes before it stops: the leading
/// misses plus the decisive outcome, or all of them.
pub open spec fn probes_model<Config, ParseError>(outs: Seq<Outcome<Config, ParseError>>) -> int
    decreases outs.len(),
{
    if outs.len() == 0 {
        0
    } else if outs[0] is Missing {
        1 + probes_model(outs.skip(1))
    } else {
        1
    }
}

/// Every outcome in the sequence is a miss.
pub open spec fn all_missing<Config, ParseError>(outs: Seq<Outcome<Config, ParseError>>) -> bool {
    forall|i: int| 0 <= i < outs.len() ==> outs[i] is Missing
}

/// After a run of misses, one more outcome decides the resolution.
proof fn lemma_model_after_misses<Config, ParseError>(
    outs: Seq<Outcome<Config, ParseError>>,
    out: Outcome<Config, ParseError>,
)
    requires
        all_missing(outs),
    ensures
        resolve_model(outs.push(out)) == outcome_result(out),
    decreases outs.len(),
{
    if outs.len() == 0 {
        assert(outs.push(out)[0] == out);
        if out is Missing {
            assert(outs.push(out).skip(1) =~= Seq::<Outcome<Config, ParseError>>::empty());
            assert(resolve_model(Seq::<Outcome<Config, ParseError>>::empty()) == Err::<
                Config,
                Error<ParseError>,
            >(Error::NoPath));
            assert(resolve_model(outs.push(out)) == Err::<Config, Error<ParseError>>(
                Error::NoPath,
            ));
        } else {
            assert(resolve_model(outs.push(out)) == outcome_result(out));
        }
    } else {
        assert(outs.push(out)[0] == outs[0]);
        assert(outs[0] is Missing);
        assert(all_missing(outs.skip(1))) by {
            assert(forall|i: int|
                0 <= i < outs.skip(1).len() ==> outs.skip(1)[i] == outs[i + 1]);
        }
        assert(outs.push(out).skip(1) =~= outs.skip(1).push(out));
        lemma_model_after_misses(outs.skip(1), out);
        assert(resolve_model(outs.skip(1).push(out)) == outcome_result(out));
        assert(resolve_model(outs.push(out)) == resolve_model(outs.push(out).skip(1)));
    }
}

/// One resolution of a configuration file: the ordered candidate paths,
/// how many have been probed, and (in ghost state) the outcomes reported
/// so far.
pub struct Resolution<Config, ParseError> {
    candidates: Vec<String>,
    probed: usize,
    outcomes: Ghost<Seq<Outcome<Config, ParseError>>>,
}

impl<Config, ParseError> Resolution<Config, ParseError> {
    /// The candidate paths, in probing order.
    pub closed spec fn paths(self) -> Seq<Seq<char>> {
        string_views(self.candidates@)
    }

    /// The outcomes reported so far, in probing order.
    pub closed spec fn observed(self) -> Seq<Outcome<Config, ParseError>> {
        self.outcomes@
    }

    /// One outcome was reported for each probed candidate, and no more
    /// candidates than exist.
    pub closed spec fn inv(self) -> bool {
        self.probed == self.outcomes@.len() && self.probed <= self.candidates@.len()
    }

    /// The resolution is still undecided: every probe so far missed and
    /// candidates remain.
    pub open spec fn in_progress(self) -> bool {
        all_missing(self.observed()) && self.observed().len() < self.paths().len()
    }

    /// Begin a resolution over the candidate paths for `name`, given the
    /// override variable's value and the home directory.
    pub fn new_with_home(name: &str, override_value: Option<&str>, home: Option<&str>) -> (r: Self)
        ensures
            r.inv(),
            r.observed() == Seq::<Outcome<Config, ParseError>>::empty(),
            r.paths() == candidate_list(name@, opt_str_view(override_value), opt_str_view(home)),
    {
        Resolution {
            candidates: candidate_paths(name, override_value, home),
            probed: 0,
            outcomes: Ghost(Seq::empty()),
        }
    }

    /// Begin a resolution over the candidate paths for `name`, with the
    /// home directory looked up from the environment. Whatever that
    /// lookup returns, the candidates are those of [`candidate_list`]
    /// for some home directory.
    pub fn new(name: &str, override_value: Option<&str>) -> (r: Self)
        ensures
            r.inv(),
            r.observed() == Seq::<Outcome<Config, ParseError>>::empty(),
            exists|home: Option<Seq<char>>|
                r.paths() == candidate_list(name@, opt_str_view(override_value), home),
    {
        let home = home_dir_string();
        let home_ref = match &home {
            Some(h) => Some(h.as_str()),
            None => None,
        };
        let r = Self::new_with_home(name, override_value, home_ref);
        proof {
            assert(r.paths() == candidate_list(
                name@,
                opt_str_view(override_value),
                opt_string_view(home),
            ));
        }
        r
    }

    /// The next path to probe, or `None` when every candidate has been
    /// probed.
    pub fn next_path(&self) -> (r: Option<&String>)
        requires
            self.inv(),
        ensures
            match r {
                Some(p) => self.observed().len() < self.paths().len() && p@ == self.paths()[
                    self.observed().len() as int
                ],
                None => self.observed().len() == self.paths().len(),
            },
    {
        if self.probed < self.candidates.len() {
            Some(&self.candidates[self.probed])
        } else {
            None
        }
    }

    /// Report the outcome of probing the current candidate. Returns
    /// `None` when resolution should continue with the next candidate
    /// (the file was missing and candidates remain), and the final
    /// result otherwise — which is proved to be exactly the model's
    /// resolution of everything observed.
    pub fn report(&mut self, out: Outcome<Config, ParseError>) -> (r: Option<
        Result<Config, Error<ParseError>>,
    >)
        requires
            old(self).inv(),
            old(self).in_progress(),
        ensures
            final(self).inv(),
            final(self).paths() == old(self).paths(),
            final(self).observed() == old(self).observed().push(out),
            r is None <==> (out is Missing && final(self).observed().len() < final(self).paths().len()),
            r is None ==> final(self).in_progress(),
            r matches Some(res) ==> res == resolve_model(final(self).observed()),
    {
        let n = self.candidates.len();
        proof {
            self.outcomes@ = self.outcomes@.push(out);
            assert(old(self).paths().len() == old(self).candidates@.len());
            assert(self.probed < n);
        }
        self.probed = self.probed + 1;
        proof {
            lemma_model_after_misses(old(self).observed(), out);
        }
        match out {
            Outcome::Missing => {
                if self.probed < n {
                    None
                } else {
                    Some(Err(Error::NoPath))
                }
            },
            Outcome::Failed(e) => Some(Err(Error::Io(e))),
            Outcome::Parsed(Ok(c)) => Some(Ok(c)),
            Outcome::Parsed(Err(e)) => Some(Err(Error::Parse(e))),
        }
    }
}

} // verus!
