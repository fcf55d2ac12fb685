//! The error taxonomy of configuration loading.

use vstd::prelude::*;

verus! {

/// The operating-system error type, carried through opaquely. The library
/// never inspects such a value; the embedding application classifies a read
/// failure as "file not found" or not before handing it in, and receives the
/// untouched error back inside [`Error::Io`].
#[verifier::external_type_specification]
#[verifier::external_body]
pub struct ExIoError(std::io::Error);

/// Why a configuration could not be loaded.
#[derive(Debug)]
pub enum Error<ParseError> {
    /// A candidate file existed but reading it failed with an error other
    /// than "file not found". The underlying OS error is carried verbatim.
    Io(std::io::Error),
    /// A candidate file was read but the caller's parser rejected it.
    /// The parser's own error is carried verbatim.
    Parse(ParseError),
    /// No candidate path held a readable file.
    NoPath,
}

} // verus!
