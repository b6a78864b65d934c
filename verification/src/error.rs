//! The error type that every fallible operation of the parser returns.

use vstd::prelude::*;
use vstd::std_specs::convert::{FromSpec, FromSpecImpl};
use vstd::string::to_string_from_display_ensures;

verus! {

/// An I/O failure of the standard library, `std::io::Error`. The library
/// never looks inside one: it is moved in, handed back as a cause, and asked
/// for its display text.
#[verifier::external_type_specification]
#[verifier::external_body]
pub struct ExIoError(std::io::Error);

/// What went wrong, by origin.
#[derive(Debug)]
pub enum PestError {
    /// An I/O operation failed; the failure itself is kept.
    IOError(std::io::Error),
    /// A code path that the parser believed impossible was taken.
    Unreachable(String),
    /// The input does not follow the grammar.
    ParseFail(String),
    /// A value could not be rendered back to text.
    FormatFail(String),
}

/// The result of every fallible operation of the parser.
pub type PestResult<T> = Result<T, PestError>;

/// The mathematical value of a [`PestError`]: the same four variants, each
/// message as a sequence of characters.
pub ghost enum PestErrorView {
    IOError(std::io::Error),
    Unreachable(Seq<char>),
    ParseFail(Seq<char>),
    FormatFail(Seq<char>),
}

impl PestErrorView {
    /// The stored message; an `IOError` stores none.
    pub open spec fn message(self) -> Option<Seq<char>> {
        match self {
            PestErrorView::IOError(_) => None,
            PestErrorView::Unreachable(m) => Some(m),
            PestErrorView::ParseFail(m) => Some(m),
            PestErrorView::FormatFail(m) => Some(m),
        }
    }

    /// The underlying failure; only an `IOError` has one.
    pub open spec fn cause(self) -> Option<std::io::Error> {
        match self {
            PestErrorView::IOError(e) => Some(e),
            _ => None,
        }
    }

    /// Whether `text` is the display text of this error: the stored message
    /// verbatim, or for an `IOError` a text that the wrapped failure displays
    /// as, with nothing added.
    pub open spec fn displays(self, text: String) -> bool {
        match self {
            PestErrorView::IOError(e) => to_string_from_display_ensures::<std::io::Error>(
                &e,
                text,
            ),
            PestErrorView::Unreachable(m) => text@ == m,
            PestErrorView::ParseFail(m) => text@ == m,
            PestErrorView::FormatFail(m) => text@ == m,
        }
    }
}

impl View for PestError {
    type V = PestErrorView;

    open spec fn view(&self) -> PestErrorView {
        match self {
            PestError::IOError(e) => PestErrorView::IOError(*e),
            PestError::Unreachable(m) => PestErrorView::Unreachable(m@),
            PestError::ParseFail(m) => PestErrorView::ParseFail(m@),
            PestError::FormatFail(m) => PestErrorView::FormatFail(m@),
        }
    }
}

/// Whether `text` holds no line break.
pub open spec fn is_single_line(text: Seq<char>) -> bool {
    forall|i: int| 0 <= i < text.len() ==> text[i] != '\n'
}

impl From<std::io::Error> for PestError {
    /// Wraps an I/O failure, which is kept whole.
    fn from(e: std::io::Error) -> (err: PestError)
        ensures
            err@ == PestErrorView::IOError(e),
    {
        PestError::IOError(e)
    }
}

impl FromSpecImpl<std::io::Error> for PestError {
    open spec fn obeys_from_spec() -> bool {
        true
    }

    open spec fn from_spec(e: std::io::Error) -> PestError {
        PestError::IOError(e)
    }
}

impl<'a> From<&'a str> for PestError {
    /// A parse failure with the message `s`.
    fn from(s: &'a str) -> (err: PestError)
        ensures
            err@ == PestErrorView::ParseFail(s@),
    {
        PestError::ParseFail(s.to_owned())
    }
}

impl<'a> FromSpecImpl<&'a str> for PestError {
    /// Two strings with the same characters need not be the same value, so
    /// the conversion is stated by its view, in the `ensures` of `from`.
    open spec fn obeys_from_spec() -> bool {
        false
    }

    open spec fn from_spec(s: &'a str) -> PestError {
        PestError::ParseFail(choose|m: String| m@ == s@)
    }
}

impl PestError {
    /// The underlying failure: the wrapped I/O failure of an `IOError`, none
    /// for the other variants.
    pub fn source(&self) -> (cause: Option<&std::io::Error>)
        ensures
            cause is Some <==> self@ is IOError,
            match self@.cause() {
                Some(e) => cause == Some(&e),
                None => cause is None,
            },
    {
        match self {
            PestError::IOError(e) => Some(e),
            _ => None,
        }
    }

    /// The older name of [`PestError::source`].
    pub fn cause(&self) -> (cause: Option<&std::io::Error>)
        ensures
            cause is Some <==> self@ is IOError,
            match self@.cause() {
                Some(e) => cause == Some(&e),
                None => cause is None,
            },
    {
        self.source()
    }

    /// A fixed notice that points to the display text.
    pub fn description(&self) -> (text: &'static str)
        ensures
            text@ == "description() is deprecated; use Display"@,
    {
        "description() is deprecated; use Display"
    }

    /// The display text: the stored message verbatim; for an `IOError` what
    /// `to_string` gives for the wrapped failure, with no prefix. That call
    /// is the standard library's, and its result is taken as it comes.
    pub fn to_string(&self) -> (text: String)
        ensures
            self@.displays(text),
    {
        match self {
            PestError::IOError(e) => e.to_string(),
            PestError::Unreachable(m) => m.clone(),
            PestError::ParseFail(m) => m.clone(),
            PestError::FormatFail(m) => m.clone(),
        }
    }
}

/// An error made from an I/O failure is an `IOError` that holds the
/// failure, and a text is its display text exactly when it is a display text
/// of the failure.
pub proof fn lemma_io_error_displays_as_cause(e: std::io::Error, text: String)
    ensures
        <PestError as FromSpec<std::io::Error>>::obeys_from_spec(),
        <PestError as FromSpec<std::io::Error>>::from_spec(e)@ == PestErrorView::IOError(e),
        PestErrorView::IOError(e).cause() == Some(e),
        PestErrorView::IOError(e).displays(text) <==> to_string_from_display_ensures::<
            std::io::Error,
        >(&e, text),
{
}

/// An error made from a text is a `ParseFail` with that text as its message,
/// it has no cause, and its display text is that text and no other.
pub proof fn lemma_parse_fail_displays_message(err: PestError, s: Seq<char>, text: String)
    requires
        err@ == PestErrorView::ParseFail(s),
    ensures
        err@.message() == Some(s),
        err@.cause() is None,
        err@.displays(text) <==> text@ == s,
{
}

/// Only an `IOError` has a cause, and only the other variants a message.
pub proof fn lemma_cause_only_for_io_error(err: PestErrorView)
    ensures
        err.cause() is Some <==> err is IOError,
        err.message() is None <==> err is IOError,
{
}

/// The display text of a stored message is that message: where the message
/// has no line break, neither has the display text.
pub proof fn lemma_display_of_message(err: PestErrorView, text: String)
    requires
        err.message() is Some,
        err.displays(text),
    ensures
        text@ == err.message().unwrap(),
        is_single_line(err.message().unwrap()) ==> is_single_line(text@),
{
}

} // verus!
