//! Utilities for game engine error handling.

use vstd::prelude::*;

verus! {

/// General error type of the game engine.
///
/// Contains a general message and, if there is one, the description of the
/// error that caused it.
#[derive(Debug)]
pub struct Error {
    message: String,
    source: Option<String>,
}

impl Error {
    /// The general message of this error.
    pub closed spec fn message_view(&self) -> Seq<char> {
        self.message@
    }

    /// The description of the underlying cause of this error, if any.
    pub closed spec fn source_view(&self) -> Option<Seq<char>> {
        match &self.source {
            Some(source) => Some(source@),
            None => None,
        }
    }

    /// What `to_string` gives for an error with this message and source:
    /// the message, followed by the source in round brackets when there is one.
    pub open spec fn display_of(message: Seq<char>, source: Option<Seq<char>>) -> Seq<char> {
        match source {
            Some(source) => message + " ("@ + source + ")"@,
            None => message,
        }
    }

    /// Creates new error with specified message and description of the
    /// error that caused it.
    pub fn new(message: String, source: String) -> (error: Self)
        ensures
            error.message_view() == message@,
            error.source_view() == Some(source@),
    {
        Self { message, source: Some(source) }
    }

    /// Creates new error with specified message and no source.
    pub fn from_message(message: String) -> (error: Self)
        ensures
            error.message_view() == message@,
            error.source_view() == None::<Seq<char>>,
    {
        Self { message, source: None }
    }

    /// The description of the underlying cause of this error, if any.
    pub fn source(&self) -> (source: Option<&String>)
        ensures
            match source {
                Some(s) => self.source_view() == Some(s@),
                None => self.source_view() is None,
            },
    {
        self.source.as_ref()
    }

    /// Formats this error as it is shown to a user.
    pub fn to_string(&self) -> (text: String)
        ensures
            text@ == Self::display_of(self.message_view(), self.source_view()),
    {
        let mut text = self.message.clone();
        match &self.source {
            Some(source) => {
                proof {
                    reveal_strlit(" (");
                    reveal_strlit(")");
                }
                text.append(" (");
                text.append(source.as_str());
                text.append(")");
            },
            None => {},
        }
        text
    }
}

/// An error without a source is shown as its message alone; one with a
/// source shows the message first and the source after it.
pub proof fn lemma_display_starts_with_message(message: Seq<char>, source: Option<Seq<char>>)
    ensures
        source is None ==> Error::display_of(message, source) == message,
        Error::display_of(message, source).len() >= message.len(),
        Error::display_of(message, source).take(message.len() as int) == message,
{
    let shown = Error::display_of(message, source);
    assert(shown.take(message.len() as int) =~= message);
}

impl From<String> for Error {
    fn from(message: String) -> (error: Self)
        ensures
            error.message_view() == message@,
            error.source_view() is None,
    {
        Self::from_message(message)
    }
}

/// Verus needs this companion of the `From` impl above. A `String` cannot be
/// built in a spec function, so the conversion is not claimed to follow a
/// spec function (`obeys_from_spec` is false); what a call of `from` gives
/// is stated by the `ensures` of the impl above.
impl vstd::std_specs::convert::FromSpecImpl<String> for Error {
    open spec fn obeys_from_spec() -> bool {
        false
    }

    open spec fn from_spec(message: String) -> Self {
        choose|error: Error| error.message_view() == message@ && error.source_view() is None
    }
}

impl<'a> From<&'a str> for Error {
    fn from(message: &'a str) -> (error: Self)
        ensures
            error.message_view() == message@,
            error.source_view() is None,
    {
        Self::from_message(String::from_str(message))
    }
}

/// Verus needs this companion of the `From` impl above. A `String` cannot be
/// built in a spec function, so the conversion is not claimed to follow a
/// spec function (`obeys_from_spec` is false); what a call of `from` gives
/// is stated by the `ensures` of the impl above.
impl<'a> vstd::std_specs::convert::FromSpecImpl<&'a str> for Error {
    open spec fn obeys_from_spec() -> bool {
        false
    }

    open spec fn from_spec(message: &'a str) -> Self {
        choose|error: Error| error.message_view() == message@ && error.source_view() is None
    }
}

} // verus!
