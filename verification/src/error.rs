use vstd::prelude::*;

verus! {

/// The failure of a native operation, with the engine's own words for it.
///
/// The message is owned: nothing of the engine's memory is kept.
#[derive(Debug, PartialEq, Eq)]
pub struct Error {
    message: String,
}

impl View for Error {
    type V = Seq<char>;

    closed spec fn view(&self) -> Seq<char> {
        self.message@
    }
}

impl Error {
    /// An error that carries `message` as the engine gave it.
    pub fn new(message: String) -> (error: Error)
        ensures
            error@ == message@,
    {
        Error { message }
    }

    /// The engine's message.
    pub fn message(&self) -> (message: &str)
        ensures
            message@ == self@,
    {
        self.message.as_str()
    }

    /// The engine's message, taken out of the error.
    pub fn into_string(self) -> (message: String)
        ensures
            message@ == self@,
    {
        self.message
    }
}

} // verus!
