use vstd::prelude::*;

verus! {

/// An error reported by the blue-light filter; it carries a human-readable message.
#[derive(Debug)]
pub struct FilterError(String);

impl View for FilterError {
    type V = Seq<char>;

    closed spec fn view(&self) -> Seq<char> {
        self.0@
    }
}

impl FilterError {
    /// Creates an error with the given message.
    pub fn new(message: String) -> (err: Self)
        ensures
            err@ == message@,
    {
        FilterError(message)
    }

    /// Creates an error whose message is the given text.
    pub fn from_text(message: &str) -> (err: Self)
        ensures
            err@ == message@,
    {
        FilterError(String::from_str(message))
    }

    /// The message of this error, as it is displayed to the user.
    pub fn to_string(&self) -> (text: String)
        ensures
            text@ == self@,
    {
        self.0.clone()
    }
}

} // verus!
