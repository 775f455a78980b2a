use vstd::prelude::*;

verus! {

/// An error of the tracker, carrying a message for the user.
#[derive(Debug)]
pub struct ChainError {
    details: String,
}

impl View for ChainError {
    type V = Seq<char>;

    closed spec fn view(&self) -> Seq<char> {
        self.details@
    }
}

impl ChainError {
    /// An error with the given message.
    pub fn new(msg: &str) -> (r: ChainError)
        ensures
            r@ == msg@,
    {
        ChainError { details: msg.to_string() }
    }

    /// The message this error carries.
    pub fn description(&self) -> (r: &str)
        ensures
            r@ == self@,
    {
        self.details.as_str()
    }
}

} // verus!
