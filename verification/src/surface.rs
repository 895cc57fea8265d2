use vstd::prelude::*;

verus! {

/// Name of the message recipient as written on the CLI surface.
#[derive(Debug)]
pub struct RecipientName(String);

impl View for RecipientName {
    type V = Seq<char>;

    closed spec fn view(&self) -> Seq<char> {
        self.0@
    }
}

impl RecipientName {
    /// Creates a recipient name from the CLI text projection.
    pub fn new(text: String) -> (name: Self)
        ensures
            name@ == text@,
    {
        RecipientName(text)
    }

    /// Returns the recipient name text.
    pub fn as_str(&self) -> (text: &str)
        ensures
            text@ == self@,
    {
        self.0.as_str()
    }
}

} // verus!
