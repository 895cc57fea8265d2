use vstd::prelude::*;

verus! {

/// Name under which an actor is known to the message component.
#[derive(Debug)]
pub struct ActorId(String);

impl View for ActorId {
    type V = Seq<char>;

    closed spec fn view(&self) -> Seq<char> {
        self.0@
    }
}

impl ActorId {
    /// Creates an actor name from its text.
    pub fn new(text: String) -> (id: Self)
        ensures
            id@ == text@,
    {
        ActorId(text)
    }

    /// Returns the actor name text.
    pub fn as_str(&self) -> (text: &str)
        ensures
            text@ == self@,
    {
        self.0.as_str()
    }

    /// The actor name text, taken out of the name.
    pub fn into_text(self) -> (text: String)
        ensures
            text@ == self@,
    {
        self.0
    }

    /// A second actor name with the same text.
    pub fn duplicate(&self) -> (id: Self)
        ensures
            id@ == self@,
    {
        ActorId(self.0.clone())
    }
}

/// An actor of the local index: its name and the process that speaks for it.
#[derive(Debug)]
pub struct Actor {
    pub name: ActorId,
    pub pid: u32,
}

} // verus!
