use vstd::prelude::*;

verus! {

/// The text of a story fragment.
#[derive(Debug, PartialEq, Eq)]
pub struct Content(pub String);

impl View for Content {
    type V = Seq<char>;

    open spec fn view(&self) -> Seq<char> {
        self.0@
    }
}

impl Clone for Content {
    fn clone(&self) -> (c: Content)
        ensures
            c == *self,
    {
        Content(self.0.clone())
    }
}

impl Content {
    /// The content's text.
    pub fn as_str(&self) -> (s: &str)
        ensures
            s@ == self@,
    {
        self.0.as_str()
    }
}

impl From<String> for Content {
    fn from(value: String) -> (c: Content) {
        Content(value)
    }
}

impl vstd::std_specs::convert::FromSpecImpl<String> for Content {
    open spec fn obeys_from_spec() -> bool {
        true
    }

    open spec fn from_spec(value: String) -> Content {
        Content(value)
    }
}

impl Content {
    /// The content with a copy of the given text.
    pub fn from_str(value: &str) -> (c: Content)
        ensures
            c@ == value@,
    {
        Content(value.to_owned())
    }
}

} // verus!
