use vstd::prelude::*;

verus! {

/// A comment that comes with the verdict on a fork.
#[derive(Debug, PartialEq, Eq)]
pub struct Comment(pub String);

impl View for Comment {
    type V = Seq<char>;

    open spec fn view(&self) -> Seq<char> {
        self.0@
    }
}

impl Clone for Comment {
    fn clone(&self) -> (c: Comment)
        ensures
            c == *self,
    {
        Comment(self.0.clone())
    }
}

impl Comment {
    /// The comment's text.
    pub fn as_str(&self) -> (s: &str)
        ensures
            s@ == self@,
    {
        self.0.as_str()
    }
}

impl From<String> for Comment {
    fn from(value: String) -> (c: Comment) {
        Comment(value)
    }
}

impl vstd::std_specs::convert::FromSpecImpl<String> for Comment {
    open spec fn obeys_from_spec() -> bool {
        true
    }

    open spec fn from_spec(value: String) -> Comment {
        Comment(value)
    }
}

impl Comment {
    /// The comment with a copy of the given text.
    pub fn from_str(value: &str) -> (c: Comment)
        ensures
            c@ == value@,
    {
        Comment(value.to_owned())
    }
}

} // verus!
