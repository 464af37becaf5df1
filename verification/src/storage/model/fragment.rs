use vstd::prelude::*;
use crate::commons::clock::DateTime;
use crate::commons::fragment::Content;
use crate::commons::id::Id;
use crate::storage::model::review::ReviewAction;

verus! {

/// Where a fragment stands in its life: written; submitted for the parent's
/// author to review (forks only), or waiting for that review; approved or
/// rejected by it; or published.
#[derive(Debug, Clone, Copy, PartialEq, Eq, Structural)]
pub enum FragmentState {
    Draft,
    Submitted,
    WaitingReview,
    Approved,
    Rejected,
    Published,
}

impl FragmentState {
    /// The state that a review's verdict moves a fork to.
    pub open spec fn spec_from_action(action: ReviewAction) -> FragmentState {
        match action {
            ReviewAction::Approve => FragmentState::Approved,
            ReviewAction::Reject => FragmentState::Rejected,
        }
    }

    pub fn from_action(action: ReviewAction) -> (s: FragmentState)
        ensures
            s == FragmentState::spec_from_action(action),
    {
        match action {
            ReviewAction::Approve => FragmentState::Approved,
            ReviewAction::Reject => FragmentState::Rejected,
        }
    }
}

/// The ids of a fragment's ancestors, from the root of the story down to
/// its parent.
#[derive(Debug, PartialEq, Eq)]
pub struct Path {
    pub ids: Vec<Id>,
}

impl View for Path {
    type V = Seq<Id>;

    open spec fn view(&self) -> Seq<Id> {
        self.ids@
    }
}

impl Path {
    /// The path of a root fragment.
    pub fn empty() -> (p: Path)
        ensures
            p@ == Seq::<Id>::empty(),
    {
        Path { ids: Vec::new() }
    }

    /// The path of a child whose parent has this path and the id `id`.
    pub fn append(&self, id: Id) -> (p: Path)
        ensures
            p@ == self@.push(id),
    {
        let mut ids: Vec<Id> = Vec::new();
        let n = self.ids.len();
        let mut i: usize = 0;
        while i < n
            invariant
                n == self.ids@.len(),
                i <= n,
                ids@ == self.ids@.subrange(0, i as int),
            decreases n - i,
        {
            ids.push(self.ids[i]);
            i = i + 1;
        }
        proof {
            assert(self.ids@.subrange(0, n as int) == self.ids@);
        }
        ids.push(id);
        Path { ids }
    }
}

impl Clone for Path {
    fn clone(&self) -> (p: Path)
        ensures
            p@ == self@,
    {
        let mut ids: Vec<Id> = Vec::new();
        let n = self.ids.len();
        let mut i: usize = 0;
        while i < n
            invariant
                n == self.ids@.len(),
                i <= n,
                ids@ == self.ids@.subrange(0, i as int),
            decreases n - i,
        {
            ids.push(self.ids[i]);
            i = i + 1;
        }
        proof {
            assert(self.ids@.subrange(0, n as int) == self.ids@);
        }
        Path { ids }
    }
}

/// A fragment of a story. A fragment with a parent is a fork of that parent.
#[derive(Debug, PartialEq, Eq)]
pub struct Fragment {
    pub id: Id,
    pub author_id: Id,
    pub content: Content,
    pub state: FragmentState,
    pub parent_id: Option<Id>,
    pub path: Path,
    pub end: bool,
    pub created_at: DateTime,
    pub last_modified_at: DateTime,
}

impl Fragment {
    pub open spec fn spec_is_fork(&self) -> bool {
        self.parent_id is Some
    }

    /// Only a draft can be edited.
    pub open spec fn spec_is_editable(&self) -> bool {
        self.state == FragmentState::Draft
    }

    /// A fragment of one's own is published from its draft; a fork is
    /// published once its review approved it.
    pub open spec fn spec_is_publishable(&self) -> bool {
        ||| (self.state == FragmentState::Draft && !self.spec_is_fork())
        ||| (self.state == FragmentState::Approved && self.spec_is_fork())
    }

    /// A fork awaits its review once submitted (or marked as waiting for it).
    pub open spec fn spec_is_waiting_review(&self) -> bool {
        self.state == FragmentState::Submitted || self.state == FragmentState::WaitingReview
    }

    /// A fork is submitted for review from its draft.
    pub open spec fn spec_is_submittable(&self) -> bool {
        self.spec_is_fork() && self.state == FragmentState::Draft
    }

    pub fn is_published(&self) -> (b: bool)
        ensures
            b == (self.state == FragmentState::Published),
    {
        self.state == FragmentState::Published
    }

    pub fn is_draft(&self) -> (b: bool)
        ensures
            b == (self.state == FragmentState::Draft),
    {
        self.state == FragmentState::Draft
    }

    pub fn is_waiting_review(&self) -> (b: bool)
        ensures
            b == self.spec_is_waiting_review(),
    {
        self.state == FragmentState::Submitted || self.state == FragmentState::WaitingReview
    }

    pub fn is_fork(&self) -> (b: bool)
        ensures
            b == self.spec_is_fork(),
    {
        self.parent_id.is_some()
    }

    pub fn is_author(&self, user: Id) -> (b: bool)
        ensures
            b == (self.author_id == user),
    {
        self.author_id == user
    }

    pub fn is_editable(&self) -> (b: bool)
        ensures
            b == self.spec_is_editable(),
    {
        self.state == FragmentState::Draft
    }

    pub fn is_publishable(&self) -> (b: bool)
        ensures
            b == self.spec_is_publishable(),
    {
        let fork = self.is_fork();
        (self.state == FragmentState::Draft && !fork) || (self.state == FragmentState::Approved
            && fork)
    }

    pub fn is_submittable(&self) -> (b: bool)
        ensures
            b == self.spec_is_submittable(),
    {
        self.is_fork() && self.state == FragmentState::Draft
    }

    pub fn set_state(self, state: FragmentState) -> (f: Fragment)
        ensures
            f == (Fragment { state, ..self }),
    {
        Fragment { state, ..self }
    }

    pub fn set_last_modified_at(self, at: DateTime) -> (f: Fragment)
        ensures
            f == (Fragment { last_modified_at: at, ..self }),
    {
        Fragment { last_modified_at: at, ..self }
    }

    pub fn set_content(self, content: Content) -> (f: Fragment)
        ensures
            f == (Fragment { content, ..self }),
    {
        Fragment { content, ..self }
    }

    pub fn set_end(self, end: bool) -> (f: Fragment)
        ensures
            f == (Fragment { end, ..self }),
    {
        Fragment { end, ..self }
    }

    pub fn id(&self) -> (id: Id)
        ensures
            id == self.id,
    {
        self.id
    }

    pub fn author_id(&self) -> (id: Id)
        ensures
            id == self.author_id,
    {
        self.author_id
    }

    pub fn parent_id(&self) -> (id: Option<Id>)
        ensures
            id == self.parent_id,
    {
        self.parent_id
    }

    pub fn content(&self) -> (c: &Content)
        ensures
            *c == self.content,
    {
        &self.content
    }

    pub fn path(&self) -> (p: &Path)
        ensures
            *p == self.path,
    {
        &self.path
    }

    pub fn state(&self) -> (s: FragmentState)
        ensures
            s == self.state,
    {
        self.state
    }

    pub fn end(&self) -> (e: bool)
        ensures
            e == self.end,
    {
        self.end
    }

    pub fn created_at(&self) -> (t: DateTime)
        ensures
            t == self.created_at,
    {
        self.created_at
    }

    pub fn last_modified_at(&self) -> (t: DateTime)
        ensures
            t == self.last_modified_at,
    {
        self.last_modified_at
    }
}

} // verus!
