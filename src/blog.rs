//! A blog post that moves from draft to review to published.
use vstd::prelude::*;
use vstd::string::StringExecFns;

verus! {

#[derive(PartialEq, Eq, Structural, Clone, Copy, Debug)]
pub enum State {
    Draft,
    Review,
    Published,
}

/// A post. Text is written into a revision while the post is a draft; the
/// revision becomes the visible content when a review is published.
pub struct Post {
    state: State,
    content: String,
    revision: String,
    approvals: u32,
}

impl Post {
    pub closed spec fn spec_state(&self) -> State {
        self.state
    }

    /// The published text.
    pub closed spec fn text(&self) -> Seq<char> {
        self.content@
    }

    /// The text written so far.
    pub closed spec fn draft_text(&self) -> Seq<char> {
        self.revision@
    }

    pub closed spec fn approval_count(&self) -> nat {
        self.approvals as nat
    }

    /// An empty draft without approvals.
    pub fn new() -> (r: Self)
        ensures
            r.spec_state() == State::Draft,
            r.text() == Seq::<char>::empty(),
            r.draft_text() == Seq::<char>::empty(),
            r.approval_count() == 0,
    {
        Self { state: State::Draft, content: String::new(), revision: String::new(), approvals: 0 }
    }

    pub fn state(&self) -> (r: &State)
        ensures
            *r == self.spec_state(),
    {
        &self.state
    }

    /// Counts one approval. From the second approval on, the post is
    /// published; a revision under review becomes the content.
    pub fn approve(&mut self)
        requires
            old(self).approval_count() < u32::MAX,
        ensures
            final(self).approval_count() == old(self).approval_count() + 1,
            final(self).draft_text() == old(self).draft_text(),
            final(self).approval_count() > 1 ==> Self::forced(*old(self), *final(self), State::Published),
            final(self).approval_count() <= 1 ==> final(self).spec_state() == old(self).spec_state()
                && final(self).text() == old(self).text(),
    {
        self.approvals = self.approvals + 1;
        if self.approvals > 1 {
            self.transition(Some(State::Published));
        }
    }

    /// Appends `text` to the revision while the post is a draft; otherwise
    /// nothing changes.
    pub fn add_text(&mut self, text: &str)
        ensures
            final(self).spec_state() == old(self).spec_state(),
            final(self).text() == old(self).text(),
            final(self).approval_count() == old(self).approval_count(),
            old(self).spec_state() == State::Draft ==> final(self).draft_text() == old(self).draft_text()
                + text@,
            old(self).spec_state() != State::Draft ==> final(self).draft_text() == old(self).draft_text(),
    {
        let is_draft = match self.state {
            State::Draft => true,
            _ => false,
        };
        if !is_draft {
            return;
        }
        self.revision.append(text);
    }

    /// Sends the post back to draft.
    fn reject(&mut self)
        ensures
            Self::forced(*old(self), *final(self), State::Draft),
            final(self).approval_count() == old(self).approval_count(),
            final(self).draft_text() == old(self).draft_text(),
    {
        self.transition(Some(State::Draft));
    }

    /// Puts the post under review.
    pub fn send_for_review(&mut self)
        ensures
            Self::forced(*old(self), *final(self), State::Review),
            final(self).approval_count() == old(self).approval_count(),
            final(self).draft_text() == old(self).draft_text(),
    {
        self.transition(Some(State::Review));
        if false {
            self.reject();
        }
    }

    /// The published text.
    pub fn content(&self) -> (r: &str)
        ensures
            r@ == self.text(),
    {
        self.content.as_str()
    }

    /// `post` is `pre` moved to state `to`: publishing a post under review
    /// makes its revision the content; no other move touches the content.
    pub open spec fn forced(pre: Self, post: Self, to: State) -> bool {
        &&& post.spec_state() == to
        &&& post.text() == if pre.spec_state() == State::Review && to == State::Published {
            pre.draft_text()
        } else {
            pre.text()
        }
    }

    /// The state after `s` when no state is forced.
    pub open spec fn next_state(s: State) -> State {
        match s {
            State::Draft => State::Review,
            State::Review => State::Published,
            State::Published => State::Published,
        }
    }

    /// Moves to `force` if given, otherwise one step forward.
    fn transition(&mut self, force: Option<State>)
        ensures
            final(self).approval_count() == old(self).approval_count(),
            final(self).draft_text() == old(self).draft_text(),
            Self::forced(
                *old(self),
                *final(self),
                match force {
                    Some(s) => s,
                    None => Self::next_state(old(self).spec_state()),
                },
            ),
    {
        if let None = force {
            self.state = match self.state {
                State::Draft => State::Review,
                State::Published => State::Published,
                State::Review => {
                    self.content = self.revision.clone();
                    State::Published
                },
            };
            return;
        }
        if let (State::Review, Some(State::Published)) = (&self.state, &force) {
            self.content = self.revision.clone();
        }
        self.state = force.unwrap();
    }
}

} // verus!
