//! A blog post that is drafted, reviewed, then published; its text shows
//! only once it is published.
use vstd::prelude::*;

verus! {

/// Where a post stands in its review.
#[derive(Debug, Clone, Copy, PartialEq, Eq, Structural)]
pub enum PostState {
    Draft,
    PendingReview,
    Published,
}

impl PostState {
    /// A draft goes to review; the other states stay as they are.
    pub open spec fn reviewed(self) -> PostState {
        if self == PostState::Draft {
            PostState::PendingReview
        } else {
            self
        }
    }

    /// A post under review is published; the other states stay as they are.
    pub open spec fn approved(self) -> PostState {
        if self == PostState::PendingReview {
            PostState::Published
        } else {
            self
        }
    }

    pub fn request_review(self) -> (s: PostState)
        ensures
            s == self.reviewed(),
    {
        match self {
            PostState::Draft => PostState::PendingReview,
            other => other,
        }
    }

    pub fn approve(self) -> (s: PostState)
        ensures
            s == self.approved(),
    {
        match self {
            PostState::PendingReview => PostState::Published,
            other => other,
        }
    }
}

pub struct Post {
    state: PostState,
    content: String,
}

impl Post {
    pub closed spec fn spec_state(&self) -> PostState {
        self.state
    }

    /// Everything written so far, shown or not.
    pub closed spec fn spec_text(&self) -> Seq<char> {
        self.content@
    }

    /// What `content` shows: the text once published, nothing before.
    pub open spec fn spec_content(&self) -> Seq<char> {
        if self.spec_state() == PostState::Published {
            self.spec_text()
        } else {
            Seq::empty()
        }
    }

    /// An empty draft.
    pub fn new() -> (p: Post)
        ensures
            p.spec_state() == PostState::Draft,
            p.spec_text() == Seq::<char>::empty(),
    {
        Post { state: PostState::Draft, content: String::new() }
    }

    /// Appends `text` to the post, whatever its state.
    pub fn add_text(&mut self, text: &str)
        ensures
            final(self).spec_text() == old(self).spec_text() + text@,
            final(self).spec_state() == old(self).spec_state(),
    {
        self.content.append(text);
    }

    /// The text readers see.
    pub fn content(&self) -> (s: &str)
        ensures
            s@ == self.spec_content(),
    {
        match self.state {
            PostState::Published => self.content.as_str(),
            _ => {
                proof {
                    reveal_strlit("");
                }
                ""
            },
        }
    }

    pub fn request_review(&mut self)
        ensures
            final(self).spec_state() == old(self).spec_state().reviewed(),
            final(self).spec_text() == old(self).spec_text(),
    {
        self.state = self.state.request_review();
    }

    pub fn approve(&mut self)
        ensures
            final(self).spec_state() == old(self).spec_state().approved(),
            final(self).spec_text() == old(self).spec_text(),
    {
        self.state = self.state.approve();
    }
}

} // verus!
