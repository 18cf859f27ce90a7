//! The blog-post publishing workflow.
//!
//! A post is created as an empty `Draft`. Text can be appended only while it
//! stays a Draft. `request_review` moves a Draft to `PendingReview`, where two
//! `approve` calls are needed: the first records an approval and the post
//! stays under review, the second publishes it. `reject` sends a post under
//! review back to Draft, and a fresh review round (with two fresh approvals)
//! is then needed to publish. Every call in any other state is a silent
//! no-op: no operation ever fails. `content` shows the stored text only once
//! the post is `Published`; in every other state it shows nothing.

use vstd::prelude::*;
use vstd::string::StringExecFns;

verus! {

/// The lifecycle state of a post.
#[derive(Clone, Copy, Debug, PartialEq, Eq, Structural)]
pub enum PostState {
    Draft,
    PendingReview,
    Published,
}

/// The mathematical model of a post: its lifecycle state, the stored text,
/// and how many approvals the current review round has collected so far.
#[verifier::ext_equal]
pub ghost struct PostView {
    pub state: PostState,
    pub content: Seq<char>,
    pub approvals: nat,
}

/// One call on a post, as the model records it.
pub ghost enum Op {
    AddText(Seq<char>),
    RequestReview,
    Approve,
    Reject,
}

/// The model of a freshly created post: a Draft with no text and no approvals.
pub open spec fn init_view() -> PostView {
    PostView { state: PostState::Draft, content: Seq::empty(), approvals: 0 }
}

/// The transition table of the workflow: what one call does to the model.
/// Calls not listed for the current state leave the model untouched.
pub open spec fn step_view(v: PostView, op: Op) -> PostView {
    match op {
        Op::AddText(t) => if v.state is Draft {
            PostView { state: v.state, content: v.content + t, approvals: v.approvals }
        } else {
            v
        },
        Op::RequestReview => if v.state is Draft {
            PostView { state: PostState::PendingReview, content: v.content, approvals: 0 }
        } else {
            v
        },
        Op::Approve => if v.state is PendingReview {
            if v.approvals < 1 {
                PostView { state: v.state, content: v.content, approvals: v.approvals + 1 }
            } else {
                PostView { state: PostState::Published, content: v.content, approvals: v.approvals }
            }
        } else {
            v
        },
        Op::Reject => if v.state is PendingReview {
            PostView { state: PostState::Draft, content: v.content, approvals: v.approvals }
        } else {
            v
        },
    }
}

/// What a reader of the post sees: the stored text once the post is
/// Published, and nothing in every other state.
pub open spec fn observed_content(v: PostView) -> Seq<char> {
    if v.state is Published {
        v.content
    } else {
        Seq::empty()
    }
}

/// The model reached by a sequence of calls on a freshly created post.
pub open spec fn run_view(ops: Seq<Op>) -> PostView
    decreases ops.len(),
{
    if ops.len() == 0 {
        init_view()
    } else {
        step_view(run_view(ops.drop_last()), ops.last())
    }
}

/// A blog post: its text, its lifecycle state, and the approvals collected
/// in the current review round.
pub struct Post {
    state: PostState,
    content: String,
    number_of_approvals: u32,
}

impl View for Post {
    type V = PostView;

    closed spec fn view(&self) -> PostView {
        PostView {
            state: self.state,
            content: self.content@,
            approvals: self.number_of_approvals as nat,
        }
    }
}

impl Post {
    /// Creates a post in Draft state with empty content and no approvals.
    pub fn new() -> (post: Post)
        ensures
            post@ == init_view(),
    {
        let post = Post {
            state: PostState::Draft,
            content: String::new(),
            number_of_approvals: 0,
        };
        proof {
            assert(post@ =~= init_view());
        }
        post
    }

    /// Returns the stored text if the post is Published, and the empty
    /// string in every other state. Read-only.
    pub fn content(&self) -> (text: &str)
        ensures
            text@ == observed_content(self@),
    {
        match self.state {
            PostState::Published => self.content.as_str(),
            _ => {
                let hidden = "";
                proof {
                    reveal_strlit("");
                    assert(hidden@ =~= Seq::<char>::empty());
                }
                hidden
            },
        }
    }

    /// Appends `text` to the stored content if the post is a Draft; in every
    /// other state the call is ignored and nothing changes.
    pub fn add_text(&mut self, text: &str)
        ensures
            final(self)@ == step_view(old(self)@, Op::AddText(text@)),
    {
        match self.state {
            PostState::Draft => {
                self.content.append(text);
            },
            _ => {},
        }
        proof {
            assert(self@ =~= step_view(old(self)@, Op::AddText(text@)));
        }
    }

    /// Moves a Draft to PendingReview and opens a fresh review round; in
    /// every other state the call is a no-op.
    pub fn request_review(&mut self)
        ensures
            final(self)@ == step_view(old(self)@, Op::RequestReview),
    {
        match self.state {
            PostState::Draft => {
                self.state = PostState::PendingReview;
                self.number_of_approvals = 0;
            },
            _ => {},
        }
        proof {
            assert(self@ =~= step_view(old(self)@, Op::RequestReview));
        }
    }

    /// In PendingReview, records an approval: the first call keeps the post
    /// under review, the second publishes it. In Draft or Published the call
    /// is a no-op.
    pub fn approve(&mut self)
        ensures
            final(self)@ == step_view(old(self)@, Op::Approve),
    {
        match self.state {
            PostState::PendingReview => {
                if self.number_of_approvals < 1 {
                    self.number_of_approvals = self.number_of_approvals + 1;
                } else {
                    self.state = PostState::Published;
                }
            },
            _ => {},
        }
        proof {
            assert(self@ =~= step_view(old(self)@, Op::Approve));
        }
    }

    /// Sends a post under review back to Draft; in Draft or Published the
    /// call is a no-op.
    pub fn reject(&mut self)
        ensures
            final(self)@ == step_view(old(self)@, Op::Reject),
    {
        match self.state {
            PostState::PendingReview => {
                self.state = PostState::Draft;
            },
            _ => {},
        }
        proof {
            assert(self@ =~= step_view(old(self)@, Op::Reject));
        }
    }
}

/// How many approve calls a sequence of operations contains.
pub open spec fn count_approves(ops: Seq<Op>) -> nat
    decreases ops.len(),
{
    if ops.len() == 0 {
        0
    } else {
        count_approves(ops.drop_last()) + (if ops.last() is Approve {
            1nat
        } else {
            0nat
        })
    }
}

/// The calls that are defined as no-ops leave the whole model unchanged:
/// approve and reject on a Draft, request_review under review, and approve,
/// reject and request_review on a Published post all keep the state, the
/// content and the approval counter exactly as they were.
pub proof fn lemma_noops_leave_post_unchanged(v: PostView)
    ensures
        v.state is Draft ==> step_view(v, Op::Approve) == v && step_view(v, Op::Reject) == v,
        v.state is PendingReview ==> step_view(v, Op::RequestReview) == v,
        v.state is Published ==> step_view(v, Op::Approve) == v && step_view(v, Op::Reject) == v
            && step_view(v, Op::RequestReview) == v,
{
}

/// Text added while the post is under review or already published is ignored
/// entirely: the stored content, the state and the approval counter are all
/// unchanged.
pub proof fn lemma_add_text_ignored_outside_draft(v: PostView, t: Seq<char>)
    requires
        !(v.state is Draft),
    ensures
        step_view(v, Op::AddText(t)) == v,
{
}

/// A reader sees text exactly when the post is Published and holds some: in
/// Draft and PendingReview nothing is observable however much text is
/// stored, and a Published post shows precisely its stored content.
pub proof fn lemma_content_visible_only_when_published(v: PostView)
    ensures
        observed_content(v).len() > 0 <==> (v.state is Published && v.content.len() > 0),
        !(v.state is Published) ==> observed_content(v) == Seq::<char>::empty(),
        v.state is Published ==> observed_content(v) == v.content,
{
}

/// A post that has only ever received add_text calls is still a Draft and
/// shows no content, however many calls were made and whatever text they
/// carried.
pub proof fn lemma_add_text_alone_never_publishes(ops: Seq<Op>)
    requires
        forall|i: int| 0 <= i < ops.len() ==> ops[i] is AddText,
    ensures
        run_view(ops).state is Draft,
        observed_content(run_view(ops)) == Seq::<char>::empty(),
    decreases ops.len(),
{
    if ops.len() > 0 {
        assert(ops[ops.len() - 1] is AddText);
        assert forall|i: int| 0 <= i < ops.drop_last().len() implies ops.drop_last()[i]
            is AddText by {
            assert(ops.drop_last()[i] == ops[i]);
        }
        lemma_add_text_alone_never_publishes(ops.drop_last());
    }
}

/// In every reachable model the approval counter is at most one: each review
/// round starts at zero, the first approval raises it to one, and the second
/// publishes without raising it further.
pub proof fn lemma_run_counter_bounded(ops: Seq<Op>)
    ensures
        run_view(ops).approvals <= 1,
    decreases ops.len(),
{
    if ops.len() > 0 {
        lemma_run_counter_bounded(ops.drop_last());
    }
}

/// Publication takes two approvals: the counter never exceeds the number of
/// approve calls made so far, and no sequence of calls with fewer than two
/// approve calls can reach the Published state.
pub proof fn lemma_published_needs_two_approves(ops: Seq<Op>)
    ensures
        run_view(ops).approvals <= count_approves(ops),
        run_view(ops).state is Published ==> count_approves(ops) >= 2,
    decreases ops.len(),
{
    if ops.len() > 0 {
        lemma_published_needs_two_approves(ops.drop_last());
    }
}

/// Within one review round, the first approve records the approval, keeps
/// the post under review and keeps it hidden; only an approve on a post that
/// already holds an approval publishes, and no other call from any state
/// reaches Published.
pub proof fn lemma_second_approve_publishes(v: PostView, op: Op)
    ensures
        v.state is PendingReview && v.approvals == 0 && op is Approve ==> step_view(v, op).state
            is PendingReview && step_view(v, op).approvals == 1 && observed_content(
            step_view(v, op),
        ) == Seq::<char>::empty(),
        v.state is PendingReview && v.approvals >= 1 && op is Approve ==> step_view(v, op).state
            is Published && step_view(v, op).content == v.content,
        !(v.state is Published) && step_view(v, op).state is Published ==> (op is Approve
            && v.state is PendingReview && v.approvals >= 1),
{
}

/// Rejecting a post under review returns it to Draft with its text intact;
/// add_text then appends again, and publishing takes a fresh request_review
/// followed by two fresh approve calls: after the new review round opens,
/// one approve still leaves the post hidden under review, and a second one
/// publishes it.
pub proof fn lemma_reject_restarts_review(v: PostView, t: Seq<char>)
    requires
        v.state is PendingReview,
    ensures
        step_view(v, Op::Reject).state is Draft,
        step_view(v, Op::Reject).content == v.content,
        step_view(step_view(v, Op::Reject), Op::AddText(t)).content == v.content + t,
        step_view(step_view(v, Op::Reject), Op::RequestReview).state is PendingReview,
        step_view(step_view(v, Op::Reject), Op::RequestReview).approvals == 0,
        step_view(step_view(step_view(v, Op::Reject), Op::RequestReview), Op::Approve).state
            is PendingReview,
        observed_content(
            step_view(step_view(step_view(v, Op::Reject), Op::RequestReview), Op::Approve),
        ) == Seq::<char>::empty(),
        step_view(
            step_view(step_view(step_view(v, Op::Reject), Op::RequestReview), Op::Approve),
            Op::Approve,
        ).state is Published,
{
}

} // verus!
