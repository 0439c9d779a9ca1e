//! Answering a remote description: the part that broadcasters and recipients have in common.

use crate::description::{Description, SessionDescription};
use crate::peer::{awaits, Next, Progress, Reply, ReplyView, Request, RequestView};
use vstd::prelude::*;

verus! {

/// How answering ended.
#[derive(Debug)]
pub enum Answered {
    Failed(anyhow::Error),
    /// The connection's own description, with its candidates.
    Local(SessionDescription),
    /// The connection has no description of its own.
    Missing,
}

/// How answering ended, as a mathematical value.
pub enum AnswerEnd {
    Failed(anyhow::Error),
    Local(Description),
    Missing,
}

impl View for Answered {
    type V = AnswerEnd;

    open spec fn view(&self) -> AnswerEnd {
        match *self {
            Answered::Failed(e) => AnswerEnd::Failed(e),
            Answered::Local(d) => AnswerEnd::Local(d@),
            Answered::Missing => AnswerEnd::Missing,
        }
    }
}

/// What is done once these replies have come: an answer is created, the end of gathering is
/// promised, the answer becomes the local description, the promise is awaited, and the local
/// description is fetched. The first failure ends it.
pub open spec fn answer_next(replies: Seq<ReplyView>) -> Next<AnswerEnd> {
    if replies.len() > 0 && replies.last() is Failed {
        Next::Finish(AnswerEnd::Failed(replies.last()->Failed_0))
    } else if replies.len() == 0 {
        Next::Ask(RequestView::CreateAnswer)
    } else if replies.len() == 1 {
        Next::Ask(RequestView::PromiseGathering)
    } else if replies.len() == 2 {
        Next::Ask(RequestView::SetLocalDescription(replies[0]->Described_0))
    } else if replies.len() == 3 {
        Next::Ask(RequestView::AwaitGathering)
    } else if replies.len() == 4 {
        Next::Ask(RequestView::FetchLocalDescription)
    } else {
        match replies[4] {
            ReplyView::Described(d) => Next::Finish(AnswerEnd::Local(d)),
            _ => Next::Finish(AnswerEnd::Missing),
        }
    }
}

enum Stage {
    Creating,
    Promising(SessionDescription),
    Installing,
    Gathering,
    Fetching,
}

/// An answer under way. Its view is the replies that have come.
pub struct Answering {
    stage: Stage,
    replies: Ghost<Seq<ReplyView>>,
}

impl View for Answering {
    type V = Seq<ReplyView>;

    closed spec fn view(&self) -> Seq<ReplyView> {
        self.replies@
    }
}

impl Answering {
    #[verifier::type_invariant]
    closed spec fn wf(self) -> bool {
        let replies = self.replies@;
        &&& answer_next(replies) is Ask
        &&& match self.stage {
            Stage::Creating => replies.len() == 0,
            Stage::Promising(answer) => replies.len() == 1 && replies[0] == ReplyView::Described(
                answer@,
            ),
            Stage::Installing => replies.len() == 2,
            Stage::Gathering => replies.len() == 3,
            Stage::Fetching => replies.len() == 4,
        }
    }

    /// Starts an answer.
    pub fn create_answer() -> (r: (Answering, Request))
        ensures
            r.0@ == Seq::<ReplyView>::empty(),
            answer_next(r.0@) == Next::<AnswerEnd>::Ask(r.1@),
            r.1@ == RequestView::CreateAnswer,
    {
        (Answering { stage: Stage::Creating, replies: Ghost(Seq::empty()) }, Request::CreateAnswer)
    }

    /// Goes on once the pending request has got its reply.
    pub fn resume(self, reply: Reply) -> (r: Progress<Answering, Answered>)
        requires
            awaits(answer_next(self@), reply@),
        ensures
            match r {
                Progress::Ask(answering, request) => answering@ == self@.push(reply@)
                    && answer_next(self@.push(reply@)) == Next::<AnswerEnd>::Ask(request@),
                Progress::Finish(end) => answer_next(self@.push(reply@)) == Next::Finish(end@),
            },
    {
        proof {
            use_type_invariant(&self);
        }
        let ghost replies = self.replies@.push(reply@);
        let stage = self.stage;
        match reply {
            Reply::Failed(e) => Progress::Finish(Answered::Failed(e)),
            Reply::Done => match stage {
                Stage::Promising(answer) => Progress::Ask(
                    Answering { stage: Stage::Installing, replies: Ghost(replies) },
                    Request::SetLocalDescription(answer),
                ),
                Stage::Installing => Progress::Ask(
                    Answering { stage: Stage::Gathering, replies: Ghost(replies) },
                    Request::AwaitGathering,
                ),
                _ => Progress::Ask(
                    Answering { stage: Stage::Fetching, replies: Ghost(replies) },
                    Request::FetchLocalDescription,
                ),
            },
            Reply::Described(description) => match stage {
                Stage::Creating => Progress::Ask(
                    Answering { stage: Stage::Promising(description), replies: Ghost(replies) },
                    Request::PromiseGathering,
                ),
                _ => Progress::Finish(Answered::Local(description)),
            },
            Reply::Undescribed => Progress::Finish(Answered::Missing),
        }
    }
}

} // verus!
