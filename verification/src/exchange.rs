//! One exchange with the upstream: the call that goes out, what may come back,
//! and how a reply is judged.

use vstd::prelude::*;
use crate::records::{CatFact, CatFactView, Comment, CommentView, Post, PostView};

verus! {

/// The HTTP methods that the relay speaks.
#[derive(Debug, Clone, Copy, PartialEq, Eq, Structural)]
pub enum Method {
    Get,
    Post,
    Put,
    Delete,
}

/// A call to the upstream. The relay makes exactly one for each inbound request.
#[derive(Debug, PartialEq, Eq)]
pub struct OutboundCall {
    pub method: Method,
    pub url: String,
    /// The record sent as the JSON body, if the call carries one.
    pub body: Option<Post>,
}

/// What an [`OutboundCall`] holds.
pub struct OutboundCallView {
    pub method: Method,
    pub url: Seq<char>,
    pub body: Option<PostView>,
}

impl View for OutboundCall {
    type V = OutboundCallView;

    open spec fn view(&self) -> OutboundCallView {
        OutboundCallView { method: self.method, url: self.url@, body: self.body.deep_view() }
    }
}

/// The forms of JSON document that the relay reads from the upstream.
#[derive(Debug, Clone, Copy, PartialEq, Eq, Structural)]
pub enum Shape {
    /// One cat fact.
    Fact,
    /// A list of posts.
    Posts,
    /// One post, or `null` where there is none.
    OptionalPost,
    /// A list of comments.
    Comments,
}

/// A document read from the upstream.
#[derive(Debug, PartialEq, Eq)]
pub enum Payload {
    Fact(CatFact),
    Posts(Vec<Post>),
    Post(Option<Post>),
    Comments(Vec<Comment>),
}

/// What a [`Payload`] holds.
pub enum PayloadView {
    Fact(CatFactView),
    Posts(Seq<PostView>),
    Post(Option<PostView>),
    Comments(Seq<CommentView>),
}

impl View for Payload {
    type V = PayloadView;

    open spec fn view(&self) -> PayloadView {
        match self {
            Payload::Fact(fact) => PayloadView::Fact(fact@),
            Payload::Posts(posts) => PayloadView::Posts(posts.deep_view()),
            Payload::Post(post) => PayloadView::Post(post.deep_view()),
            Payload::Comments(comments) => PayloadView::Comments(comments.deep_view()),
        }
    }
}

/// The form of a document.
pub open spec fn payload_shape(payload: PayloadView) -> Shape {
    match payload {
        PayloadView::Fact(_) => Shape::Fact,
        PayloadView::Posts(_) => Shape::Posts,
        PayloadView::Post(_) => Shape::OptionalPost,
        PayloadView::Comments(_) => Shape::Comments,
    }
}

impl Payload {
    /// The form of this document.
    pub fn shape(&self) -> (shape: Shape)
        ensures
            shape == payload_shape(self@),
    {
        match self {
            Payload::Fact(_) => Shape::Fact,
            Payload::Posts(_) => Shape::Posts,
            Payload::Post(_) => Shape::OptionalPost,
            Payload::Comments(_) => Shape::Comments,
        }
    }
}

/// The body of an upstream answer, as far as the caller has read it.
#[derive(Debug, PartialEq, Eq)]
pub enum UpstreamBody {
    /// The body was not read.
    Unread,
    /// The body was read and is not a document of the form asked for; `detail`
    /// is the decoder's own message.
    Malformed { detail: String },
    /// The body was read as this document.
    Parsed(Payload),
}

/// What an [`UpstreamBody`] holds.
pub enum UpstreamBodyView {
    Unread,
    Malformed { detail: Seq<char> },
    Parsed(PayloadView),
}

impl View for UpstreamBody {
    type V = UpstreamBodyView;

    open spec fn view(&self) -> UpstreamBodyView {
        match self {
            UpstreamBody::Unread => UpstreamBodyView::Unread,
            UpstreamBody::Malformed { detail } => UpstreamBodyView::Malformed { detail: detail@ },
            UpstreamBody::Parsed(payload) => UpstreamBodyView::Parsed(payload@),
        }
    }
}

/// What came of an outbound call, as the caller observed it.
#[derive(Debug, PartialEq, Eq)]
pub enum UpstreamReply {
    /// No answer arrived; `detail` is the transport's own message.
    Unreachable { timed_out: bool, detail: String },
    /// The upstream answered with this status and body.
    Answered { status: u16, body: UpstreamBody },
}

/// What an [`UpstreamReply`] holds.
pub enum UpstreamReplyView {
    Unreachable { timed_out: bool, detail: Seq<char> },
    Answered { status: u16, body: UpstreamBodyView },
}

impl View for UpstreamReply {
    type V = UpstreamReplyView;

    open spec fn view(&self) -> UpstreamReplyView {
        match self {
            UpstreamReply::Unreachable { timed_out, detail } => UpstreamReplyView::Unreachable {
                timed_out: *timed_out,
                detail: detail@,
            },
            UpstreamReply::Answered { status, body } => UpstreamReplyView::Answered {
                status: *status,
                body: body@,
            },
        }
    }
}

/// The ways in which an exchange fails. None of them holds any text that came
/// from the upstream.
#[derive(Debug, Clone, Copy, PartialEq, Eq, Structural)]
pub enum UpstreamFailure {
    /// No answer arrived: the connection failed, or the call ran out of time.
    Transport { timed_out: bool },
    /// The upstream answered with a status outside 200..=299.
    Status { code: u16 },
    /// The body is not a document of the form asked for.
    Shape,
}

/// The result of judging a reply: the document to hand on (none where the body
/// is of no interest), or the failure.
pub type Outcome = Result<Option<Payload>, UpstreamFailure>;

/// What an [`Outcome`] holds.
pub open spec fn outcome_view(outcome: Outcome) -> Result<Option<PayloadView>, UpstreamFailure> {
    match outcome {
        Ok(Some(payload)) => Ok(Some(payload@)),
        Ok(None) => Ok(None),
        Err(failure) => Err(failure),
    }
}

/// Whether a status code reports success.
pub open spec fn is_success(status: u16) -> bool {
    200 <= status <= 299
}

/// How a reply is judged when a document of form `expect` was asked for
/// (`None`: the body is of no interest).
///
/// A reply that never arrived is a transport failure. An answer with a status
/// outside 200..=299 is a status failure, whatever its body. Otherwise the
/// exchange succeeds if the body is of no interest, or was read as a document
/// of the form asked for; it is a shape failure in every other case.
pub open spec fn judged(expect: Option<Shape>, reply: UpstreamReplyView) -> Result<
    Option<PayloadView>,
    UpstreamFailure,
> {
    match reply {
        UpstreamReplyView::Unreachable { timed_out, detail } => Err(
            UpstreamFailure::Transport { timed_out },
        ),
        UpstreamReplyView::Answered { status, body } => if !is_success(status) {
            Err(UpstreamFailure::Status { code: status })
        } else {
            match expect {
                None => Ok(None),
                Some(shape) => match body {
                    UpstreamBodyView::Parsed(payload) => if payload_shape(payload) == shape {
                        Ok(Some(payload))
                    } else {
                        Err(UpstreamFailure::Shape)
                    },
                    _ => Err(UpstreamFailure::Shape),
                },
            }
        },
    }
}

/// Whether `status` reports success.
pub fn status_is_success(status: u16) -> (ok: bool)
    ensures
        ok == is_success(status),
{
    200 <= status && status <= 299
}

/// Judges the reply to a call for which a document of form `expect` was asked
/// (`None`: the body is of no interest).
pub fn judge_reply(expect: Option<Shape>, reply: UpstreamReply) -> (outcome: Outcome)
    ensures
        outcome_view(outcome) == judged(expect, reply@),
{
    match reply {
        UpstreamReply::Unreachable { timed_out, detail } => Err(
            UpstreamFailure::Transport { timed_out },
        ),
        UpstreamReply::Answered { status, body } => {
            if !status_is_success(status) {
                return Err(UpstreamFailure::Status { code: status });
            }
            match expect {
                None => Ok(None),
                Some(shape) => match body {
                    UpstreamBody::Parsed(payload) => {
                        if payload.shape() == shape {
                            Ok(Some(payload))
                        } else {
                            Err(UpstreamFailure::Shape)
                        }
                    },
                    _ => Err(UpstreamFailure::Shape),
                },
            }
        },
    }
}

/// The reply with every text that came from outside taken out of it.
pub open spec fn without_detail(reply: UpstreamReplyView) -> UpstreamReplyView {
    match reply {
        UpstreamReplyView::Unreachable { timed_out, detail } => UpstreamReplyView::Unreachable {
            timed_out,
            detail: Seq::empty(),
        },
        UpstreamReplyView::Answered { status, body: UpstreamBodyView::Malformed { detail } } =>
            UpstreamReplyView::Answered {
            status,
            body: UpstreamBodyView::Malformed { detail: Seq::empty() },
        },
        _ => reply,
    }
}

/// The judgement does not depend on the transport's or the decoder's message:
/// with the message taken out, a reply is judged the same.
pub proof fn lemma_detail_is_never_read(expect: Option<Shape>, reply: UpstreamReplyView)
    ensures
        judged(expect, reply) == judged(expect, without_detail(reply)),
{
}

/// A call that brought no answer is a transport failure, which records only
/// whether the call ran out of time.
pub proof fn lemma_no_answer_is_a_transport_failure(
    expect: Option<Shape>,
    timed_out: bool,
    detail: Seq<char>,
)
    ensures
        judged(expect, UpstreamReplyView::Unreachable { timed_out, detail }) == Err::<
            Option<PayloadView>,
            UpstreamFailure,
        >(UpstreamFailure::Transport { timed_out }),
{
}

/// A body that could not be decoded, where a document was asked for, is a shape
/// failure.
pub proof fn lemma_malformed_body_is_a_shape_failure(
    shape: Shape,
    status: u16,
    detail: Seq<char>,
)
    requires
        is_success(status),
    ensures
        judged(
            Some(shape),
            UpstreamReplyView::Answered { status, body: UpstreamBodyView::Malformed { detail } },
        ) == Err::<Option<PayloadView>, UpstreamFailure>(UpstreamFailure::Shape),
{
}

/// A document is accepted only as it came and only in the form asked for.
pub proof fn lemma_accepted_document_is_the_one_sent(
    expect: Option<Shape>,
    reply: UpstreamReplyView,
    payload: PayloadView,
)
    requires
        judged(expect, reply) == Ok::<Option<PayloadView>, UpstreamFailure>(Some(payload)),
    ensures
        expect == Some(payload_shape(payload)),
        reply matches UpstreamReplyView::Answered { status, body } && is_success(status) && body
            == UpstreamBodyView::Parsed(payload),
{
}

} // verus!
