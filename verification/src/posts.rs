//! The post relay: six inbound routes, each answered by one call to the same
//! path of the placeholder API.
//!
//! | request              | call                         | body sent | body read      |
//! |----------------------|------------------------------|-----------|----------------|
//! | `ListPosts`          | `GET {base}/posts`           | none      | list of posts  |
//! | `GetPost`            | `GET {base}/posts/{id}`      | none      | post or `null` |
//! | `ListComments`       | `GET {base}/posts/{id}/comments` | none  | list of comments |
//! | `CreatePost`         | `POST {base}/posts`          | the post  | not read       |
//! | `UpdatePost`         | `PUT {base}/posts/{id}`      | the post  | not read       |
//! | `DeletePost`         | `DELETE {base}/posts/{id}`   | none      | not read       |

use vstd::prelude::*;
use crate::decimal::{
    append_decimal, decimal, is_digit, lemma_decimal_injective, lemma_decimal_is_digits,
};
use crate::exchange::{
    is_success, judge_reply, judged, payload_shape, without_detail, Method, OutboundCall,
    OutboundCallView, PayloadView, Shape, UpstreamBodyView, UpstreamReply, UpstreamReplyView,
};
use crate::records::{Post, PostView};
use crate::response::{
    failure_text, forward, forwarded, InboundResponse, InboundResponseView, ResponseBodyView,
    BAD_GATEWAY, GATEWAY_TIMEOUT, OK,
};

verus! {

/// Where the placeholder API lives unless the server is told otherwise.
pub const PLACEHOLDER_API: &'static str = "https://jsonplaceholder.typicode.com";

/// An inbound request to the post relay, after routing.
#[derive(Debug, PartialEq, Eq)]
pub enum PostsRequest {
    /// `GET /posts`
    ListPosts,
    /// `GET /posts/{id}`
    GetPost { id: u32 },
    /// `GET /posts/{id}/comments`
    ListComments { id: u32 },
    /// `POST /posts`, with the post as its JSON body
    CreatePost { post: Post },
    /// `PUT /posts/{id}`, with the post as its JSON body
    UpdatePost { id: u32, post: Post },
    /// `DELETE /posts/{id}`
    DeletePost { id: u32 },
}

/// What a [`PostsRequest`] holds.
pub enum PostsRequestView {
    ListPosts,
    GetPost { id: nat },
    ListComments { id: nat },
    CreatePost { post: PostView },
    UpdatePost { id: nat, post: PostView },
    DeletePost { id: nat },
}

impl View for PostsRequest {
    type V = PostsRequestView;

    open spec fn view(&self) -> PostsRequestView {
        match self {
            PostsRequest::ListPosts => PostsRequestView::ListPosts,
            PostsRequest::GetPost { id } => PostsRequestView::GetPost { id: *id as nat },
            PostsRequest::ListComments { id } => PostsRequestView::ListComments { id: *id as nat },
            PostsRequest::CreatePost { post } => PostsRequestView::CreatePost { post: post@ },
            PostsRequest::UpdatePost { id, post } => PostsRequestView::UpdatePost {
                id: *id as nat,
                post: post@,
            },
            PostsRequest::DeletePost { id } => PostsRequestView::DeletePost { id: *id as nat },
        }
    }
}

impl PostsRequestView {
    /// The method of the request, which is also the method of the call.
    pub open spec fn method(self) -> Method {
        match self {
            PostsRequestView::ListPosts => Method::Get,
            PostsRequestView::GetPost { .. } => Method::Get,
            PostsRequestView::ListComments { .. } => Method::Get,
            PostsRequestView::CreatePost { .. } => Method::Post,
            PostsRequestView::UpdatePost { .. } => Method::Put,
            PostsRequestView::DeletePost { .. } => Method::Delete,
        }
    }

    /// The path of the request, which is also the path of the call below the
    /// upstream's base.
    pub open spec fn path(self) -> Seq<char> {
        match self {
            PostsRequestView::ListPosts => "/posts"@,
            PostsRequestView::GetPost { id } => "/posts/"@ + decimal(id),
            PostsRequestView::ListComments { id } => "/posts/"@ + decimal(id) + "/comments"@,
            PostsRequestView::CreatePost { .. } => "/posts"@,
            PostsRequestView::UpdatePost { id, .. } => "/posts/"@ + decimal(id),
            PostsRequestView::DeletePost { id } => "/posts/"@ + decimal(id),
        }
    }

    /// The post that the request carries, which the call carries on.
    pub open spec fn body(self) -> Option<PostView> {
        match self {
            PostsRequestView::CreatePost { post } => Some(post),
            PostsRequestView::UpdatePost { post, .. } => Some(post),
            _ => None,
        }
    }

    /// The form of document read from the upstream's answer; `None` where the
    /// answer's body is of no interest.
    pub open spec fn expected(self) -> Option<Shape> {
        match self {
            PostsRequestView::ListPosts => Some(Shape::Posts),
            PostsRequestView::GetPost { .. } => Some(Shape::OptionalPost),
            PostsRequestView::ListComments { .. } => Some(Shape::Comments),
            _ => None,
        }
    }

    /// Whether two requests name the same route and the same post, whatever
    /// they carry.
    pub open spec fn is_same_route(self, other: PostsRequestView) -> bool {
        match (self, other) {
            (PostsRequestView::ListPosts, PostsRequestView::ListPosts) => true,
            (PostsRequestView::GetPost { id: x }, PostsRequestView::GetPost { id: y }) => x == y,
            (
                PostsRequestView::ListComments { id: x },
                PostsRequestView::ListComments { id: y },
            ) => x == y,
            (PostsRequestView::CreatePost { .. }, PostsRequestView::CreatePost { .. }) => true,
            (
                PostsRequestView::UpdatePost { id: x, .. },
                PostsRequestView::UpdatePost { id: y, .. },
            ) => x == y,
            (PostsRequestView::DeletePost { id: x }, PostsRequestView::DeletePost { id: y }) => x
                == y,
            _ => false,
        }
    }

    /// The one call that answers the request, against the upstream at `base`.
    pub open spec fn outbound(self, base: Seq<char>) -> OutboundCallView {
        OutboundCallView { method: self.method(), url: base + self.path(), body: self.body() }
    }

    /// The response to the request, given what came of its call.
    pub open spec fn response(self, reply: UpstreamReplyView) -> InboundResponseView {
        forwarded(judged(self.expected(), reply))
    }
}

impl PostsRequest {
    /// The method of the request.
    pub fn method(&self) -> (method: Method)
        ensures
            method == self@.method(),
    {
        match self {
            PostsRequest::ListPosts => Method::Get,
            PostsRequest::GetPost { .. } => Method::Get,
            PostsRequest::ListComments { .. } => Method::Get,
            PostsRequest::CreatePost { .. } => Method::Post,
            PostsRequest::UpdatePost { .. } => Method::Put,
            PostsRequest::DeletePost { .. } => Method::Delete,
        }
    }

    /// The path of the request.
    pub fn path(&self) -> (path: String)
        ensures
            path@ == self@.path(),
    {
        let mut path = String::new();
        self.append_path(&mut path);
        assert(path@ =~= self@.path());
        path
    }

    /// The form of document to read from the upstream's answer; `None` where
    /// the body is to be left unread.
    pub fn expected(&self) -> (expect: Option<Shape>)
        ensures
            expect == self@.expected(),
    {
        match self {
            PostsRequest::ListPosts => Some(Shape::Posts),
            PostsRequest::GetPost { .. } => Some(Shape::OptionalPost),
            PostsRequest::ListComments { .. } => Some(Shape::Comments),
            _ => None,
        }
    }

    /// The one call that answers the request, against the upstream at `base`.
    pub fn outbound_call(&self, base: &str) -> (call: OutboundCall)
        ensures
            call@ == self@.outbound(base@),
    {
        let mut url = base.to_owned();
        self.append_path(&mut url);
        let body = match self {
            PostsRequest::CreatePost { post } => Some(post.clone()),
            PostsRequest::UpdatePost { post, .. } => Some(post.clone()),
            _ => None,
        };
        OutboundCall { method: self.method(), url, body }
    }

    /// The response to the request, given what came of its call.
    pub fn response(&self, reply: UpstreamReply) -> (response: InboundResponse)
        ensures
            response@ == self@.response(reply@),
    {
        forward(judge_reply(self.expected(), reply))
    }

    fn append_path(&self, out: &mut String)
        ensures
            final(out)@ == old(out)@ + self@.path(),
    {
        match self {
            PostsRequest::ListPosts => {
                out.append("/posts");
            },
            PostsRequest::CreatePost { .. } => {
                out.append("/posts");
            },
            PostsRequest::GetPost { id } => {
                out.append("/posts/");
                append_decimal(out, *id);
            },
            PostsRequest::UpdatePost { id, .. } => {
                out.append("/posts/");
                append_decimal(out, *id);
            },
            PostsRequest::DeletePost { id } => {
                out.append("/posts/");
                append_decimal(out, *id);
            },
            PostsRequest::ListComments { id } => {
                out.append("/posts/");
                append_decimal(out, *id);
                out.append("/comments");
            },
        }
        assert(out@ =~= old(out)@ + self@.path());
    }
}

proof fn lemma_same_front_same_rest(front: Seq<char>, x: Seq<char>, y: Seq<char>)
    requires
        front + x == front + y,
    ensures
        x == y,
{
    assert(x =~= (front + x).subrange(front.len() as int, (front + x).len() as int));
    assert(y =~= (front + y).subrange(front.len() as int, (front + y).len() as int));
}

proof fn lemma_same_end_same_front(x: Seq<char>, y: Seq<char>, end: Seq<char>)
    requires
        x + end == y + end,
    ensures
        x == y,
{
    assert((x + end).len() == x.len() + end.len());
    assert((y + end).len() == y.len() + end.len());
    assert(x =~= (x + end).subrange(0, x.len() as int));
    assert(y =~= (y + end).subrange(0, y.len() as int));
}

/// A numeral ends in a digit, so it is never a numeral followed by `/comments`.
proof fn lemma_numeral_does_not_end_in_comments(x: nat, y: nat)
    ensures
        decimal(x) != decimal(y) + "/comments"@,
{
    reveal_strlit("/comments");
    lemma_decimal_is_digits(x);
    let long = decimal(y) + "/comments"@;
    if decimal(x) == long {
        assert(long[long.len() - 1] == 's');
        assert(is_digit(decimal(x)[decimal(x).len() - 1]));
    }
}

/// The path of a request tells which post it names, and whether it names the
/// post or its comments.
proof fn lemma_path_is_one_to_one(a: PostsRequestView, b: PostsRequestView)
    requires
        a.path() == b.path(),
        a.method() == b.method(),
    ensures
        a.is_same_route(b),
{
    reveal_strlit("/posts");
    reveal_strlit("/posts/");
    reveal_strlit("/comments");
    let list = "/posts"@;
    let stem = "/posts/"@;
    let tail = "/comments"@;
    assert(list.len() == 6 && stem.len() == 7 && tail.len() == 9);
    match (a, b) {
        (PostsRequestView::ListPosts, PostsRequestView::GetPost { id }) => {
            lemma_decimal_is_digits(id);
            assert(b.path().len() == 7 + decimal(id).len());
            assert(a.path().len() == 6);
        },
        (PostsRequestView::GetPost { id }, PostsRequestView::ListPosts) => {
            lemma_decimal_is_digits(id);
            assert(a.path().len() == 7 + decimal(id).len());
            assert(b.path().len() == 6);
        },
        (PostsRequestView::ListPosts, PostsRequestView::ListComments { id }) => {
            lemma_decimal_is_digits(id);
            assert(b.path().len() == 7 + decimal(id).len() + 9);
            assert(a.path().len() == 6);
        },
        (PostsRequestView::ListComments { id }, PostsRequestView::ListPosts) => {
            lemma_decimal_is_digits(id);
            assert(a.path().len() == 7 + decimal(id).len() + 9);
            assert(b.path().len() == 6);
        },
        (PostsRequestView::GetPost { id: x }, PostsRequestView::GetPost { id: y }) => {
            lemma_same_front_same_rest(stem, decimal(x), decimal(y));
            lemma_decimal_injective(x, y);
        },
        (
            PostsRequestView::UpdatePost { id: x, .. },
            PostsRequestView::UpdatePost { id: y, .. },
        ) => {
            lemma_same_front_same_rest(stem, decimal(x), decimal(y));
            lemma_decimal_injective(x, y);
        },
        (PostsRequestView::DeletePost { id: x }, PostsRequestView::DeletePost { id: y }) => {
            lemma_same_front_same_rest(stem, decimal(x), decimal(y));
            lemma_decimal_injective(x, y);
        },
        (PostsRequestView::GetPost { id: x }, PostsRequestView::ListComments { id: y }) => {
            assert(stem + decimal(y) + tail =~= stem + (decimal(y) + tail));
            lemma_same_front_same_rest(stem, decimal(x), decimal(y) + tail);
            lemma_numeral_does_not_end_in_comments(x, y);
        },
        (PostsRequestView::ListComments { id: y }, PostsRequestView::GetPost { id: x }) => {
            assert(stem + decimal(y) + tail =~= stem + (decimal(y) + tail));
            lemma_same_front_same_rest(stem, decimal(x), decimal(y) + tail);
            lemma_numeral_does_not_end_in_comments(x, y);
        },
        (PostsRequestView::ListComments { id: x }, PostsRequestView::ListComments { id: y }) => {
            lemma_same_end_same_front(stem + decimal(x), stem + decimal(y), tail);
            lemma_same_front_same_rest(stem, decimal(x), decimal(y));
            lemma_decimal_injective(x, y);
        },
        (PostsRequestView::ListPosts, PostsRequestView::ListPosts) => {},
        (PostsRequestView::CreatePost { .. }, PostsRequestView::CreatePost { .. }) => {},
        _ => {
            assert(a.method() != b.method());
        },
    }
}

/// The relay maps requests to calls one to one: against one upstream, two
/// requests that are answered by the same call are the same request.
pub proof fn lemma_outbound_is_one_to_one(
    base: Seq<char>,
    a: PostsRequestView,
    b: PostsRequestView,
)
    requires
        a.outbound(base) == b.outbound(base),
    ensures
        a == b,
{
    lemma_same_front_same_rest(base, a.path(), b.path());
    lemma_path_is_one_to_one(a, b);
}

/// A request whose answer's body is of no interest succeeds whenever the
/// upstream reports success, whatever the body holds and whether or not it was
/// read: the response is 200 with no content.
pub proof fn lemma_unread_body_does_not_matter(
    request: PostsRequestView,
    status: u16,
    body: UpstreamBodyView,
)
    requires
        request.expected() is None,
        is_success(status),
    ensures
        request.response(UpstreamReplyView::Answered { status, body }) == (InboundResponseView {
            status: OK,
            body: ResponseBodyView::Empty,
        }),
{
}

/// A document of the form that the request asks for is handed on as it came,
/// with status 200.
pub proof fn lemma_document_is_handed_on_unchanged(
    request: PostsRequestView,
    status: u16,
    payload: PayloadView,
)
    requires
        request.expected() == Some(payload_shape(payload)),
        is_success(status),
    ensures
        request.response(
            UpstreamReplyView::Answered { status, body: UpstreamBodyView::Parsed(payload) },
        ) == (InboundResponseView { status: OK, body: ResponseBodyView::Json(payload) }),
{
}

/// The call is the request passed through: same method, same path below the
/// upstream's base, same post.
pub proof fn lemma_call_mirrors_request(base: Seq<char>, request: PostsRequestView)
    ensures
        request.outbound(base).method == request.method(),
        request.outbound(base).url == base + request.path(),
        request.outbound(base).url.subrange(
            base.len() as int,
            request.outbound(base).url.len() as int,
        ) == request.path(),
        request.outbound(base).body == request.body(),
{
    assert((base + request.path()).subrange(
        base.len() as int,
        (base + request.path()).len() as int,
    ) =~= request.path());
}

/// Nothing is kept from one exchange to the next: a request that is repeated
/// is answered by the same call, and if the upstream replies the same, by the
/// same response.
pub proof fn lemma_repeated_exchange_is_the_same(
    base: Seq<char>,
    first: PostsRequestView,
    second: PostsRequestView,
    first_reply: UpstreamReplyView,
    second_reply: UpstreamReplyView,
)
    requires
        first == second,
        first_reply == second_reply,
    ensures
        first.outbound(base) == second.outbound(base),
        first.response(first_reply) == second.response(second_reply),
{
}

/// The response holds nothing of the transport's or the decoder's message:
/// with the message taken out of the reply, the response is the same.
pub proof fn lemma_response_hides_detail(request: PostsRequestView, reply: UpstreamReplyView)
    ensures
        request.response(reply) == request.response(without_detail(reply)),
{
}

/// An exchange that failed is answered with a gateway error: status 502, or 504
/// where the call ran out of time, and the fixed text that goes with the status.
pub proof fn lemma_failed_exchange_is_a_gateway_error(
    request: PostsRequestView,
    reply: UpstreamReplyView,
)
    requires
        judged(request.expected(), reply) is Err,
    ensures
        request.response(reply).status == BAD_GATEWAY || request.response(reply).status
            == GATEWAY_TIMEOUT,
        request.response(reply).status == GATEWAY_TIMEOUT <==> reply
            matches UpstreamReplyView::Unreachable { timed_out: true, .. },
        request.response(reply).body == ResponseBodyView::Text(
            failure_text(request.response(reply).status),
        ),
{
}

} // verus!
