use api_relay::exchange::{Method, Payload, Shape, UpstreamBody, UpstreamReply};
use api_relay::posts::{PostsRequest, PLACEHOLDER_API};
use api_relay::records::{Comment, Post};
use api_relay::response::{InboundResponse, ResponseBody};

fn post(id: u32, title: &str, body: &str, user_id: u32) -> Post {
    Post { id, title: title.to_string(), body: body.to_string(), user_id }
}

fn comment(post_id: u32, id: u32) -> Comment {
    Comment {
        post_id,
        id,
        name: "id labore ex et quam laborum".to_string(),
        email: "Eliseo@gardner.biz".to_string(),
        body: "laudantium enim quasi".to_string(),
    }
}

fn answered(body: UpstreamBody) -> UpstreamReply {
    UpstreamReply::Answered { status: 200, body }
}

fn ok_empty() -> InboundResponse {
    InboundResponse { status: 200, body: ResponseBody::Empty }
}

fn bad_gateway() -> InboundResponse {
    InboundResponse { status: 502, body: ResponseBody::Text("Bad Gateway".to_string()) }
}

#[test]
fn default_upstream_is_the_placeholder_api() {
    assert_eq!(PLACEHOLDER_API, "https://jsonplaceholder.typicode.com");
}

#[test]
fn create_sends_one_post_with_the_same_fields() {
    let request = PostsRequest::CreatePost { post: post(0, "t", "b", 1) };
    let call = request.outbound_call(PLACEHOLDER_API);
    assert_eq!(call.method, Method::Post);
    assert_eq!(call.url, "https://jsonplaceholder.typicode.com/posts");
    assert_eq!(call.body, Some(post(0, "t", "b", 1)));
    let sent = call.body.unwrap();
    assert_eq!(sent.id, 0);
    assert_eq!(sent.title, "t");
    assert_eq!(sent.body, "b");
    assert_eq!(sent.user_id, 1);
}

#[test]
fn get_by_id_sends_one_get_to_the_same_path() {
    let request = PostsRequest::GetPost { id: 5 };
    assert_eq!(request.method(), Method::Get);
    assert_eq!(request.path(), "/posts/5");
    let call = request.outbound_call(PLACEHOLDER_API);
    assert_eq!(call.method, Method::Get);
    assert_eq!(call.url, "https://jsonplaceholder.typicode.com/posts/5");
    assert_eq!(call.body, None);
    assert_eq!(request.expected(), Some(Shape::OptionalPost));
}

#[test]
fn get_by_id_hands_the_post_on_unchanged() {
    let request = PostsRequest::GetPost { id: 5 };
    let upstream = post(5, "nesciunt quas odio", "repudiandae veniam quaerat", 1);
    let reply = answered(UpstreamBody::Parsed(Payload::Post(Some(upstream.clone()))));
    assert_eq!(
        request.response(reply),
        InboundResponse { status: 200, body: ResponseBody::Json(Payload::Post(Some(upstream))) }
    );
}

#[test]
fn get_by_id_hands_on_null_for_a_post_that_is_not_there() {
    let request = PostsRequest::GetPost { id: 5 };
    let reply = answered(UpstreamBody::Parsed(Payload::Post(None)));
    assert_eq!(
        request.response(reply),
        InboundResponse { status: 200, body: ResponseBody::Json(Payload::Post(None)) }
    );
}

#[test]
fn delete_sends_one_delete_to_the_same_path() {
    let request = PostsRequest::DeletePost { id: 5 };
    assert_eq!(request.method(), Method::Delete);
    assert_eq!(request.path(), "/posts/5");
    let call = request.outbound_call(PLACEHOLDER_API);
    assert_eq!(call.method, Method::Delete);
    assert_eq!(call.url, "https://jsonplaceholder.typicode.com/posts/5");
    assert_eq!(call.body, None);
    assert_eq!(request.expected(), None);
}

#[test]
fn delete_succeeds_whatever_the_upstream_body_holds() {
    let request = PostsRequest::DeletePost { id: 5 };
    let bodies = vec![
        UpstreamBody::Unread,
        UpstreamBody::Malformed { detail: "expected value at line 1 column 1".to_string() },
        UpstreamBody::Parsed(Payload::Post(None)),
        UpstreamBody::Parsed(Payload::Post(Some(post(5, "t", "b", 1)))),
        UpstreamBody::Parsed(Payload::Posts(vec![])),
        UpstreamBody::Parsed(Payload::Comments(vec![comment(5, 1)])),
    ];
    for body in bodies {
        assert_eq!(request.response(answered(body)), ok_empty());
    }
    for status in [200u16, 201, 204, 299] {
        let reply = UpstreamReply::Answered { status, body: UpstreamBody::Unread };
        assert_eq!(request.response(reply), ok_empty());
    }
}

#[test]
fn repeated_comment_listing_makes_the_same_call_and_gives_the_same_result() {
    let upstream = vec![comment(1, 1), comment(1, 2)];

    let first = PostsRequest::ListComments { id: 1 };
    let first_call = first.outbound_call(PLACEHOLDER_API);
    let first_response =
        first.response(answered(UpstreamBody::Parsed(Payload::Comments(upstream.clone()))));

    let second = PostsRequest::ListComments { id: 1 };
    let second_call = second.outbound_call(PLACEHOLDER_API);
    let second_response =
        second.response(answered(UpstreamBody::Parsed(Payload::Comments(upstream.clone()))));

    assert_eq!(first_call.method, Method::Get);
    assert_eq!(first_call.url, "https://jsonplaceholder.typicode.com/posts/1/comments");
    assert_eq!(first_call, second_call);
    assert_eq!(first_response, second_response);
    assert_eq!(
        first_response,
        InboundResponse { status: 200, body: ResponseBody::Json(Payload::Comments(upstream)) }
    );
}

#[test]
fn second_exchange_does_not_see_the_first() {
    let request = PostsRequest::ListComments { id: 1 };
    let first = request.response(answered(UpstreamBody::Parsed(Payload::Comments(vec![
        comment(1, 1),
    ]))));
    let second = request.response(answered(UpstreamBody::Parsed(Payload::Comments(vec![]))));
    assert_eq!(
        first,
        InboundResponse {
            status: 200,
            body: ResponseBody::Json(Payload::Comments(vec![comment(1, 1)])),
        }
    );
    assert_eq!(
        second,
        InboundResponse { status: 200, body: ResponseBody::Json(Payload::Comments(vec![])) }
    );
}

#[test]
fn every_route_calls_its_own_method_and_path() {
    let p = || post(3, "title", "body", 9);
    let table: Vec<(PostsRequest, Method, &str, Option<Shape>, bool)> = vec![
        (PostsRequest::ListPosts, Method::Get, "/posts", Some(Shape::Posts), false),
        (PostsRequest::GetPost { id: 12 }, Method::Get, "/posts/12", Some(Shape::OptionalPost), false),
        (
            PostsRequest::ListComments { id: 12 },
            Method::Get,
            "/posts/12/comments",
            Some(Shape::Comments),
            false,
        ),
        (PostsRequest::CreatePost { post: p() }, Method::Post, "/posts", None, true),
        (PostsRequest::UpdatePost { id: 12, post: p() }, Method::Put, "/posts/12", None, true),
        (PostsRequest::DeletePost { id: 12 }, Method::Delete, "/posts/12", None, false),
    ];
    for (request, method, path, expected, carries_post) in table {
        assert_eq!(request.method(), method);
        assert_eq!(request.path(), path);
        assert_eq!(request.expected(), expected);
        let call = request.outbound_call("http://upstream.test");
        assert_eq!(call.method, method);
        assert_eq!(call.url, format!("http://upstream.test{}", path));
        assert_eq!(call.body, if carries_post { Some(p()) } else { None });
    }
}

#[test]
fn update_sends_the_post_to_its_own_path() {
    let request = PostsRequest::UpdatePost { id: 7, post: post(7, "new title", "new body", 2) };
    let call = request.outbound_call(PLACEHOLDER_API);
    assert_eq!(call.method, Method::Put);
    assert_eq!(call.url, "https://jsonplaceholder.typicode.com/posts/7");
    assert_eq!(call.body, Some(post(7, "new title", "new body", 2)));
    assert_eq!(request.response(answered(UpstreamBody::Unread)), ok_empty());
}

#[test]
fn create_succeeds_without_reading_the_answer() {
    let request = PostsRequest::CreatePost { post: post(0, "t", "b", 1) };
    let reply = UpstreamReply::Answered { status: 201, body: UpstreamBody::Unread };
    assert_eq!(request.response(reply), ok_empty());
}

#[test]
fn list_hands_the_posts_on_in_order() {
    let upstream = vec![post(1, "a", "x", 1), post(2, "b", "y", 1), post(3, "c", "z", 2)];
    let reply = answered(UpstreamBody::Parsed(Payload::Posts(upstream.clone())));
    assert_eq!(
        PostsRequest::ListPosts.response(reply),
        InboundResponse { status: 200, body: ResponseBody::Json(Payload::Posts(upstream)) }
    );
}

#[test]
fn identifiers_at_the_ends_of_the_range() {
    assert_eq!(PostsRequest::GetPost { id: 0 }.path(), "/posts/0");
    assert_eq!(PostsRequest::GetPost { id: u32::MAX }.path(), "/posts/4294967295");
    assert_eq!(
        PostsRequest::ListComments { id: u32::MAX }.path(),
        "/posts/4294967295/comments"
    );
}

#[test]
fn document_of_another_form_is_a_bad_gateway() {
    let reply = answered(UpstreamBody::Parsed(Payload::Comments(vec![comment(1, 1)])));
    assert_eq!(PostsRequest::ListPosts.response(reply), bad_gateway());
    let reply = answered(UpstreamBody::Parsed(Payload::Posts(vec![])));
    assert_eq!(PostsRequest::GetPost { id: 1 }.response(reply), bad_gateway());
    let reply = answered(UpstreamBody::Parsed(Payload::Post(None)));
    assert_eq!(PostsRequest::ListComments { id: 1 }.response(reply), bad_gateway());
}

#[test]
fn missing_document_is_a_bad_gateway() {
    assert_eq!(PostsRequest::ListPosts.response(answered(UpstreamBody::Unread)), bad_gateway());
}

#[test]
fn different_requests_make_different_calls() {
    let p = || post(3, "title", "body", 9);
    let requests = || {
        vec![
            PostsRequest::ListPosts,
            PostsRequest::GetPost { id: 1 },
            PostsRequest::GetPost { id: 10 },
            PostsRequest::ListComments { id: 1 },
            PostsRequest::ListComments { id: 10 },
            PostsRequest::CreatePost { post: p() },
            PostsRequest::CreatePost { post: post(3, "other", "body", 9) },
            PostsRequest::UpdatePost { id: 1, post: p() },
            PostsRequest::UpdatePost { id: 10, post: p() },
            PostsRequest::DeletePost { id: 1 },
            PostsRequest::DeletePost { id: 10 },
        ]
    };
    for (i, a) in requests().iter().enumerate() {
        for (j, b) in requests().iter().enumerate() {
            let same = a.outbound_call(PLACEHOLDER_API) == b.outbound_call(PLACEHOLDER_API);
            assert_eq!(same, i == j);
        }
    }
}
