//! The cat-fact relay: `GET /` fetches one fact from the fact service and shows
//! it as an HTML page.

use vstd::prelude::*;
use crate::exchange::{
    judge_reply, judged, outcome_view, without_detail, Method, OutboundCall, OutboundCallView, Outcome, Payload,
    PayloadView, Shape, UpstreamFailure, UpstreamReply, UpstreamReplyView,
};
use crate::records::CatFact;
use crate::response::{
    failure_reported, forward, forwarded, report_failure, InboundResponse, InboundResponseView,
    ResponseBody, ResponseBodyView, OK,
};

verus! {

/// Where the fact service lives unless the server is told otherwise.
pub const FACT_SERVICE: &'static str = "https://catfact.ninja";

/// The call that fetches a fact from the service at `base`: a `GET` of
/// `{base}/fact`, without a body.
pub open spec fn fact_call(base: Seq<char>) -> OutboundCallView {
    OutboundCallView { method: Method::Get, url: base + "/fact"@, body: None }
}

/// The page that shows `fact`: the text, as it is, in a paragraph under a fixed
/// heading.
pub open spec fn fact_page(fact: Seq<char>) -> Seq<char> {
    "<html><body><h1>Random cat fact</h1><p>"@ + fact + "</p></body></html>"@
}

/// The response that shows the outcome of the exchange as a page: the page for
/// the fact, or the report of the failure. A document that is no fact is a
/// shape failure.
pub open spec fn page_shown(outcome: Result<Option<PayloadView>, UpstreamFailure>)
    -> InboundResponseView {
    match outcome {
        Ok(Some(PayloadView::Fact(fact))) => InboundResponseView {
            status: OK,
            body: ResponseBodyView::Html(fact_page(fact.fact)),
        },
        Ok(_) => failure_reported(UpstreamFailure::Shape),
        Err(failure) => failure_reported(failure),
    }
}

/// The call that fetches a fact from the service at `base`.
pub fn cat_fact_call(base: &str) -> (call: OutboundCall)
    ensures
        call@ == fact_call(base@),
{
    let mut url = base.to_owned();
    url.append("/fact");
    OutboundCall { method: Method::Get, url, body: None }
}

/// The page that shows `fact`.
pub fn render_fact_page(fact: &CatFact) -> (page: String)
    ensures
        page@ == fact_page(fact.fact@),
{
    let mut page = "<html><body><h1>Random cat fact</h1><p>".to_owned();
    page.append(fact.fact.as_str());
    page.append("</p></body></html>");
    page
}

/// The response that shows the outcome of the exchange as a page.
pub fn show_page(outcome: Outcome) -> (response: InboundResponse)
    ensures
        response@ == page_shown(outcome_view(outcome)),
{
    match outcome {
        Ok(Some(Payload::Fact(fact))) => InboundResponse {
            status: OK,
            body: ResponseBody::Html(render_fact_page(&fact)),
        },
        Ok(_) => report_failure(UpstreamFailure::Shape),
        Err(failure) => report_failure(failure),
    }
}

/// The response of `GET /` to what came of the call to the fact service.
pub fn cat_fact_page_response(reply: UpstreamReply) -> (response: InboundResponse)
    ensures
        response@ == page_shown(judged(Some(Shape::Fact), reply@)),
{
    show_page(judge_reply(Some(Shape::Fact), reply))
}

/// The response that hands the fact on as JSON instead of showing it.
pub fn cat_fact_json_response(reply: UpstreamReply) -> (response: InboundResponse)
    ensures
        response@ == forwarded(judged(Some(Shape::Fact), reply@)),
{
    forward(judge_reply(Some(Shape::Fact), reply))
}

/// The page holds the fact as it is, between the opening of the paragraph and
/// its close.
pub proof fn lemma_page_holds_the_fact(fact: Seq<char>)
    ensures
        fact_page(fact).len() == 39 + fact.len() + 18,
        fact_page(fact).subrange(0, 39) == "<html><body><h1>Random cat fact</h1><p>"@,
        fact_page(fact).subrange(39, 39 + fact.len() as int) == fact,
        fact_page(fact).subrange(39 + fact.len() as int, 39 + fact.len() as int + 18) == "</p></body></html>"@,
{
    reveal_strlit("<html><body><h1>Random cat fact</h1><p>");
    reveal_strlit("</p></body></html>");
    let head = "<html><body><h1>Random cat fact</h1><p>"@;
    let tail = "</p></body></html>"@;
    assert(fact_page(fact).subrange(0, 39) =~= head);
    assert(fact_page(fact).subrange(39, 39 + fact.len() as int) =~= fact);
    assert(fact_page(fact).subrange(39 + fact.len() as int, 39 + fact.len() as int + 18) =~= tail);
}

/// The page is shown with status 200 exactly when the exchange brought a fact;
/// every other outcome is answered with a gateway error.
pub proof fn lemma_page_or_gateway_error(outcome: Result<Option<PayloadView>, UpstreamFailure>)
    ensures
        page_shown(outcome).status == OK <==> outcome matches Ok(Some(PayloadView::Fact(_))),
        outcome matches Ok(Some(PayloadView::Fact(fact))) ==> page_shown(outcome).body
            == ResponseBodyView::Html(fact_page(fact.fact)),
        outcome matches Err(failure) ==> page_shown(outcome) == failure_reported(failure),
{
}

/// The page's response holds nothing of the transport's or the decoder's
/// message: with the message taken out of the reply, the response is the same.
pub proof fn lemma_page_hides_detail(reply: UpstreamReplyView)
    ensures
        page_shown(judged(Some(Shape::Fact), reply)) == page_shown(
            judged(Some(Shape::Fact), without_detail(reply)),
        ),
{
}

} // verus!
