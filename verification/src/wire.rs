//! Shaping of the outbound request: request id, headers and body.

use crate::json::{empty_object, json_object, json_text, object_value, put_member, text_value};
use vstd::prelude::*;
use vstd::string::StringExecFns;

verus! {

/// An inbound call, as the listener hands it over.
#[derive(Debug)]
pub struct ProxyRequest {
    pub model: String,
    pub project: String,
    pub access_token: String,
    /// The request payload. It is passed on as it came.
    pub request: serde_json::Value,
}

/// Mathematical model of a [`ProxyRequest`].
pub struct ProxyRequestView {
    pub model: Seq<char>,
    pub project: Seq<char>,
    pub access_token: Seq<char>,
    pub request: serde_json::Value,
}

impl View for ProxyRequest {
    type V = ProxyRequestView;

    open spec fn view(&self) -> ProxyRequestView {
        ProxyRequestView {
            model: self.model@,
            project: self.project@,
            access_token: self.access_token@,
            request: self.request,
        }
    }
}

/// One header of the outbound request.
#[derive(Debug, PartialEq, Eq)]
pub struct Header {
    pub name: String,
    pub value: String,
}

/// Mathematical model of a [`Header`].
pub struct HeaderView {
    pub name: Seq<char>,
    pub value: Seq<char>,
}

impl View for Header {
    type V = HeaderView;

    open spec fn view(&self) -> HeaderView {
        HeaderView { name: self.name@, value: self.value@ }
    }
}

/// What is posted to each endpoint that a dispatch sequence attempts. It is
/// shaped once per inbound call, so every attempt carries the same request
/// id.
#[derive(Debug)]
pub struct WireRequest {
    pub request_id: String,
    pub headers: Vec<Header>,
    pub body: serde_json::Value,
}

/// Mathematical model of a [`WireRequest`].
pub struct WireRequestView {
    pub request_id: Seq<char>,
    pub headers: Seq<HeaderView>,
    pub body: serde_json::Value,
}

impl View for WireRequest {
    type V = WireRequestView;

    open spec fn view(&self) -> WireRequestView {
        WireRequestView {
            request_id: self.request_id@,
            headers: self.headers@.map_values(|header: Header| header@),
            body: self.body,
        }
    }
}

/// A digit of lower-case hexadecimal.
pub open spec fn is_lower_hex(c: char) -> bool {
    ('0' <= c && c <= '9') || ('a' <= c && c <= 'f')
}

/// The hyphenated lower-case form of a random (version 4) UUID.
pub open spec fn is_random_uuid_text(text: Seq<char>) -> bool {
    &&& text.len() == 36
    &&& forall|i: int|
        0 <= i < 36 ==> if i == 8 || i == 13 || i == 18 || i == 23 {
            text[i] == '-'
        } else {
            is_lower_hex(#[trigger] text[i])
        }
    &&& text[14] == '4'
    &&& text[19] == '8' || text[19] == '9' || text[19] == 'a' || text[19] == 'b'
}

/// The request id made from a UUID text.
pub open spec fn request_id_of(uuid: Seq<char>) -> Seq<char> {
    "agent-"@ + uuid
}

/// The value of the `Authorization` header for a token.
pub open spec fn bearer_of(access_token: Seq<char>) -> Seq<char> {
    "Bearer "@ + access_token
}

/// The headers of the outbound request, in the order in which they are set.
pub open spec fn wire_headers(access_token: Seq<char>) -> Seq<HeaderView> {
    seq![
        HeaderView { name: "Content-Type"@, value: "application/json"@ },
        HeaderView { name: "Authorization"@, value: bearer_of(access_token) },
        HeaderView { name: "Accept"@, value: "text/event-stream"@ },
    ]
}

/// The members of the outbound body.
pub open spec fn wire_members(inbound: ProxyRequestView, request_id: Seq<char>) -> Map<
    Seq<char>,
    serde_json::Value,
> {
    Map::<Seq<char>, serde_json::Value>::empty().insert("model"@, json_text(inbound.model)).insert(
        "userAgent"@,
        json_text("antigravity"@),
    ).insert("requestType"@, json_text("agent"@)).insert(
        "project"@,
        json_text(inbound.project),
    ).insert("requestId"@, json_text(request_id)).insert("request"@, inbound.request)
}

/// The outbound request for an inbound call and a request id.
pub open spec fn wire_request(inbound: ProxyRequestView, request_id: Seq<char>) -> WireRequestView {
    WireRequestView {
        request_id,
        headers: wire_headers(inbound.access_token),
        body: json_object(wire_members(inbound, request_id)),
    }
}

/// `uuid::Uuid::new_v4`, rendered by the `Display` of `Uuid`: a fresh random
/// UUID in hyphenated lower-case form. Nothing is claimed of the random
/// digits; the version and variant digits are those of a version 4 UUID.
/// The call does not return if the operating system yields no random bytes.
#[verifier::external_body]
fn random_uuid_text() -> (text: String)
    ensures
        is_random_uuid_text(text@),
{
    uuid::Uuid::new_v4().to_string()
}

/// The request id made from a UUID text.
pub fn request_id_from(uuid: &str) -> (id: String)
    ensures
        id@ == request_id_of(uuid@),
{
    let mut id = "agent-".to_owned();
    id.append(uuid);
    id
}

/// A request id that no earlier call was given: `agent-` and a fresh random
/// UUID.
pub fn fresh_request_id() -> (id: String)
    ensures
        exists|uuid: Seq<char>| is_random_uuid_text(uuid) && id@ == #[trigger] request_id_of(uuid),
{
    let uuid = random_uuid_text();
    request_id_from(uuid.as_str())
}

fn header(name: &str, value: String) -> (header: Header)
    ensures
        header@ == (HeaderView { name: name@, value: value@ }),
{
    Header { name: name.to_owned(), value }
}

/// Shapes the outbound request for an inbound call under the given request
/// id.
pub fn shape_request(inbound: ProxyRequest, request_id: String) -> (wire: WireRequest)
    ensures
        wire@ == wire_request(inbound@, request_id@),
{
    let mut bearer = "Bearer ".to_owned();
    bearer.append(inbound.access_token.as_str());
    let mut headers: Vec<Header> = Vec::new();
    headers.push(header("Content-Type", "application/json".to_owned()));
    headers.push(header("Authorization", bearer));
    headers.push(header("Accept", "text/event-stream".to_owned()));

    let mut object = empty_object();
    put_member(&mut object, "model".to_owned(), text_value(inbound.model.as_str()));
    put_member(&mut object, "userAgent".to_owned(), text_value("antigravity"));
    put_member(&mut object, "requestType".to_owned(), text_value("agent"));
    put_member(&mut object, "project".to_owned(), text_value(inbound.project.as_str()));
    put_member(&mut object, "requestId".to_owned(), text_value(request_id.as_str()));
    put_member(&mut object, "request".to_owned(), inbound.request);
    let body = object_value(object);

    let wire = WireRequest { request_id, headers, body };
    assert(wire@.headers =~= wire_headers(inbound@.access_token));
    wire
}

/// Shapes the outbound request for an inbound call under a fresh request id.
pub fn shape_fresh_request(inbound: ProxyRequest) -> (wire: WireRequest)
    ensures
        exists|uuid: Seq<char>|
            is_random_uuid_text(uuid) && wire@ == #[trigger] wire_request(
                inbound@,
                request_id_of(uuid),
            ),
{
    let id = fresh_request_id();
    shape_request(inbound, id)
}

/// The outbound body has six members: the model and project of the inbound
/// call, the request id, the two fixed protocol fields and the payload.
pub proof fn lemma_wire_members(inbound: ProxyRequestView, request_id: Seq<char>)
    ensures
        wire_members(inbound, request_id).dom() =~= set![
            "model"@,
            "userAgent"@,
            "requestType"@,
            "project"@,
            "requestId"@,
            "request"@,
        ],
        wire_members(inbound, request_id)["model"@] == json_text(inbound.model),
        wire_members(inbound, request_id)["userAgent"@] == json_text("antigravity"@),
        wire_members(inbound, request_id)["requestType"@] == json_text("agent"@),
        wire_members(inbound, request_id)["project"@] == json_text(inbound.project),
        wire_members(inbound, request_id)["requestId"@] == json_text(request_id),
        wire_members(inbound, request_id)["request"@] == inbound.request,
{
    reveal_strlit("model");
    reveal_strlit("userAgent");
    reveal_strlit("requestType");
    reveal_strlit("project");
    reveal_strlit("requestId");
    reveal_strlit("request");
    // The six keys differ in length or in their first letter.
    assert("model"@.len() == 5);
    assert("userAgent"@.len() == 9 && "userAgent"@[0] == 'u');
    assert("requestType"@.len() == 11);
    assert("project"@.len() == 7 && "project"@[0] == 'p');
    assert("requestId"@.len() == 9 && "requestId"@[0] == 'r');
    assert("request"@.len() == 7 && "request"@[0] == 'r');
}

} // verus!
