//! Shapes a resolved request into what goes back to the caller: a
//! structured envelope, or the program that prints the result.

use crate::clock::{renderable, Instant};
use crate::encoder::{lemma_round_trip, string_to_brainfuck, tape_of, units_of};
use crate::machine::{printed_by, straight_line};
use crate::random::{fresh_id, is_random_id};
use crate::resolver::{
    injected_failure, resolution_of, resolve, resolve_with, Resolution, ResolutionView, Status,
    DRAW_SCALE,
};
use crate::text::{same_text, text_view};
use vstd::prelude::*;

verus! {

/// The lowercase form of `s`, as the Unicode tables of the standard library
/// give it. It is not defined here.
pub uninterp spec fn lowercase_of(s: Seq<char>) -> Seq<char>;

/// `str::to_lowercase` of the standard library. Trusted: the result depends
/// on the characters of `s` alone.
pub assume_specification[ str::to_lowercase ](s: &str) -> (r: String)
    ensures
        r@ == lowercase_of(s@),
;

/// The parameters of a request; both may be absent.
#[derive(Debug, PartialEq, Eq)]
pub struct Request {
    /// The offset, in six-hour blocks; zero when absent.
    pub offset: Option<i64>,
    /// The name of the wanted format, in any case; `json` when absent.
    pub return_type: Option<String>,
}

/// A `Request` with its text as a sequence of characters.
pub struct RequestView {
    pub offset: Option<i64>,
    pub return_type: Option<Seq<char>>,
}

impl View for Request {
    type V = RequestView;

    open spec fn view(&self) -> RequestView {
        RequestView { offset: self.offset, return_type: text_view(self.return_type) }
    }
}

/// The format of a reply.
#[derive(Clone, Copy, Debug, PartialEq, Eq, Structural)]
pub enum ReturnType {
    Json,
    Brainfuck,
}

/// The structured reply.
#[derive(Debug, PartialEq, Eq)]
pub struct Response {
    /// A fresh identifier: the sixteen bytes of a UUID, in network order.
    pub id: u128,
    pub message: String,
    pub status: String,
    pub result: Option<String>,
}

/// A `Response` with its text as sequences of characters.
pub struct ResponseView {
    pub id: u128,
    pub message: Seq<char>,
    pub status: Seq<char>,
    pub result: Option<Seq<char>>,
}

impl View for Response {
    type V = ResponseView;

    open spec fn view(&self) -> ResponseView {
        ResponseView {
            id: self.id,
            message: self.message@,
            status: self.status@,
            result: text_view(self.result),
        }
    }
}

/// What goes back to the caller.
#[derive(Debug, PartialEq, Eq)]
pub enum Reply {
    /// An envelope, to be sent as `application/json`.
    Json(Response),
    /// An encoded program, to be sent as `text/html`.
    Html(String),
}

/// A `Reply` with its text as sequences of characters.
pub enum ReplyView {
    Json(ResponseView),
    Html(Seq<char>),
}

impl View for Reply {
    type V = ReplyView;

    open spec fn view(&self) -> ReplyView {
        match self {
            Reply::Json(response) => ReplyView::Json(response@),
            Reply::Html(program) => ReplyView::Html(program@),
        }
    }
}

/// The offset of a request: zero when absent.
pub open spec fn offset_of(offset: Option<i64>) -> i64 {
    match offset {
        Some(units) => units,
        None => 0,
    }
}

/// The format that a lowercased name selects: the encoder for `brainfuck`,
/// the envelope for anything else.
pub open spec fn format_named(lowered: Seq<char>) -> ReturnType {
    if lowered == "brainfuck"@ {
        ReturnType::Brainfuck
    } else {
        ReturnType::Json
    }
}

/// The format that a request selects: the envelope when it names none, else
/// what its name selects once lowercased.
pub open spec fn format_of(return_type: Option<Seq<char>>) -> ReturnType {
    match return_type {
        Some(name) => format_named(lowercase_of(name)),
        None => ReturnType::Json,
    }
}

/// The text of a status on the wire.
pub open spec fn status_text(status: Status) -> Seq<char> {
    match status {
        Status::Success => "success"@,
        Status::Failure => "failure"@,
    }
}

/// The message that goes with a status.
pub open spec fn message_for(status: Status) -> Seq<char> {
    match status {
        Status::Success => "result"@,
        Status::Failure => "unable to calculate time in four hours"@,
    }
}

/// The envelope for a resolution.
pub open spec fn envelope_of(id: u128, resolution: ResolutionView) -> ResponseView {
    ResponseView {
        id,
        message: message_for(resolution.status),
        status: status_text(resolution.status),
        result: resolution.result,
    }
}

/// The envelope of a failed request.
pub open spec fn failure_envelope(id: u128) -> ResponseView {
    ResponseView {
        id,
        message: "unable to calculate time in four hours"@,
        status: "failure"@,
        result: None,
    }
}

/// The text that the encoder is given: the timestamp, or `massive failure`
/// where there is none.
pub open spec fn program_text(resolution: ResolutionView) -> Seq<char> {
    match resolution.result {
        Some(text) => text,
        None => "massive failure"@,
    }
}

/// The reply to a resolution in a format.
pub open spec fn reply_of(format: ReturnType, id: u128, resolution: ResolutionView) -> ReplyView {
    match format {
        ReturnType::Json => ReplyView::Json(envelope_of(id, resolution)),
        ReturnType::Brainfuck => ReplyView::Html(tape_of(program_text(resolution))),
    }
}

/// The reply to a request, given its chance, the clock's reading and an
/// identifier.
pub open spec fn response_to(request: RequestView, draw: u64, now: Instant, id: u128) -> ReplyView {
    reply_of(
        format_of(request.return_type),
        id,
        resolution_of(draw, now, offset_of(request.offset)),
    )
}

impl ResponseView {
    /// Whether the status is one of the two there are, and a result is
    /// present exactly when it is `success`.
    pub open spec fn wf(self) -> bool {
        &&& self.status == "success"@ || self.status == "failure"@
        &&& self.result is Some <==> self.status == "success"@
    }
}

impl Status {
    /// The text of the status on the wire.
    pub fn as_str(self) -> (r: &'static str)
        ensures
            r@ == status_text(self),
    {
        match self {
            Status::Success => "success",
            Status::Failure => "failure",
        }
    }

    /// The message that goes with the status.
    pub fn message(self) -> (r: &'static str)
        ensures
            r@ == message_for(self),
    {
        match self {
            Status::Success => "result",
            Status::Failure => "unable to calculate time in four hours",
        }
    }
}

impl ReturnType {
    /// The format that an already lowercased name selects.
    pub fn from_lowercase(lowered: &str) -> (r: ReturnType)
        ensures
            r == format_named(lowered@),
    {
        if same_text(lowered, "brainfuck") {
            ReturnType::Brainfuck
        } else {
            ReturnType::Json
        }
    }

    /// The format that a request's `return_type` selects.
    pub fn select(return_type: &Option<String>) -> (r: ReturnType)
        ensures
            r == format_of(text_view(*return_type)),
    {
        match return_type {
            Some(name) => {
                let lowered = name.as_str().to_lowercase();
                ReturnType::from_lowercase(lowered.as_str())
            },
            None => ReturnType::Json,
        }
    }
}

impl Request {
    /// The offset of the request: zero when absent.
    pub fn offset_or_default(&self) -> (r: i64)
        ensures
            r == offset_of(self.offset),
    {
        match self.offset {
            Some(units) => units,
            None => 0,
        }
    }
}

impl Response {
    /// Whether the status is one of the two there are, and a result is
    /// present exactly when it is `success`.
    pub open spec fn wf(&self) -> bool {
        self@.wf()
    }

    /// The envelope for a resolution, under the identifier `id`.
    pub fn new(id: u128, resolution: Resolution) -> (r: Response)
        ensures
            r@ == envelope_of(id, resolution@),
            resolution.wf() ==> r.wf(),
    {
        proof {
            if resolution.wf() {
                lemma_envelope_wf(id, resolution@);
            }
        }
        Response {
            id,
            message: resolution.status.message().to_owned(),
            status: resolution.status.as_str().to_owned(),
            result: resolution.result,
        }
    }
}

/// The two status texts differ.
pub proof fn lemma_status_texts_differ()
    ensures
        "success"@ != "failure"@,
{
    reveal_strlit("success");
    reveal_strlit("failure");
    assert("success"@[0] == 's');
    assert("failure"@[0] == 'f');
}

/// In the envelope of a resolution that has a result exactly on success, a
/// result is present exactly when the status text is `success`.
pub proof fn lemma_envelope_wf(id: u128, resolution: ResolutionView)
    requires
        resolution.wf(),
    ensures
        envelope_of(id, resolution).wf(),
{
    lemma_status_texts_differ();
}

/// Whether a request names the format `json`, in any case.
pub open spec fn names_json(return_type: Option<Seq<char>>) -> bool {
    return_type matches Some(name) && lowercase_of(name) == "json"@
}

/// Whether a request names the format `brainfuck`, in any case.
pub open spec fn names_brainfuck(return_type: Option<Seq<char>>) -> bool {
    return_type matches Some(name) && lowercase_of(name) == "brainfuck"@
}

/// Every envelope that answers a request has a status that is one of the
/// two there are, and a result exactly when it is `success`.
pub proof fn lemma_envelope_invariant(request: RequestView, draw: u64, now: Instant, id: u128)
    ensures
        response_to(request, draw, now, id) matches ReplyView::Json(envelope) ==> envelope.wf(),
{
    lemma_envelope_wf(id, resolution_of(draw, now, offset_of(request.offset)));
}

/// Format fallback: a request that does not name `brainfuck`, whether it
/// names another format or none, is answered as one that names `json`.
pub proof fn lemma_format_fallback(
    request: RequestView,
    json_request: RequestView,
    draw: u64,
    now: Instant,
    id: u128,
)
    requires
        !names_brainfuck(request.return_type),
        names_json(json_request.return_type),
        request.offset == json_request.offset,
    ensures
        response_to(request, draw, now, id) == response_to(json_request, draw, now, id),
        response_to(request, draw, now, id) is Json,
{
    reveal_strlit("json");
    reveal_strlit("brainfuck");
    assert("json"@.len() != "brainfuck"@.len());
}

/// Every program that answers a request is straight-line and prints the
/// timestamp the request resolved to, or `massive failure` where there is
/// none: one byte per character, its code point modulo 256.
pub proof fn lemma_program_prints_result(request: RequestView, draw: u64, now: Instant, id: u128)
    ensures
        response_to(request, draw, now, id) matches ReplyView::Html(program) ==> (straight_line(
            program,
        ) && printed_by(program) == units_of(
            program_text(resolution_of(draw, now, offset_of(request.offset))),
        )),
{
    lemma_round_trip(program_text(resolution_of(draw, now, offset_of(request.offset))));
}

/// A request failed on purpose is answered with the failure envelope, or,
/// where it names `brainfuck`, with the program that prints `massive
/// failure`; its offset plays no part.
pub proof fn lemma_failure_reply(request: RequestView, draw: u64, now: Instant, id: u128)
    requires
        injected_failure(draw),
    ensures
        names_brainfuck(request.return_type) ==> response_to(request, draw, now, id)
            == ReplyView::Html(tape_of("massive failure"@)),
        !names_brainfuck(request.return_type) ==> response_to(request, draw, now, id)
            == ReplyView::Json(failure_envelope(id)),
{
}

/// The text that the encoder is given for a resolution.
pub fn text_to_encode(resolution: Resolution) -> (r: String)
    ensures
        r@ == program_text(resolution@),
{
    match resolution.result {
        Some(text) => text,
        None => "massive failure".to_owned(),
    }
}

/// Shapes a resolution into a reply of the given format.
pub fn shape(format: ReturnType, id: u128, resolution: Resolution) -> (r: Reply)
    ensures
        r@ == reply_of(format, id, resolution@),
        r matches Reply::Json(response) ==> (resolution.wf() ==> response.wf()),
{
    match format {
        ReturnType::Json => Reply::Json(Response::new(id, resolution)),
        ReturnType::Brainfuck => {
            let text = text_to_encode(resolution);
            Reply::Html(string_to_brainfuck(text.as_str()))
        },
    }
}

/// Answers a request whose chance, clock reading and identifier are given.
pub fn respond_with(request: &Request, draw: u64, now: Instant, id: u128) -> (r: Reply)
    ensures
        r@ == response_to(request@, draw, now, id),
        r matches Reply::Json(response) ==> response.wf(),
{
    let resolution = resolve_with(draw, now, request.offset_or_default());
    let format = ReturnType::select(&request.return_type);
    shape(format, id, resolution)
}

/// Answers a request: draws its chance, reads the system clock on the
/// success path, and makes a fresh identifier for an envelope.
///
/// Whatever was drawn, read and made, the reply is `respond_with` of them.
pub fn respond(request: &Request) -> (r: Reply)
    ensures
        r matches Reply::Json(response) ==> response.wf() && is_random_id(response.id),
        exists|draw: u64, now: Instant, id: u128|
            draw < DRAW_SCALE && now.wf() && renderable(now.secs() as int)
                && r@ == #[trigger] response_to(request@, draw, now, id),
{
    let offset = request.offset_or_default();
    let resolution = resolve(offset);
    let ghost (draw, now) = choose|draw: u64, now: Instant|
        draw < DRAW_SCALE && now.wf() && renderable(now.secs() as int)
            && resolution@ == #[trigger] resolution_of(draw, now, offset);
    let format = ReturnType::select(&request.return_type);
    match format {
        ReturnType::Json => {
            let id = fresh_id();
            let r = shape(format, id, resolution);
            assert(r@ == response_to(request@, draw, now, id));
            r
        },
        ReturnType::Brainfuck => {
            let r = shape(format, 0, resolution);
            assert(r@ == response_to(request@, draw, now, 0));
            r
        },
    }
}

} // verus!
