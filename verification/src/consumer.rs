//! The chat-bot side of the service: which slash command asks for which
//! endpoint, and what is said back once the endpoint has answered or has
//! not.
//!
//! The bot itself runs elsewhere. It hands a command's name to
//! `on_command`, carries out the step it gets back, and, where that was a
//! fetch, hands what came of it to `on_fetched`.

use crate::text::same_text;
use vstd::prelude::*;

verus! {

/// The two forms in which the service is asked for the time.
#[derive(Clone, Copy, Debug, PartialEq, Eq, Structural)]
pub enum Endpoint {
    /// The envelope.
    Json,
    /// The encoded program.
    Brainfuck,
}

/// What the bot does next.
#[derive(Debug, PartialEq, Eq)]
pub enum Step {
    /// Ask the service, then call `on_fetched`.
    Fetch(Endpoint),
    /// Say this.
    Reply(String),
}

/// A `Step` with its text as a sequence of characters.
pub enum StepView {
    Fetch(Endpoint),
    Reply(Seq<char>),
}

impl View for Step {
    type V = StepView;

    open spec fn view(&self) -> StepView {
        match self {
            Step::Fetch(endpoint) => StepView::Fetch(*endpoint),
            Step::Reply(content) => StepView::Reply(content@),
        }
    }
}

/// What the service answered: the HTTP status and the body.
#[derive(Debug, PartialEq, Eq)]
pub struct Answer {
    pub status: u16,
    pub body: String,
}

/// An `Answer` with its body as a sequence of characters.
pub struct AnswerView {
    pub status: u16,
    pub body: Seq<char>,
}

impl View for Answer {
    type V = AnswerView;

    open spec fn view(&self) -> AnswerView {
        AnswerView { status: self.status, body: self.body@ }
    }
}

/// The name of the slash command that asks for an endpoint.
pub open spec fn command_name(endpoint: Endpoint) -> Seq<char> {
    match endpoint {
        Endpoint::Json => "four_hours_melbourne"@,
        Endpoint::Brainfuck => "four_hours_melbourne_brainfuck"@,
    }
}

/// What the slash command that asks for an endpoint says of itself.
pub open spec fn command_description(endpoint: Endpoint) -> Seq<char> {
    match endpoint {
        Endpoint::Json => "get the time in four hours in melbourne."@,
        Endpoint::Brainfuck => "get the time in four hours in melbourne in brainfuck."@,
    }
}

/// The address at which an endpoint is asked.
pub open spec fn address(endpoint: Endpoint) -> Seq<char> {
    match endpoint {
        Endpoint::Json => "https://tigtbifhimva.sarda.dev/api/v1/time_in_4_hours"@,
        Endpoint::Brainfuck =>
            "https://tigtbifhimva.sarda.dev/api/v1/time_in_4_hours?return_type=brainfuck"@,
    }
}

/// The step that a command's name calls for.
pub open spec fn step_for(name: Seq<char>) -> StepView {
    if name == command_name(Endpoint::Json) {
        StepView::Fetch(Endpoint::Json)
    } else if name == command_name(Endpoint::Brainfuck) {
        StepView::Fetch(Endpoint::Brainfuck)
    } else {
        StepView::Reply("not implemented :("@)
    }
}

/// Whether an HTTP status is a success: 200 to 299.
pub open spec fn is_success(status: u16) -> bool {
    200 <= status <= 299
}

/// What is said once a fetch is over: the body as it came where the service
/// answered with success; that the server cannot be reached where it
/// answered with another status or the request did not get through.
pub open spec fn content_of(fetched: Option<AnswerView>) -> Seq<char> {
    match fetched {
        Some(answer) => if is_success(answer.status) {
            answer.body
        } else {
            "cannot reach the server"@
        },
        None => "cannot reach the server"@,
    }
}

/// The view of what a fetch came to.
pub open spec fn answer_view(fetched: Option<Answer>) -> Option<AnswerView> {
    match fetched {
        Some(answer) => Some(answer@),
        None => None,
    }
}

/// A body that came with a success status is said as it came, whatever it
/// holds and whichever endpoint it came from.
pub proof fn lemma_body_is_surfaced(answer: AnswerView)
    requires
        is_success(answer.status),
    ensures
        content_of(Some(answer)) == answer.body,
{
}

/// Whatever comes with another status, and a request that did not get
/// through, are said to be a server that cannot be reached.
pub proof fn lemma_no_success_is_unreachable(fetched: Option<AnswerView>)
    requires
        fetched matches Some(answer) ==> !is_success(answer.status),
    ensures
        content_of(fetched) == "cannot reach the server"@,
{
}

impl Endpoint {
    /// The name of the slash command that asks for this endpoint.
    pub fn name(self) -> (r: &'static str)
        ensures
            r@ == command_name(self),
    {
        match self {
            Endpoint::Json => "four_hours_melbourne",
            Endpoint::Brainfuck => "four_hours_melbourne_brainfuck",
        }
    }

    /// What the slash command says of itself.
    pub fn description(self) -> (r: &'static str)
        ensures
            r@ == command_description(self),
    {
        match self {
            Endpoint::Json => "get the time in four hours in melbourne.",
            Endpoint::Brainfuck => "get the time in four hours in melbourne in brainfuck.",
        }
    }

    /// Where the endpoint is asked.
    pub fn url(self) -> (r: &'static str)
        ensures
            r@ == address(self),
    {
        match self {
            Endpoint::Json => "https://tigtbifhimva.sarda.dev/api/v1/time_in_4_hours",
            Endpoint::Brainfuck =>
                "https://tigtbifhimva.sarda.dev/api/v1/time_in_4_hours?return_type=brainfuck",
        }
    }
}

/// The step that a slash command calls for.
pub fn on_command(name: &str) -> (r: Step)
    ensures
        r@ == step_for(name@),
{
    if same_text(name, Endpoint::Json.name()) {
        Step::Fetch(Endpoint::Json)
    } else if same_text(name, Endpoint::Brainfuck.name()) {
        Step::Fetch(Endpoint::Brainfuck)
    } else {
        Step::Reply("not implemented :(".to_owned())
    }
}

/// What to say once a fetch is over. `fetched` is what the service
/// answered, or `None` where the request did not get through.
pub fn on_fetched(fetched: Option<Answer>) -> (r: String)
    ensures
        r@ == content_of(answer_view(fetched)),
{
    match fetched {
        Some(answer) => {
            if 200 <= answer.status && answer.status <= 299 {
                answer.body
            } else {
                "cannot reach the server".to_owned()
            }
        },
        None => "cannot reach the server".to_owned(),
    }
}

} // verus!
