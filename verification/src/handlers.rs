use vstd::prelude::*;
use vstd::string::StringExecFns;
use crate::types::{GenerateResponse, ModelsResponse};

verus! {

/// The model used when neither the request nor the configuration names one.
pub open spec fn fallback_model() -> Seq<char> {
    "llama3.2"@
}

/// The model a request runs on: the one it names, else the configured
/// default, else `llama3.2`.
pub open spec fn chosen_model(requested: Option<Seq<char>>, configured: Option<Seq<char>>) -> Seq<char> {
    match requested {
        Some(m) => m,
        None => match configured {
            Some(d) => d,
            None => fallback_model(),
        },
    }
}

pub open spec fn opt_text(o: Option<String>) -> Option<Seq<char>> {
    match o {
        Some(s) => Some(s@),
        None => None,
    }
}

/// The model a request runs on.
pub fn resolve_model(requested: Option<String>, configured: Option<String>) -> (r: String)
    ensures
        r@ == chosen_model(opt_text(requested), opt_text(configured)),
{
    match requested {
        Some(m) => m,
        None => match configured {
            Some(d) => d,
            None => "llama3.2".to_owned(),
        },
    }
}

/// The body of an HTTP reply.
pub enum ReplyBody {
    Generated(GenerateResponse),
    Models(ModelsResponse),
    /// Sent as a JSON object whose `error` member holds the message.
    Failure(String),
}

/// An HTTP reply: status code and body.
pub struct HttpReply {
    pub status: u16,
    pub body: ReplyBody,
}

/// The reply to a synchronous generation: 200 with the text, or 500 with the
/// error message.
pub fn generate_http_reply(outcome: Result<String, String>) -> (r: HttpReply)
    ensures
        match outcome {
            Ok(t) => r.status == 200 && (r.body matches ReplyBody::Generated(g) && g.text@ == t@),
            Err(e) => r.status == 500 && (r.body matches ReplyBody::Failure(m) && m@ == e@),
        },
{
    match outcome {
        Ok(text) => HttpReply { status: 200, body: ReplyBody::Generated(GenerateResponse { text }) },
        Err(e) => HttpReply { status: 500, body: ReplyBody::Failure(e) },
    }
}

/// The reply to a model listing: 200 with the names, or 500 with the error
/// message.
pub fn models_http_reply(outcome: Result<Vec<String>, String>) -> (r: HttpReply)
    ensures
        match outcome {
            Ok(ms) => r.status == 200 && (r.body matches ReplyBody::Models(b) && b.models@ == ms@),
            Err(e) => r.status == 500 && (r.body matches ReplyBody::Failure(m) && m@ == e@),
        },
{
    match outcome {
        Ok(models) => HttpReply { status: 200, body: ReplyBody::Models(ModelsResponse { models }) },
        Err(e) => HttpReply { status: 500, body: ReplyBody::Failure(e) },
    }
}

/// Where a streaming session over a socket stands.
#[derive(Debug, Clone, Copy, PartialEq, Eq, Structural)]
pub enum SessionState {
    /// Waiting for the first message, which carries the request.
    AwaitingInit,
    /// The request text is being parsed.
    ParsingRequest,
    /// The server's stream is being opened.
    OpeningStream,
    /// Waiting for the next item of the stream.
    Streaming,
    /// A chunk is being sent to the client.
    Forwarding,
    /// The session is over.
    Closed,
}

/// The first message received on the socket.
pub enum Incoming {
    Text(String),
    /// A close, binary, ping or pong message.
    Other,
}

/// What happened since the last step.
pub enum SessionEvent {
    /// The first message, or none where the socket closed or failed first.
    FirstMessage(Option<Incoming>),
    /// The request parsed; it names `requested_model` (if any), and the
    /// configuration names `configured_model` (if any).
    RequestParsed { requested_model: Option<String>, configured_model: Option<String> },
    /// The request did not parse; the detail describes why.
    RequestInvalid(String),
    /// The server's stream is open.
    StreamOpened,
    /// The server's stream could not be opened; the detail describes why.
    StreamFailed(String),
    /// The next item of the stream: a chunk, an error detail, or the end.
    StreamItem(Option<Result<String, String>>),
    /// Whether the last forwarded chunk reached the client.
    SendDone(bool),
}

/// What to do next.
pub enum SessionAction {
    /// Parse the request text.
    ParseRequest(String),
    /// Open the server's stream for the named model.
    OpenStream(String),
    /// Send the frame to the client and report whether it went out.
    Forward(String),
    /// Send the frame to the client, whatever happens to it, and end.
    SendFinal(String),
    /// Wait for the next item of the stream.
    NextItem,
    /// End the session.
    Close,
}

/// A step: the state to move to and the action to take.
pub struct Transition {
    pub next: SessionState,
    pub action: SessionAction,
}

/// An event, its texts taken as sequences.
pub enum EventView {
    FirstMessage(Option<Option<Seq<char>>>),
    RequestParsed(Option<Seq<char>>, Option<Seq<char>>),
    RequestInvalid(Seq<char>),
    StreamOpened,
    StreamFailed(Seq<char>),
    StreamItem(Option<Result<Seq<char>, Seq<char>>>),
    SendDone(bool),
}

/// An action, its texts taken as sequences.
pub enum ActionView {
    ParseRequest(Seq<char>),
    OpenStream(Seq<char>),
    Forward(Seq<char>),
    SendFinal(Seq<char>),
    NextItem,
    Close,
}

impl View for SessionEvent {
    type V = EventView;

    open spec fn view(&self) -> EventView {
        match self {
            SessionEvent::FirstMessage(m) => EventView::FirstMessage(match m {
                Some(Incoming::Text(t)) => Some(Some(t@)),
                Some(Incoming::Other) => Some(None),
                None => None,
            }),
            SessionEvent::RequestParsed { requested_model, configured_model } =>
                EventView::RequestParsed(opt_text(*requested_model), opt_text(*configured_model)),
            SessionEvent::RequestInvalid(d) => EventView::RequestInvalid(d@),
            SessionEvent::StreamOpened => EventView::StreamOpened,
            SessionEvent::StreamFailed(d) => EventView::StreamFailed(d@),
            SessionEvent::StreamItem(i) => EventView::StreamItem(match i {
                Some(Ok(c)) => Some(Ok(c@)),
                Some(Err(d)) => Some(Err(d@)),
                None => None,
            }),
            SessionEvent::SendDone(b) => EventView::SendDone(*b),
        }
    }
}

impl View for SessionAction {
    type V = ActionView;

    open spec fn view(&self) -> ActionView {
        match self {
            SessionAction::ParseRequest(t) => ActionView::ParseRequest(t@),
            SessionAction::OpenStream(m) => ActionView::OpenStream(m@),
            SessionAction::Forward(t) => ActionView::Forward(t@),
            SessionAction::SendFinal(t) => ActionView::SendFinal(t@),
            SessionAction::NextItem => ActionView::NextItem,
            SessionAction::Close => ActionView::Close,
        }
    }
}

/// The prefix of every error frame sent to the client.
pub open spec fn error_tag() -> Seq<char> {
    "__ERROR__:"@
}

/// The session protocol. The first message must be text holding the request;
/// a parsed request opens the stream for the chosen model; each chunk is
/// forwarded unchanged, and the session ends when the client stops taking
/// them, when the stream ends, or after a single error frame. Any event out
/// of turn ends the session.
pub open spec fn transition(state: SessionState, ev: EventView) -> (SessionState, ActionView) {
    match (state, ev) {
        (SessionState::AwaitingInit, EventView::FirstMessage(Some(Some(t)))) =>
            (SessionState::ParsingRequest, ActionView::ParseRequest(t)),
        (SessionState::ParsingRequest, EventView::RequestParsed(req, conf)) =>
            (SessionState::OpeningStream, ActionView::OpenStream(chosen_model(req, conf))),
        (SessionState::ParsingRequest, EventView::RequestInvalid(d)) =>
            (SessionState::Closed, ActionView::SendFinal("__ERROR__: invalid init json: "@ + d)),
        (SessionState::OpeningStream, EventView::StreamOpened) =>
            (SessionState::Streaming, ActionView::NextItem),
        (SessionState::OpeningStream, EventView::StreamFailed(d)) =>
            (SessionState::Closed, ActionView::SendFinal("__ERROR__: failed to start ollama stream: "@ + d)),
        (SessionState::Streaming, EventView::StreamItem(Some(Ok(c)))) =>
            (SessionState::Forwarding, ActionView::Forward(c)),
        (SessionState::Streaming, EventView::StreamItem(Some(Err(d)))) =>
            (SessionState::Closed, ActionView::SendFinal("__ERROR__:"@ + d)),
        (SessionState::Forwarding, EventView::SendDone(true)) =>
            (SessionState::Streaming, ActionView::NextItem),
        _ => (SessionState::Closed, ActionView::Close),
    }
}

fn tagged(prefix: &str, detail: &str) -> (r: String)
    ensures
        r@ == prefix@ + detail@,
{
    let mut m = prefix.to_owned();
    m.append(detail);
    m
}

/// One step of a streaming session.
pub fn step(state: SessionState, event: SessionEvent) -> (r: Transition)
    ensures
        (r.next, r.action@) == transition(state, event@),
{
    match (state, event) {
        (SessionState::AwaitingInit, SessionEvent::FirstMessage(Some(Incoming::Text(t)))) =>
            Transition { next: SessionState::ParsingRequest, action: SessionAction::ParseRequest(t) },
        (SessionState::ParsingRequest, SessionEvent::RequestParsed { requested_model, configured_model }) =>
            Transition {
                next: SessionState::OpeningStream,
                action: SessionAction::OpenStream(resolve_model(requested_model, configured_model)),
            },
        (SessionState::ParsingRequest, SessionEvent::RequestInvalid(d)) =>
            Transition {
                next: SessionState::Closed,
                action: SessionAction::SendFinal(tagged("__ERROR__: invalid init json: ", d.as_str())),
            },
        (SessionState::OpeningStream, SessionEvent::StreamOpened) =>
            Transition { next: SessionState::Streaming, action: SessionAction::NextItem },
        (SessionState::OpeningStream, SessionEvent::StreamFailed(d)) =>
            Transition {
                next: SessionState::Closed,
                action: SessionAction::SendFinal(tagged("__ERROR__: failed to start ollama stream: ", d.as_str())),
            },
        (SessionState::Streaming, SessionEvent::StreamItem(Some(Ok(c)))) =>
            Transition { next: SessionState::Forwarding, action: SessionAction::Forward(c) },
        (SessionState::Streaming, SessionEvent::StreamItem(Some(Err(d)))) =>
            Transition {
                next: SessionState::Closed,
                action: SessionAction::SendFinal(tagged("__ERROR__:", d.as_str())),
            },
        (SessionState::Forwarding, SessionEvent::SendDone(true)) =>
            Transition { next: SessionState::Streaming, action: SessionAction::NextItem },
        _ => Transition { next: SessionState::Closed, action: SessionAction::Close },
    }
}

/// Once a session is over, every event leaves it over and does nothing.
pub proof fn closed_session_stays_closed(ev: EventView)
    ensures
        transition(SessionState::Closed, ev) == (SessionState::Closed, ActionView::Close),
{
}

/// A frame that is sent whatever happens to it is an error frame, tagged
/// `__ERROR__:`, and the session is over after it.
pub proof fn error_frames_end_session(state: SessionState, ev: EventView)
    ensures
        transition(state, ev).1 matches ActionView::SendFinal(t) ==> {
            &&& transition(state, ev).0 == SessionState::Closed
            &&& t.len() >= error_tag().len()
            &&& t.take(error_tag().len() as int) == error_tag()
        },
{
    reveal_strlit("__ERROR__:");
    reveal_strlit("__ERROR__: invalid init json: ");
    reveal_strlit("__ERROR__: failed to start ollama stream: ");
    if let ActionView::SendFinal(t) = transition(state, ev).1 {
        match (state, ev) {
            (SessionState::ParsingRequest, EventView::RequestInvalid(d)) => {
                assert(t.take(10) =~= error_tag());
            },
            (SessionState::OpeningStream, EventView::StreamFailed(d)) => {
                assert(t.take(10) =~= error_tag());
            },
            (SessionState::Streaming, EventView::StreamItem(Some(Err(d)))) => {
                assert(t.take(10) =~= error_tag());
            },
            _ => {},
        }
    }
}

/// Every chunk frame is a chunk of the server's stream, forwarded unchanged,
/// while streaming; once it went out the session waits for the next item,
/// and if it did not the session is over.
pub proof fn chunks_forwarded_unchanged(state: SessionState, ev: EventView)
    ensures
        transition(state, ev).1 matches ActionView::Forward(t) ==> {
            &&& state == SessionState::Streaming
            &&& ev == EventView::StreamItem(Some(Ok::<Seq<char>, Seq<char>>(t)))
            &&& transition(state, ev).0 == SessionState::Forwarding
        },
        transition(SessionState::Forwarding, EventView::SendDone(true))
            == (SessionState::Streaming, ActionView::NextItem),
        transition(SessionState::Forwarding, EventView::SendDone(false))
            == (SessionState::Closed, ActionView::Close),
{
}

/// A model named by the request is the one used, whatever the configuration.
pub proof fn requested_model_wins(m: Seq<char>, configured: Option<Seq<char>>)
    ensures
        chosen_model(Some(m), configured) == m,
{
}

/// The actions a session takes, from `state`, on the events in order.
pub open spec fn run_actions(state: SessionState, events: Seq<EventView>) -> Seq<ActionView>
    decreases events.len(),
{
    if events.len() == 0 {
        seq![]
    } else {
        let (next, action) = transition(state, events[0]);
        seq![action] + run_actions(next, events.drop_first())
    }
}

/// Whether an action ends the session.
pub open spec fn ends_session(a: ActionView) -> bool {
    a is SendFinal || a is Close
}

proof fn closed_run_does_nothing(events: Seq<EventView>)
    ensures
        forall|i: int| 0 <= i < run_actions(SessionState::Closed, events).len()
            ==> #[trigger] run_actions(SessionState::Closed, events)[i] == ActionView::Close,
        run_actions(SessionState::Closed, events).len() == events.len(),
    decreases events.len(),
{
    if events.len() > 0 {
        closed_run_does_nothing(events.drop_first());
        let rest = run_actions(SessionState::Closed, events.drop_first());
        assert forall|i: int| 0 <= i < (seq![ActionView::Close] + rest).len()
            implies #[trigger] (seq![ActionView::Close] + rest)[i] == ActionView::Close by {
            if i > 0 {
                assert((seq![ActionView::Close] + rest)[i] == rest[i - 1]);
            }
        }
    }
}

/// Over any sequence of events, once an action ends the session (an error
/// frame or a close), every later action is a close: nothing is sent after
/// an error frame, and at most one error frame is ever sent.
pub proof fn nothing_after_session_ends(state: SessionState, events: Seq<EventView>)
    ensures
        run_actions(state, events).len() == events.len(),
        forall|i: int, j: int| 0 <= i < j < events.len() && ends_session(#[trigger] run_actions(state, events)[i])
            ==> #[trigger] run_actions(state, events)[j] == ActionView::Close,
    decreases events.len(),
{
    if events.len() > 0 {
        let (next, action) = transition(state, events[0]);
        let rest = run_actions(next, events.drop_first());
        let all = run_actions(state, events);
        nothing_after_session_ends(next, events.drop_first());
        assert(all == seq![action] + rest);
        if ends_session(action) {
            error_frames_end_session(state, events[0]);
            assert(next == SessionState::Closed);
            closed_run_does_nothing(events.drop_first());
        }
        assert forall|i: int, j: int| 0 <= i < j < events.len() && ends_session(#[trigger] all[i])
            implies #[trigger] all[j] == ActionView::Close by {
            assert(all[j] == rest[j - 1]);
            if i > 0 {
                assert(all[i] == rest[i - 1]);
            }
        }
    }
}

/// A parsed request that names a model opens the stream for that model,
/// whatever the configuration says; one that names none opens it for the
/// configured model, else for `llama3.2`.
pub proof fn parsed_request_opens_its_model(m: Seq<char>, d: Seq<char>, configured: Option<Seq<char>>)
    ensures
        transition(SessionState::ParsingRequest, EventView::RequestParsed(Some(m), configured))
            == (SessionState::OpeningStream, ActionView::OpenStream(m)),
        transition(SessionState::ParsingRequest, EventView::RequestParsed(None, Some(d)))
            == (SessionState::OpeningStream, ActionView::OpenStream(d)),
        transition(SessionState::ParsingRequest, EventView::RequestParsed(None, None))
            == (SessionState::OpeningStream, ActionView::OpenStream("llama3.2"@)),
{
}

} // verus!
