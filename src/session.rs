use vstd::prelude::*;
use crate::error::SayError;
use crate::auth::{LINE_FEED, latin1_chars, lemma_first_line_of_token, is_trailing_blank, trim_end, is_header_char, bearer, token_of, is_header_text, token_from_output, authorization_value, is_valid_header_value};
use crate::request::{Request, synthesis_view, request_json, is_plain_json, plain_synthesis_json, lemma_plain_synthesis_json};
use crate::audio::{SynthesisResponse, base64_decoded};

verus! {

/// Where a run stands.
#[derive(Clone, Copy, Debug, PartialEq, Eq, Structural)]
pub enum Phase {
    /// Waiting for the credential tool's output.
    AwaitingToken,
    /// Waiting for the outcome of the synthesis request.
    AwaitingResponse,
    /// Waiting for the player to finish.
    AwaitingPlayback,
    /// The audio was played: the run ends with status 0.
    Succeeded,
    /// The run ended with `error`.
    Failed { error: SayError },
}

/// What the caller is to do next.
#[derive(Debug, Clone, PartialEq)]
pub enum Action {
    /// Run the credential tool and report its standard output.
    FetchToken,
    /// POST `body` as JSON to the synthesis endpoint, with `authorization`
    /// as the `Authorization` header.
    Send { authorization: String, body: String },
    /// Write `audio` to a temporary file and play it.
    Play { audio: Vec<u8> },
    /// Exit with status 0.
    Succeed,
    /// Report `error` and exit with its status.
    Fail { error: SayError },
}

pub enum ActionView {
    FetchToken,
    Send { authorization: Seq<char>, body: Seq<char> },
    Play { audio: Seq<u8> },
    Succeed,
    Fail { error: SayError },
}

impl View for Action {
    type V = ActionView;

    open spec fn view(&self) -> ActionView {
        match self {
            Action::FetchToken => ActionView::FetchToken,
            Action::Send { authorization, body } => ActionView::Send {
                authorization: authorization@,
                body: body@,
            },
            Action::Play { audio } => ActionView::Play { audio: audio@ },
            Action::Succeed => ActionView::Succeed,
            Action::Fail { error } => ActionView::Fail { error: *error },
        }
    }
}

/// What happened when the caller carried out an action.
#[derive(Debug, Clone, PartialEq)]
pub enum Event {
    /// The credential tool printed `stdout`.
    TokenPrinted { stdout: Vec<u8> },
    /// The request could not be sent.
    TransportFailed,
    /// The response body was read.
    ResponseReceived { response: SynthesisResponse },
    /// The response body was not a synthesis response.
    ResponseMalformed,
    /// The temporary audio file could not be written.
    AudioFileFailed,
    /// The player was started; whether it succeeded does not matter.
    PlayerFinished,
}

pub enum EventView {
    TokenPrinted { stdout: Seq<u8> },
    TransportFailed,
    ResponseReceived { audio_content: Seq<char> },
    ResponseMalformed,
    AudioFileFailed,
    PlayerFinished,
}

impl View for Event {
    type V = EventView;

    open spec fn view(&self) -> EventView {
        match self {
            Event::TokenPrinted { stdout } => EventView::TokenPrinted { stdout: stdout@ },
            Event::TransportFailed => EventView::TransportFailed,
            Event::ResponseReceived { response } => EventView::ResponseReceived {
                audio_content: response.audio_content@,
            },
            Event::ResponseMalformed => EventView::ResponseMalformed,
            Event::AudioFileFailed => EventView::AudioFileFailed,
            Event::PlayerFinished => EventView::PlayerFinished,
        }
    }
}

/// One run: the text to speak and how far the run has come.
pub struct Session {
    text: String,
    phase: Phase,
}

pub struct SessionView {
    pub text: Seq<char>,
    pub phase: Phase,
}

impl View for Session {
    type V = SessionView;

    closed spec fn view(&self) -> SessionView {
        SessionView { text: self.text@, phase: self.phase }
    }
}

pub open spec fn fail(error: SayError) -> (Phase, ActionView) {
    (Phase::Failed { error }, ActionView::Fail { error })
}

/// The exit status that an action reports, where it ends the run.
pub open spec fn exit_status(a: ActionView) -> Option<i32> {
    match a {
        ActionView::Succeed => Some(0i32),
        ActionView::Fail { error } => Some(error.spec_exit_code()),
        _ => None,
    }
}

/// How a run begins: an empty text is refused first, then a missing
/// credentials variable; otherwise the token is fetched.
pub open spec fn start_spec(text: Seq<char>, credentials_present: bool) -> (Phase, ActionView) {
    if text.len() == 0 {
        fail(SayError::EmptyText)
    } else if !credentials_present {
        fail(SayError::MissingCredentials)
    } else {
        (Phase::AwaitingToken, ActionView::FetchToken)
    }
}

/// With the credential tool's output: send the request for `text`, carrying
/// the token on the output's first line.
pub open spec fn token_spec(text: Seq<char>, stdout: Seq<u8>) -> (Phase, ActionView) {
    let authorization = bearer(token_of(stdout));
    if !is_header_text(authorization) {
        fail(SayError::InvalidToken)
    } else {
        (
            Phase::AwaitingResponse,
            ActionView::Send { authorization, body: request_json(synthesis_view(text)) },
        )
    }
}

/// With the decoded audio, or the failure to decode it: play it.
pub open spec fn playback_spec(decoded: Option<Seq<u8>>) -> (Phase, ActionView) {
    match decoded {
        Some(audio) => (Phase::AwaitingPlayback, ActionView::Play { audio }),
        None => fail(SayError::Decode),
    }
}

/// The phase and action that follow event `e` in session `s`. A finished
/// session repeats its last action; an event it was not waiting for ends it.
pub open spec fn next(s: SessionView, e: EventView) -> (Phase, ActionView) {
    match s.phase {
        Phase::Succeeded => (Phase::Succeeded, ActionView::Succeed),
        Phase::Failed { error } => fail(error),
        Phase::AwaitingToken => match e {
            EventView::TokenPrinted { stdout } => token_spec(s.text, stdout),
            _ => fail(SayError::UnexpectedEvent),
        },
        Phase::AwaitingResponse => match e {
            EventView::TransportFailed => fail(SayError::Transport),
            EventView::ResponseMalformed => fail(SayError::MalformedResponse),
            EventView::ResponseReceived { audio_content } => playback_spec(
                base64_decoded(audio_content),
            ),
            _ => fail(SayError::UnexpectedEvent),
        },
        Phase::AwaitingPlayback => match e {
            EventView::PlayerFinished => (Phase::Succeeded, ActionView::Succeed),
            EventView::AudioFileFailed => fail(SayError::AudioFile),
            _ => fail(SayError::UnexpectedEvent),
        },
    }
}

/// The actions that a session in state `s` hands out for `events`, one each.
pub open spec fn trace_from(s: SessionView, events: Seq<EventView>) -> Seq<ActionView>
    decreases events.len(),
{
    if events.len() == 0 {
        Seq::empty()
    } else {
        let (phase, a) = next(s, events[0]);
        seq![a] + trace_from(SessionView { text: s.text, phase }, events.drop_first())
    }
}

/// The actions of a whole run: the one that `start` hands out, then one for
/// each event.
pub open spec fn run(text: Seq<char>, credentials_present: bool, events: Seq<EventView>) -> Seq<
    ActionView,
> {
    let (phase, a) = start_spec(text, credentials_present);
    seq![a] + trace_from(SessionView { text, phase }, events)
}

fn fail_with(error: SayError) -> (r: (Phase, Action))
    ensures
        (r.0, r.1@) == fail(error),
{
    (Phase::Failed { error }, Action::Fail { error })
}

/// The phase and action that follow the decoding of the response's audio.
pub fn playback_of(decoded: Result<Vec<u8>, SayError>) -> (r: (Phase, Action))
    ensures
        (r.0, r.1@) == playback_spec(
            match decoded {
                Ok(audio) => Some(audio@),
                Err(_) => None,
            },
        ),
{
    match decoded {
        Ok(audio) => (Phase::AwaitingPlayback, Action::Play { audio }),
        Err(_) => fail_with(SayError::Decode),
    }
}

impl Session {
    /// Begins a run for `text`; `credentials_present` tells whether the
    /// variable naming the credentials file is set.
    pub fn start(text: String, credentials_present: bool) -> (r: (Session, Action))
        ensures
            r.0@.text == text@,
            (r.0@.phase, r.1@) == start_spec(text@, credentials_present),
    {
        let (phase, action) = if text.as_str().is_empty() {
            fail_with(SayError::EmptyText)
        } else if !credentials_present {
            fail_with(SayError::MissingCredentials)
        } else {
            (Phase::AwaitingToken, Action::FetchToken)
        };
        (Session { text, phase }, action)
    }

    /// The text this run speaks.
    pub fn text(&self) -> (r: &str)
        ensures
            r@ == self@.text,
    {
        self.text.as_str()
    }

    /// How far the run has come.
    pub fn phase(&self) -> (r: Phase)
        ensures
            r == self@.phase,
    {
        self.phase
    }

    fn on_token(&self, stdout: &[u8]) -> (r: (Phase, Action))
        ensures
            (r.0, r.1@) == token_spec(self@.text, stdout@),
    {
        let token = token_from_output(stdout);
        let authorization = authorization_value(token.as_str());
        if !is_valid_header_value(authorization.as_str()) {
            return fail_with(SayError::InvalidToken);
        }
        let request = Request::synthesis(self.text.clone());
        let body = request.to_json();
        (Phase::AwaitingResponse, Action::Send { authorization, body })
    }

    /// Takes in what happened and says what to do next.
    pub fn step(&mut self, event: Event) -> (a: Action)
        ensures
            final(self)@.text == old(self)@.text,
            (final(self)@.phase, a@) == next(old(self)@, event@),
    {
        let (phase, action) = match self.phase {
            Phase::Succeeded => (Phase::Succeeded, Action::Succeed),
            Phase::Failed { error } => fail_with(error),
            Phase::AwaitingToken => match event {
                Event::TokenPrinted { stdout } => self.on_token(stdout.as_slice()),
                _ => fail_with(SayError::UnexpectedEvent),
            },
            Phase::AwaitingResponse => match event {
                Event::TransportFailed => fail_with(SayError::Transport),
                Event::ResponseMalformed => fail_with(SayError::MalformedResponse),
                Event::ResponseReceived { response } => playback_of(response.audio_bytes()),
                _ => fail_with(SayError::UnexpectedEvent),
            },
            Phase::AwaitingPlayback => match event {
                Event::PlayerFinished => (Phase::Succeeded, Action::Succeed),
                Event::AudioFileFailed => fail_with(SayError::AudioFile),
                _ => fail_with(SayError::UnexpectedEvent),
            },
        };
        self.phase = phase;
        action
    }
}

impl Action {
    /// The exit status, where this action ends the run.
    pub fn exit_status(&self) -> (r: Option<i32>)
        ensures
            r == exit_status(self@),
    {
        match self {
            Action::Succeed => Some(0),
            Action::Fail { error } => Some(error.exit_code()),
            _ => None,
        }
    }
}

/// A session that has failed hands out the same failure for every event.
pub proof fn lemma_failed_stays_failed(s: SessionView, error: SayError, events: Seq<EventView>)
    requires
        s.phase == (Phase::Failed { error }),
    ensures
        trace_from(s, events).len() == events.len(),
        forall|i: int|
            0 <= i < events.len() ==> #[trigger] trace_from(s, events)[i] == (ActionView::Fail {
                error,
            }),
    decreases events.len(),
{
    if events.len() > 0 {
        let rest = events.drop_first();
        lemma_failed_stays_failed(s, error, rest);
        let t = trace_from(s, events);
        assert(t == seq![ActionView::Fail { error }] + trace_from(s, rest));
        assert forall|i: int| 0 <= i < events.len() implies #[trigger] t[i] == (ActionView::Fail {
            error,
        }) by {
            if i > 0 {
                assert(t[i] == trace_from(s, rest)[i - 1]);
            }
        }
    }
}

/// An empty text ends the run with status 1 whatever else happens: every
/// action of the run reports the empty text, and none sends a request.
pub proof fn law_empty_text_exits_with_one(
    text: Seq<char>,
    credentials_present: bool,
    events: Seq<EventView>,
)
    requires
        text.len() == 0,
    ensures
        forall|i: int|
            0 <= i < run(text, credentials_present, events).len() ==> {
                let a = #[trigger] run(text, credentials_present, events)[i];
                &&& a == (ActionView::Fail { error: SayError::EmptyText })
                &&& exit_status(a) == Some(1i32)
                &&& !(a is Send)
            },
{
    let s = SessionView { text, phase: Phase::Failed { error: SayError::EmptyText } };
    lemma_failed_stays_failed(s, SayError::EmptyText, events);
    let r = run(text, credentials_present, events);
    assert forall|i: int| 0 < i < r.len() implies r[i] == trace_from(s, events)[i - 1] by {}
}

/// A non-empty text without the credentials variable ends the run with
/// status 2 whatever else happens, and no request is sent.
pub proof fn law_missing_credentials_exits_with_two(text: Seq<char>, events: Seq<EventView>)
    requires
        text.len() > 0,
    ensures
        forall|i: int|
            0 <= i < run(text, false, events).len() ==> {
                let a = #[trigger] run(text, false, events)[i];
                &&& a == (ActionView::Fail { error: SayError::MissingCredentials })
                &&& exit_status(a) == Some(2i32)
                &&& !(a is Send)
            },
{
    let s = SessionView { text, phase: Phase::Failed { error: SayError::MissingCredentials } };
    lemma_failed_stays_failed(s, SayError::MissingCredentials, events);
    let r = run(text, false, events);
    assert forall|i: int| 0 < i < r.len() implies r[i] == trace_from(s, events)[i - 1] by {}
}

/// A transport failure of the request ends the run with status 3 whatever
/// follows, and the player is never asked to play.
pub proof fn law_transport_failure_exits_with_three(text: Seq<char>, events: Seq<EventView>)
    ensures
        ({
            let t = trace_from(
                SessionView { text, phase: Phase::AwaitingResponse },
                seq![EventView::TransportFailed] + events,
            );
            &&& t.len() == events.len() + 1
            &&& forall|i: int|
                0 <= i < t.len() ==> {
                    &&& #[trigger] t[i] == (ActionView::Fail { error: SayError::Transport })
                    &&& exit_status(t[i]) == Some(3i32)
                    &&& !(t[i] is Play)
                }
        }),
{
    let all = seq![EventView::TransportFailed] + events;
    let s0 = SessionView { text, phase: Phase::AwaitingResponse };
    let s1 = SessionView { text, phase: Phase::Failed { error: SayError::Transport } };
    assert(all.drop_first() =~= events);
    lemma_failed_stays_failed(s1, SayError::Transport, events);
    let t = trace_from(s0, all);
    assert(t == seq![ActionView::Fail { error: SayError::Transport }] + trace_from(s1, events));
    assert forall|i: int| 0 < i < t.len() implies t[i] == trace_from(s1, events)[i - 1] by {}
}

/// When the credential tool prints `token` alone, or followed by blanks
/// and a line feed (a carriage return, a space, ...) and anything after,
/// the request carries `Bearer ` and exactly that token: no line break and
/// no blank at its end.
pub proof fn law_authorization_is_bearer_token(
    text: Seq<char>,
    token: Seq<u8>,
    blanks: Seq<u8>,
    rest: Seq<u8>,
    with_line_feed: bool,
)
    requires
        token.len() > 0,
        forall|i: int| 0 <= i < token.len() ==> 33 <= #[trigger] token[i] <= 126,
        forall|i: int| 0 <= i < blanks.len() ==> is_trailing_blank(#[trigger] blanks[i]),
    ensures
        ({
            let stdout = if with_line_feed {
                token + blanks + seq![LINE_FEED] + rest
            } else {
                token
            };
            let authorization = "Bearer "@ + latin1_chars(token);
            &&& token_spec(text, stdout).1 == (ActionView::Send {
                authorization,
                body: request_json(synthesis_view(text)),
            })
            &&& !authorization.contains('\n')
            &&& !authorization.contains('\r')
            &&& authorization.last() != ' '
            &&& authorization.last() != '\t'
        }),
{
    reveal_strlit("Bearer ");
    let line = token + blanks;
    assert(!line.contains(LINE_FEED)) by {
        assert forall|i: int| 0 <= i < line.len() implies line[i] != LINE_FEED by {
            if i >= token.len() {
                assert(line[i] == blanks[i - token.len()]);
            }
        }
    }
    assert(!token.contains(LINE_FEED)) by {
        assert forall|i: int| 0 <= i < token.len() implies token[i] != LINE_FEED by {
            assert(33 <= token[i]);
        }
    }
    lemma_first_line_of_token(line, rest);
    lemma_first_line_of_token(token, rest);
    assert(token + blanks + seq![LINE_FEED] + rest == line + seq![LINE_FEED] + rest);
    lemma_trim_blanks(token, blanks);
    assert(trim_end(token) == token) by {
        lemma_trim_blanks(token, Seq::empty());
        assert(token + Seq::<u8>::empty() =~= token);
    }
    let authorization = "Bearer "@ + latin1_chars(token);
    assert forall|i: int| 0 <= i < authorization.len() implies is_header_char(
        #[trigger] authorization[i],
    ) && authorization[i] != '\n' && authorization[i] != '\r' by {
        if i >= 7 {
            assert(authorization[i] == token[i - 7] as char);
        }
    }
    assert(authorization.last() == token.last() as char);
}

/// Trailing blanks after a token that does not end in one are all removed.
proof fn lemma_trim_blanks(token: Seq<u8>, blanks: Seq<u8>)
    requires
        token.len() > 0,
        !is_trailing_blank(token.last()),
        forall|i: int| 0 <= i < blanks.len() ==> is_trailing_blank(#[trigger] blanks[i]),
    ensures
        trim_end(token + blanks) == token,
    decreases blanks.len(),
{
    if blanks.len() > 0 {
        let shorter = blanks.drop_last();
        assert((token + blanks).drop_last() =~= token + shorter);
        assert(is_trailing_blank(blanks[blanks.len() - 1]));
        lemma_trim_blanks(token, shorter);
    } else {
        assert(token + blanks =~= token);
    }
}

/// For a text that needs no JSON escape and a token the service accepts,
/// the request sent is exactly the plain document with that text.
pub proof fn law_plain_text_request_body(text: Seq<char>, stdout: Seq<u8>)
    requires
        is_plain_json(text),
        is_header_text(bearer(token_of(stdout))),
    ensures
        token_spec(text, stdout).1 == (ActionView::Send {
            authorization: bearer(token_of(stdout)),
            body: plain_synthesis_json(text),
        }),
{
    lemma_plain_synthesis_json(text);
}

} // verus!
