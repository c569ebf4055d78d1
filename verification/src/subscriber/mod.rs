//! Subscribing over a socket: the handshake from an unopened socket to
//! confirmed subscriptions, as a machine that is told what happened and says
//! what to do next.

use crate::error::SocketError;
use crate::exchange::Connector;
use crate::streams::builder::{LoginAnswer, Signer};
use crate::subscriber::mapper::{identified, requested, SubscriptionMapper, WebSocketSubMapper};
use crate::subscriber::validator::{
    close_text, timeout_text, Response, SubscriptionValidator, Judgment, WebSocketSubValidator,
};
use crate::subscription::{map_of, InstrumentMap, Subscription};
use crate::web::{are_texts, url_parts, RequestUrl, WsMessage};
use crate::Identifier;
use vstd::prelude::*;
use vstd::string::*;

pub mod mapper;
pub mod validator;

verus! {

/// How far a handshake has come.
#[derive(Clone, Copy, Debug, PartialEq, Eq, Structural)]
pub enum Phase {
    /// No socket is open.
    Disconnected,
    /// The socket is open and a login comes first.
    Connected,
    /// The login frame is on its way.
    LoginSent,
    /// The login frame is sent and its answer is awaited.
    LoginAwaited,
    /// So many requests to subscribe are sent and the next is on its way.
    Sending { sent: usize },
    /// Every request is sent and so many confirmations have come.
    Requested { confirmed: usize },
    /// Every subscription is confirmed.
    Validated,
    /// The handshake failed.
    Failed,
}

/// What happened on the socket since the last action.
#[derive(Debug)]
pub enum Event {
    /// The socket opened.
    Connected,
    /// The clock was read: seconds since the Unix epoch.
    Clock(i64),
    /// The frame was sent.
    Sent,
    /// The wait for the answer to the login ended, with this answer.
    LoginAnswer(LoginAnswer),
    /// The wait for a confirmation ended.
    Response(Response),
    /// Opening the socket or sending a frame failed.
    Failed(SocketError),
}

/// What to do next on the socket.
#[derive(Debug)]
pub enum Action {
    /// Open the socket at the handshake's address.
    Connect,
    /// Read the clock.
    ReadClock,
    /// Send this login frame.
    SendLogin(String),
    /// Wait for one frame, the answer to the login.
    AwaitLogin,
    /// Send the request at this place among the handshake's requests.
    Send(usize),
    /// Wait for a confirmation, no longer than the handshake's timeout.
    AwaitResponse,
    /// The subscriptions stand: hand out the socket and the instruments.
    Finish,
    /// Give up and discard the socket.
    Fail(SocketError),
}

/// What subscribing a batch over one socket takes: where to connect, whose
/// login opens the exchange of frames if any does, the requests to send in
/// their order, the instruments under the identifiers that messages will
/// carry, and how many confirmations to wait for and how long for each, in
/// milliseconds.
#[derive(Debug)]
pub struct Handshake {
    pub url: RequestUrl,
    pub signer: Option<Signer>,
    pub requests: Vec<WsMessage>,
    pub instrument_map: InstrumentMap,
    pub expected: usize,
    pub timeout: u64,
}

/// The text of the error for an event that cannot follow the phase in which
/// it is reported.
pub open spec fn out_of_order() -> Seq<char> {
    "handshake out of order"@
}

/// True when the action is to give up for a failure to subscribe with the
/// given reason.
pub open spec fn gives_up(action: Action, reason: Seq<char>) -> bool {
    action matches Action::Fail(error) && error.is_subscribe(reason)
}

impl Handshake {
    /// Where the handshake stands once the socket is open and the login, if
    /// any, is done: at the first request, or waiting for confirmations where
    /// there is nothing to send, or at its end where nothing is awaited
    /// either.
    pub open spec fn after_login(&self) -> Phase {
        if self.requests@.len() > 0 {
            Phase::Sending { sent: 0 }
        } else {
            self.after_requests()
        }
    }

    /// Where the handshake stands once every request is sent.
    pub open spec fn after_requests(&self) -> Phase {
        if self.expected == 0 {
            Phase::Validated
        } else {
            Phase::Requested { confirmed: 0 }
        }
    }

    /// The action that leads on from a phase that was entered without a
    /// failure.
    pub open spec fn leads_on(&self, phase: Phase, action: Action) -> bool {
        match phase {
            Phase::Disconnected => action is Connect,
            Phase::Connected => action is ReadClock,
            Phase::LoginSent => action matches Action::SendLogin(_),
            Phase::LoginAwaited => action is AwaitLogin,
            Phase::Sending { sent } => action == Action::Send(sent),
            Phase::Requested { confirmed } => action is AwaitResponse,
            Phase::Validated => action is Finish,
            Phase::Failed => action matches Action::Fail(_),
        }
    }

    /// The phase that follows a phase when an event is reported in it.
    pub open spec fn next(&self, phase: Phase, event: Event) -> Phase {
        match (phase, event) {
            (Phase::Validated, _) => Phase::Validated,
            (Phase::Failed, _) => Phase::Failed,
            (_, Event::Failed(_)) => Phase::Failed,
            (Phase::Disconnected, Event::Connected) => if self.signer.is_some() {
                Phase::Connected
            } else {
                self.after_login()
            },
            (Phase::Connected, Event::Clock(timestamp)) => match self.signer {
                Some(signer) => if signer.login_text(timestamp as int).is_some() {
                    Phase::LoginSent
                } else {
                    Phase::Failed
                },
                None => Phase::Failed,
            },
            (Phase::LoginSent, Event::Sent) => Phase::LoginAwaited,
            (Phase::LoginAwaited, Event::LoginAnswer(answer)) => if answer is Acknowledged {
                self.after_login()
            } else {
                Phase::Failed
            },
            (Phase::Sending { sent }, Event::Sent) => if sent + 1 < self.requests@.len() {
                Phase::Sending { sent: (sent + 1) as usize }
            } else if sent < self.requests@.len() {
                self.after_requests()
            } else {
                Phase::Failed
            },
            (Phase::Requested { confirmed }, Event::Response(response)) => if confirmed
                < self.expected {
                match response {
                    Response::Confirmed => if confirmed + 1 == self.expected {
                        Phase::Validated
                    } else {
                        Phase::Requested { confirmed: (confirmed + 1) as usize }
                    },
                    Response::Unreadable | Response::Other => Phase::Requested { confirmed },
                    _ => Phase::Failed,
                }
            } else {
                Phase::Failed
            },
            _ => Phase::Failed,
        }
    }

    /// The error with which the handshake gives up when an event leads to
    /// failure: the error that was reported, the error of the login or of the
    /// validation, or the error that says that the event came out of order.
    pub open spec fn gives_up_rightly(&self, phase: Phase, event: Event, action: Action) -> bool {
        match (phase, event) {
            (Phase::Validated, _) | (Phase::Failed, _) => gives_up(action, out_of_order()),
            (_, Event::Failed(error)) => action == Action::Fail(error),
            (Phase::Connected, Event::Clock(timestamp)) => match self.signer {
                Some(signer) => if url_parts(crate::streams::builder::LOGIN_URL@).is_none() {
                    action matches Action::Fail(SocketError::UrlParse(_))
                } else {
                    gives_up(action, "login request is too long to sign"@)
                },
                None => gives_up(action, out_of_order()),
            },
            (Phase::LoginAwaited, Event::LoginAnswer(answer)) => match answer {
                LoginAnswer::Acknowledged => false,
                LoginAnswer::Refused(error) => action == Action::Fail(error),
                LoginAnswer::Broken(error) => action == Action::Fail(error),
                LoginAnswer::Nothing => gives_up(action, "WebSocket stream okx login failed"@),
            },
            (Phase::Requested { confirmed }, Event::Response(response)) => if confirmed
                < self.expected {
                match response {
                    Response::Timeout => gives_up(action, timeout_text(self.timeout as nat)),
                    Response::Closed => gives_up(
                        action,
                        "WebSocket stream terminated unexpectedly"@,
                    ),
                    Response::Refused(error) => action == Action::Fail(error),
                    Response::Terminated(frame) => gives_up(action, close_text(frame@)),
                    _ => false,
                }
            } else {
                gives_up(action, out_of_order())
            },
            _ => gives_up(action, out_of_order()),
        }
    }

    /// Where a handshake begins: no socket is open, and the first thing to do
    /// is to open one.
    pub fn start(&self) -> (begun: (Phase, Action))
        ensures
            begun.0 == Phase::Disconnected,
            begun.1 is Connect,
    {
        (Phase::Disconnected, Action::Connect)
    }

    fn enter_requests(&self) -> (entered: (Phase, Action))
        ensures
            entered.0 == self.after_requests(),
            entered.0 != Phase::Failed,
            self.leads_on(entered.0, entered.1),
    {
        if self.expected == 0 {
            (Phase::Validated, Action::Finish)
        } else {
            (Phase::Requested { confirmed: 0 }, Action::AwaitResponse)
        }
    }

    fn enter_login(&self) -> (entered: (Phase, Action))
        ensures
            entered.0 == self.after_login(),
            entered.0 != Phase::Failed,
            self.leads_on(entered.0, entered.1),
    {
        if self.requests.len() > 0 {
            (Phase::Sending { sent: 0 }, Action::Send(0))
        } else {
            self.enter_requests()
        }
    }

    fn disorder(&self) -> (failed: (Phase, Action))
        ensures
            failed.0 == Phase::Failed,
            gives_up(failed.1, out_of_order()),
    {
        (
            Phase::Failed,
            Action::Fail(SocketError::Subscribe(String::from_str("handshake out of order"))),
        )
    }

    /// Takes the handshake one step on: told the phase it is in and what
    /// happened since the last action, says the phase that follows and what
    /// to do next. The phase that follows is [`Handshake::next`]. Where that is
    /// no failure, the action is the one that leads on from it; where it is a
    /// failure, the action is to give up, with the error that the event
    /// brought or that tells why. A login that the exchange did not
    /// acknowledge is such a failure. In the two last phases, those of success and
    /// of failure, every event is out of order and leaves the phase as it is.
    pub fn step(&self, phase: Phase, event: Event) -> (stepped: (Phase, Action))
        ensures
            stepped.0 == self.next(phase, event),
            stepped.0 != Phase::Failed && phase != Phase::Validated ==> self.leads_on(
                stepped.0,
                stepped.1,
            ),
            stepped.0 == Phase::Failed || phase == Phase::Validated ==> self.gives_up_rightly(
                phase,
                event,
                stepped.1,
            ),
            stepped.0 == Phase::LoginSent ==> (self.signer matches Some(signer) && event matches Event::Clock(
                timestamp,
            ) && stepped.1 matches Action::SendLogin(frame) && signer.login_text(timestamp as int)
                == Some(frame@)),
    {
        match phase {
            Phase::Validated => {
                let failed = self.disorder();
                return (Phase::Validated, failed.1);
            },
            Phase::Failed => {
                return self.disorder();
            },
            _ => {},
        }
        match event {
            Event::Failed(error) => (Phase::Failed, Action::Fail(error)),
            Event::Connected => match phase {
                Phase::Disconnected => {
                    if self.signer.is_some() {
                        (Phase::Connected, Action::ReadClock)
                    } else {
                        self.enter_login()
                    }
                },
                _ => self.disorder(),
            },
            Event::Clock(timestamp) => match phase {
                Phase::Connected => match &self.signer {
                    Some(signer) => match signer.login_request(timestamp) {
                        Ok(frame) => (Phase::LoginSent, Action::SendLogin(frame)),
                        Err(error) => (Phase::Failed, Action::Fail(error)),
                    },
                    None => self.disorder(),
                },
                _ => self.disorder(),
            },
            Event::Sent => match phase {
                Phase::LoginSent => (Phase::LoginAwaited, Action::AwaitLogin),
                Phase::Sending { sent } => {
                    if sent < self.requests.len() {
                        if sent + 1 < self.requests.len() {
                            (Phase::Sending { sent: sent + 1 }, Action::Send(sent + 1))
                        } else {
                            self.enter_requests()
                        }
                    } else {
                        self.disorder()
                    }
                },
                _ => self.disorder(),
            },
            Event::LoginAnswer(answer) => match phase {
                Phase::LoginAwaited => match Signer::login_response(answer) {
                    Ok(_) => self.enter_login(),
                    Err(error) => (Phase::Failed, Action::Fail(error)),
                },
                _ => self.disorder(),
            },
            Event::Response(response) => match phase {
                Phase::Requested { confirmed } => {
                    if confirmed < self.expected {
                        match WebSocketSubValidator::validate(
                            self.expected,
                            confirmed,
                            self.timeout,
                            response,
                        ) {
                            Judgment::Wait { confirmed } => (
                                Phase::Requested { confirmed },
                                Action::AwaitResponse,
                            ),
                            Judgment::Valid => (Phase::Validated, Action::Finish),
                            Judgment::Invalid(error) => (Phase::Failed, Action::Fail(error)),
                        }
                    } else {
                        self.disorder()
                    }
                },
                _ => self.disorder(),
            },
        }
    }
}

/// What a subscriber makes of a batch of subscriptions: the handshake for
/// it, or the error of an address that did not parse.
pub open spec fn plans<Exchange, Kind>(
    planned: Result<Handshake, SocketError>,
    login: bool,
    signer: Option<Signer>,
    subscriptions: Seq<Subscription<Exchange, Kind>>,
) -> bool where
    Exchange: Connector,
    Subscription<Exchange, Kind>: Identifier<Exchange::Channel> + Identifier<Exchange::Market>,
 {
    let address = if login && signer.is_some() {
        Exchange::private_address()
    } else {
        Exchange::public_address()
    };
    match url_parts(address) {
        Some(parts) => planned matches Ok(handshake) && handshake.url.text() == address
            && handshake.url.path() == parts.0 && handshake.url.query() == parts.1
            && handshake.signer == (if login {
            signer
        } else {
            None
        }) && are_texts(handshake.requests@, Exchange::frames(requested(subscriptions)))
            && handshake.instrument_map@ == map_of(identified(subscriptions))
            && handshake.expected == Exchange::confirmations(
            map_of(identified(subscriptions)).dom().len(),
        ) && handshake.timeout == crate::exchange::DEFAULT_SUBSCRIPTION_TIMEOUT,
        None => planned matches Err(SocketError::UrlParse(_)),
    }
}

/// How to subscribe to feeds of an exchange over a socket.
pub trait Subscriber {
    /// True when the handshake starts with a login wherever credentials are
    /// at hand, and then goes to the exchange's private address.
    spec fn with_login() -> bool;

    /// Plans the handshake for a batch of subscriptions: the public address,
    /// or the private one where a login opens the handshake; the requests for
    /// the subscriptions in their order; the instrument of each subscription
    /// under its identifier; and as many confirmations as the exchange sends
    /// for them.
    fn subscribe<Exchange, Kind>(
        signer: &Option<Signer>,
        subscriptions: &[Subscription<Exchange, Kind>],
    ) -> (planned: Result<Handshake, SocketError>) where
        Exchange: Connector,
        Subscription<Exchange, Kind>: Identifier<Exchange::Channel> + Identifier<Exchange::Market>,

        ensures
            plans(planned, Self::with_login(), *signer, subscriptions@),
    ;
}

fn plan<Exchange, Kind>(
    url: RequestUrl,
    signer: Option<Signer>,
    subscriptions: &[Subscription<Exchange, Kind>],
) -> (handshake: Handshake) where
    Exchange: Connector,
    Subscription<Exchange, Kind>: Identifier<Exchange::Channel> + Identifier<Exchange::Market>,

    ensures
        handshake.url == url,
        handshake.signer == signer,
        are_texts(handshake.requests@, Exchange::frames(requested(subscriptions@))),
        handshake.instrument_map@ == map_of(identified(subscriptions@)),
        handshake.expected == Exchange::confirmations(
            map_of(identified(subscriptions@)).dom().len(),
        ),
        handshake.timeout == crate::exchange::DEFAULT_SUBSCRIPTION_TIMEOUT,
{
    let meta = WebSocketSubMapper::map::<Exchange, Kind>(subscriptions);
    let expected = Exchange::expected_responses(&meta.instrument_map);
    let timeout = Exchange::subscription_timeout();
    Handshake {
        url,
        signer,
        requests: meta.subscriptions,
        instrument_map: meta.instrument_map,
        expected,
        timeout,
    }
}

/// The subscriber for exchanges whose feeds need no login.
#[derive(Clone, Copy, Debug, PartialEq, Eq, Structural)]
pub struct WebSocketSubscriber;

impl Subscriber for WebSocketSubscriber {
    open spec fn with_login() -> bool {
        false
    }

    fn subscribe<Exchange, Kind>(
        signer: &Option<Signer>,
        subscriptions: &[Subscription<Exchange, Kind>],
    ) -> (planned: Result<Handshake, SocketError>) where
        Exchange: Connector,
        Subscription<Exchange, Kind>: Identifier<Exchange::Channel> + Identifier<Exchange::Market>,
     {
        let url = match Exchange::url() {
            Ok(url) => url,
            Err(error) => {
                return Err(error);
            },
        };
        Ok(plan::<Exchange, Kind>(url, None, subscriptions))
    }
}

/// The subscriber for exchanges with private feeds: with credentials at
/// hand it connects to the private address and logs in first.
#[derive(Clone, Copy, Debug, PartialEq, Eq, Structural)]
pub struct WebSocketSubscriberWithLogin;

impl Subscriber for WebSocketSubscriberWithLogin {
    open spec fn with_login() -> bool {
        true
    }

    fn subscribe<Exchange, Kind>(
        signer: &Option<Signer>,
        subscriptions: &[Subscription<Exchange, Kind>],
    ) -> (planned: Result<Handshake, SocketError>) where
        Exchange: Connector,
        Subscription<Exchange, Kind>: Identifier<Exchange::Channel> + Identifier<Exchange::Market>,
     {
        match signer {
            Some(signer) => {
                let url = match Exchange::private_url() {
                    Ok(url) => url,
                    Err(error) => {
                        return Err(error);
                    },
                };
                Ok(plan::<Exchange, Kind>(url, Some(signer.clone()), subscriptions))
            },
            None => {
                let url = match Exchange::url() {
                    Ok(url) => url,
                    Err(error) => {
                        return Err(error);
                    },
                };
                Ok(plan::<Exchange, Kind>(url, None, subscriptions))
            },
        }
    }
}

/// Plans the handshake for a batch of subscriptions as the exchange wants
/// it: with a login first where the exchange has one, else without.
pub fn subscribe<Exchange, Kind>(
    signer: &Option<Signer>,
    subscriptions: &[Subscription<Exchange, Kind>],
) -> (planned: Result<Handshake, SocketError>) where
    Exchange: Connector,
    Subscription<Exchange, Kind>: Identifier<Exchange::Channel> + Identifier<Exchange::Market>,

    ensures
        plans(planned, Exchange::has_login(), *signer, subscriptions@),
{
    if Exchange::login() {
        WebSocketSubscriberWithLogin::subscribe::<Exchange, Kind>(signer, subscriptions)
    } else {
        WebSocketSubscriber::subscribe::<Exchange, Kind>(signer, subscriptions)
    }
}

/// A handshake that has ended stays as it ended: no event leads out of
/// success or out of failure.
pub proof fn law_handshake_ends(handshake: Handshake, event: Event)
    ensures
        handshake.next(Phase::Validated, event) == Phase::Validated,
        handshake.next(Phase::Failed, event) == Phase::Failed,
{
}

/// There is no partial success: a handshake succeeds only with the
/// confirmation that was the last one awaited, or, where no confirmation is
/// awaited at all, when the last frame of the handshake is sent or answered.
pub proof fn law_success_needs_every_confirmation(handshake: Handshake, phase: Phase, event: Event)
    requires
        phase != Phase::Validated,
        handshake.next(phase, event) == Phase::Validated,
    ensures
        handshake.expected == 0 || (phase matches Phase::Requested { confirmed } && confirmed + 1
            == handshake.expected && event matches Event::Response(Response::Confirmed)),
        handshake.expected == 0 ==> (phase is Disconnected || phase is LoginAwaited
            || phase is Sending),
{
}

/// Any failure fails the whole handshake: a failure of the socket in any
/// phase; while the answer to the login is awaited, every answer but an
/// acknowledgement; and, while confirmations are awaited, a refusal, a
/// timeout, the end of the stream and a closing frame.
pub proof fn law_failure_fails_the_batch(handshake: Handshake, phase: Phase, event: Event)
    requires
        phase != Phase::Validated,
        event is Failed || (phase is LoginAwaited && (event matches Event::LoginAnswer(answer)
            && !(answer is Acknowledged))) || (phase is Requested && (
        event matches Event::Response(response) && (response is Refused || response is Timeout
            || response is Closed || response is Terminated))),
    ensures
        handshake.next(phase, event) == Phase::Failed,
{
}

/// A failed login is fatal: where the exchange refuses the login, where the
/// socket fails and where the stream ends while the answer is awaited, the
/// handshake fails, and it gives up with the error that the answer brought.
pub proof fn law_failed_login_is_fatal(handshake: Handshake, answer: LoginAnswer, action: Action)
    requires
        !(answer is Acknowledged),
        handshake.gives_up_rightly(Phase::LoginAwaited, Event::LoginAnswer(answer), action),
    ensures
        handshake.next(Phase::LoginAwaited, Event::LoginAnswer(answer)) == Phase::Failed,
        action is Fail,
        answer matches LoginAnswer::Refused(error) ==> action == Action::Fail(error),
        answer matches LoginAnswer::Broken(error) ==> action == Action::Fail(error),
{
}

/// True when one of the events is an acknowledgement of the login.
pub open spec fn acknowledged(events: Seq<Event>) -> bool
    decreases events.len(),
{
    events.len() > 0 && (events[0] matches Event::LoginAnswer(LoginAnswer::Acknowledged)
        || acknowledged(events.drop_first()))
}

proof fn lemma_success_takes_the_login(handshake: Handshake, phase: Phase, events: Seq<Event>)
    requires
        handshake.signer.is_some(),
        phase is Disconnected || phase is Connected || phase is LoginSent || phase is LoginAwaited,
        run(handshake, phase, events) == Phase::Validated,
    ensures
        acknowledged(events),
    decreases events.len(),
{
    if events.len() > 0 {
        let next = handshake.next(phase, events[0]);
        if next == Phase::Failed {
            lemma_failed_for_good(handshake, events.drop_first());
        } else if !(events[0] matches Event::LoginAnswer(LoginAnswer::Acknowledged)) {
            lemma_success_takes_the_login(handshake, next, events.drop_first());
        }
    }
}

/// However a handshake with credentials runs, it succeeds only after the
/// exchange has acknowledged the login: a run of events that leads from the
/// start to success holds an acknowledgement.
pub proof fn law_success_takes_an_acknowledged_login(handshake: Handshake, events: Seq<Event>)
    requires
        handshake.signer.is_some(),
        run(handshake, Phase::Disconnected, events) == Phase::Validated,
    ensures
        acknowledged(events),
{
    lemma_success_takes_the_login(handshake, Phase::Disconnected, events);
}

/// With credentials the login comes first: no request to subscribe is sent
/// and no confirmation is awaited before the login frame was sent and
/// answered.
pub proof fn law_login_comes_first(handshake: Handshake, phase: Phase, event: Event)
    requires
        handshake.signer.is_some(),
        phase is Disconnected || phase is Connected || phase is LoginSent,
    ensures
        !(handshake.next(phase, event) is Sending),
        !(handshake.next(phase, event) is Requested),
        !(handshake.next(phase, event) is Validated),
{
}

/// Without credentials there is no login: once the socket is open the
/// handshake goes on with the requests.
pub proof fn law_no_login_without_credentials(handshake: Handshake)
    requires
        handshake.signer.is_none(),
    ensures
        handshake.next(Phase::Disconnected, Event::Connected) == handshake.after_login(),
        !(handshake.after_login() is Connected),
        !(handshake.after_login() is LoginSent),
        !(handshake.after_login() is LoginAwaited),
{
}

/// The requests are sent one after the other in their order: while requests
/// are being sent, each frame that is sent leads to the next request or, after
/// the last, to the wait for confirmations.
pub proof fn law_requests_go_out_in_order(handshake: Handshake, sent: usize)
    requires
        sent < handshake.requests@.len(),
    ensures
        sent + 1 < handshake.requests@.len() ==> handshake.next(
            Phase::Sending { sent },
            Event::Sent,
        ) == (Phase::Sending { sent: (sent + 1) as usize }),
        sent + 1 == handshake.requests@.len() ==> handshake.next(
            Phase::Sending { sent },
            Event::Sent,
        ) == handshake.after_requests(),
{
}

/// The phase of a handshake after a run of events, reported one after the
/// other from the given phase on.
pub open spec fn run(handshake: Handshake, phase: Phase, events: Seq<Event>) -> Phase
    decreases events.len(),
{
    if events.len() == 0 {
        phase
    } else {
        run(handshake, handshake.next(phase, events[0]), events.drop_first())
    }
}

/// How many of the events are confirmations of a subscription.
pub open spec fn confirmations(events: Seq<Event>) -> nat
    decreases events.len(),
{
    if events.len() == 0 {
        0
    } else {
        confirmations(events.drop_first()) + if events[0] matches Event::Response(
            Response::Confirmed,
        ) {
            1nat
        } else {
            0nat
        }
    }
}

/// How many confirmations a handshake in the given phase still lacks.
pub open spec fn lacking(handshake: Handshake, phase: Phase) -> nat {
    match phase {
        Phase::Validated => 0,
        Phase::Requested { confirmed } => if confirmed < handshake.expected {
            (handshake.expected - confirmed) as nat
        } else {
            0
        },
        _ => handshake.expected as nat,
    }
}

proof fn lemma_failed_for_good(handshake: Handshake, events: Seq<Event>)
    ensures
        run(handshake, Phase::Failed, events) == Phase::Failed,
    decreases events.len(),
{
    if events.len() > 0 {
        lemma_failed_for_good(handshake, events.drop_first());
    }
}

proof fn lemma_success_takes_what_is_lacking(handshake: Handshake, phase: Phase, events: Seq<Event>)
    requires
        run(handshake, phase, events) == Phase::Validated,
    ensures
        confirmations(events) >= lacking(handshake, phase),
    decreases events.len(),
{
    if events.len() > 0 {
        let next = handshake.next(phase, events[0]);
        if next == Phase::Failed {
            lemma_failed_for_good(handshake, events.drop_first());
        } else {
            lemma_success_takes_what_is_lacking(handshake, next, events.drop_first());
        }
    }
}

/// However a handshake runs, it succeeds only after the exchange has
/// confirmed as many subscriptions as the handshake expects: a run of events
/// that leads from the start to success holds at least that many
/// confirmations.
pub proof fn law_success_takes_every_confirmation(handshake: Handshake, events: Seq<Event>)
    requires
        run(handshake, Phase::Disconnected, events) == Phase::Validated,
    ensures
        confirmations(events) >= handshake.expected,
{
    lemma_success_takes_what_is_lacking(handshake, Phase::Disconnected, events);
}

/// However a handshake runs, a failure is final: once an event has led to
/// failure, no run of further events leads anywhere else.
pub proof fn law_failure_is_final(handshake: Handshake, events: Seq<Event>)
    ensures
        run(handshake, Phase::Failed, events) == Phase::Failed,
{
    lemma_failed_for_good(handshake, events);
}

} // verus!
