//! The messaging layer as the trade sees it: whom to send to, what to
//! listen for, and the decisions of one bounded wait for a message.
//!
//! The client here holds no connection. It answers every outcome of the
//! messaging layer with the next request to it, and the caller carries the
//! requests out.

use crate::ecash::{
    ecash_pubkey_hex, normalize_ecash_pubkey, token_option_view, EscrowToken, EscrowTokenView,
};
use crate::encoding::{hex_encode, hex_string};
use crate::error::EscrowError;
use crate::model::{
    registration_from_parts, EscrowRegistration, EscrowRegistrationView, PublicKey,
};
use crate::wire::{registration_json, registration_message};
use vstd::prelude::*;

verus! {

/// The kind of the sealed envelope in which every private message travels.
pub const GIFT_WRAP_KIND: u16 = 1059;

/// The kind of a private direct message inside its envelope.
pub const PRIVATE_DIRECT_MESSAGE_KIND: u16 = 14;

/// The bound, in seconds, on a wait for an answer, unless another is set.
pub const DEFAULT_TIMEOUT_SECS: u64 = 10;

/// Whose messages a wait accepts.
#[derive(Debug, PartialEq, Eq)]
pub enum MessageSource {
    Any,
    From(PublicKey),
}

pub enum MessageSourceView {
    Any,
    From(Seq<char>),
}

impl MessageSourceView {
    /// Whether a message from `sender` is one that the wait is for.
    pub open spec fn admits(self, sender: Seq<char>) -> bool {
        match self {
            MessageSourceView::Any => true,
            MessageSourceView::From(key) => key == sender,
        }
    }
}

impl View for MessageSource {
    type V = MessageSourceView;

    open spec fn view(&self) -> MessageSourceView {
        match self {
            MessageSource::Any => MessageSourceView::Any,
            MessageSource::From(key) => MessageSourceView::From(key@),
        }
    }
}

impl Clone for MessageSource {
    fn clone(&self) -> (r: Self)
        ensures
            r == *self,
    {
        match self {
            MessageSource::Any => MessageSource::Any,
            MessageSource::From(key) => MessageSource::From(key.clone()),
        }
    }
}

impl MessageSource {
    pub fn admits(&self, sender: &PublicKey) -> (r: bool)
        ensures
            r == self@.admits(sender@),
    {
        match self {
            MessageSource::Any => true,
            MessageSource::From(key) => key.same_as(sender),
        }
    }
}

/// What a subscription asks the relays for.
#[derive(Debug, PartialEq, Eq)]
pub struct MessageFilter {
    pub kind: u16,
    pub recipient: PublicKey,
    pub limit: u64,
}

pub struct MessageFilterView {
    pub kind: u16,
    pub recipient: Seq<char>,
    pub limit: u64,
}

impl View for MessageFilter {
    type V = MessageFilterView;

    open spec fn view(&self) -> MessageFilterView {
        MessageFilterView { kind: self.kind, recipient: self.recipient@, limit: self.limit }
    }
}

/// The filter of every wait: sealed envelopes addressed to `recipient`, and
/// none of those stored before the subscription began.
pub open spec fn inbox_filter(recipient: Seq<char>) -> MessageFilterView {
    MessageFilterView { kind: GIFT_WRAP_KIND, recipient, limit: 0 }
}

/// A message to send, and to whom.
#[derive(Debug, PartialEq, Eq)]
pub struct OutboundMessage {
    pub recipient: PublicKey,
    pub payload: String,
}

pub struct OutboundMessageView {
    pub recipient: Seq<char>,
    pub payload: Seq<char>,
}

impl View for OutboundMessage {
    type V = OutboundMessageView;

    open spec fn view(&self) -> OutboundMessageView {
        OutboundMessageView { recipient: self.recipient@, payload: self.payload@ }
    }
}

/// What the relays delivered while a subscription was open.
#[derive(Debug, PartialEq, Eq)]
pub enum Notification {
    /// An envelope that was opened: the kind, sender and text of what was in it.
    Message { kind: u16, sender: PublicKey, content: String },
    /// An envelope that could not be opened.
    Undecryptable,
    /// Anything that is not an envelope.
    Other,
}

pub enum NotificationView {
    Message { kind: u16, sender: Seq<char>, content: Seq<char> },
    Undecryptable,
    Other,
}

impl View for Notification {
    type V = NotificationView;

    open spec fn view(&self) -> NotificationView {
        match self {
            Notification::Message { kind, sender, content } => NotificationView::Message {
                kind: *kind,
                sender: sender@,
                content: content@,
            },
            Notification::Undecryptable => NotificationView::Undecryptable,
            Notification::Other => NotificationView::Other,
        }
    }
}

/// The outcome of a request, as the caller reports it.
#[derive(Debug, PartialEq, Eq)]
pub enum Event {
    /// The subscription is open.
    Subscribed,
    /// The subscription could not be opened.
    SubscribeFailed,
    /// The relays delivered something.
    Notification(Notification),
    /// The bound of the wait has passed.
    TimedOut,
    /// The subscription is closed.
    Unsubscribed,
    /// The message was handed to the relays.
    Sent,
    /// The message could not be sent.
    SendFailed,
    /// The wallet issued the token; this is its payload.
    TokenMinted(String),
    /// The wallet could not issue the token.
    MintFailed,
    /// The wallet read a payload: what the token says, or `None` where the
    /// payload is no token.
    TokenInspected(Option<EscrowToken>),
}

pub enum EventView {
    Subscribed,
    SubscribeFailed,
    Notification(NotificationView),
    TimedOut,
    Unsubscribed,
    Sent,
    SendFailed,
    TokenMinted(Seq<char>),
    MintFailed,
    TokenInspected(Option<EscrowTokenView>),
}

impl View for Event {
    type V = EventView;

    open spec fn view(&self) -> EventView {
        match self {
            Event::Subscribed => EventView::Subscribed,
            Event::SubscribeFailed => EventView::SubscribeFailed,
            Event::Notification(n) => EventView::Notification(n@),
            Event::TimedOut => EventView::TimedOut,
            Event::Unsubscribed => EventView::Unsubscribed,
            Event::Sent => EventView::Sent,
            Event::SendFailed => EventView::SendFailed,
            Event::TokenMinted(payload) => EventView::TokenMinted(payload@),
            Event::MintFailed => EventView::MintFailed,
            Event::TokenInspected(token) => EventView::TokenInspected(token_option_view(*token)),
        }
    }
}

/// A request to the messaging layer or to the wallet.
#[derive(Debug, PartialEq, Eq)]
pub enum Action {
    /// Open a subscription with this filter. Answered by `Subscribed` or
    /// `SubscribeFailed`.
    Subscribe(MessageFilter),
    /// Wait for the next notification. The bound counts from the first such
    /// request since the subscription was opened. Answered by `Notification`
    /// or `TimedOut`.
    AwaitNotification { timeout_secs: u64 },
    /// Close the subscription. Answered by `Unsubscribed`.
    Unsubscribe,
    /// Send a private message. Answered by `Sent` or `SendFailed`.
    Send(OutboundMessage),
    /// Issue this token. Answered by `TokenMinted` or `MintFailed`.
    MintToken(EscrowToken),
    /// Read this payload as a token. Answered by `TokenInspected`.
    InspectToken(String),
}

pub enum ActionView {
    Subscribe(MessageFilterView),
    AwaitNotification { timeout_secs: u64 },
    Unsubscribe,
    Send(OutboundMessageView),
    MintToken(EscrowTokenView),
    InspectToken(Seq<char>),
}

impl View for Action {
    type V = ActionView;

    open spec fn view(&self) -> ActionView {
        match self {
            Action::Subscribe(filter) => ActionView::Subscribe(filter@),
            Action::AwaitNotification { timeout_secs } => ActionView::AwaitNotification {
                timeout_secs: *timeout_secs,
            },
            Action::Unsubscribe => ActionView::Unsubscribe,
            Action::Send(message) => ActionView::Send(message@),
            Action::MintToken(token) => ActionView::MintToken(token@),
            Action::InspectToken(payload) => ActionView::InspectToken(payload@),
        }
    }
}

/// The view of a result that holds a text.
pub open spec fn text_result_view(r: Result<String, EscrowError>) -> Result<
    Seq<char>,
    EscrowError,
> {
    match r {
        Ok(s) => Ok(s@),
        Err(e) => Err(e),
    }
}

/// Where a wait for a message stands.
#[derive(Debug, PartialEq, Eq)]
pub enum ListenerState {
    /// No wait is under way and no subscription is open.
    Idle,
    /// The subscription was asked for.
    Subscribing { source: MessageSource, timeout_secs: u64 },
    /// The subscription is open.
    Listening { source: MessageSource, timeout_secs: u64 },
    /// The wait is decided; the subscription is being closed.
    Releasing { outcome: Result<String, EscrowError> },
}

pub enum ListenerView {
    Idle,
    Subscribing { source: MessageSourceView, timeout_secs: u64 },
    Listening { source: MessageSourceView, timeout_secs: u64 },
    Releasing { outcome: Result<Seq<char>, EscrowError> },
}

impl ListenerView {
    /// Whether a subscription may be open in this state.
    pub open spec fn holds_subscription(self) -> bool {
        !(self is Idle)
    }
}

impl View for ListenerState {
    type V = ListenerView;

    open spec fn view(&self) -> ListenerView {
        match self {
            ListenerState::Idle => ListenerView::Idle,
            ListenerState::Subscribing { source, timeout_secs } => ListenerView::Subscribing {
                source: source@,
                timeout_secs: *timeout_secs,
            },
            ListenerState::Listening { source, timeout_secs } => ListenerView::Listening {
                source: source@,
                timeout_secs: *timeout_secs,
            },
            ListenerState::Releasing { outcome } => ListenerView::Releasing {
                outcome: text_result_view(*outcome),
            },
        }
    }
}

/// The answer of a wait to an event: the next request, or the end of the
/// wait with the message or the error.
#[derive(Debug, PartialEq, Eq)]
pub enum ReceiveStep {
    Pending(Action),
    Finished(Result<String, EscrowError>),
}

pub enum ReceiveStepView {
    Pending(ActionView),
    Finished(Result<Seq<char>, EscrowError>),
}

impl View for ReceiveStep {
    type V = ReceiveStepView;

    open spec fn view(&self) -> ReceiveStepView {
        match self {
            ReceiveStep::Pending(action) => ReceiveStepView::Pending(action@),
            ReceiveStep::Finished(outcome) => ReceiveStepView::Finished(text_result_view(*outcome)),
        }
    }
}

/// How a wait begins. Only an idle listener begins one: it asks for the
/// subscription. A listener that is busy refuses with `TransportError` and
/// stays as it is.
pub open spec fn receive_begin(
    own: Seq<char>,
    state: ListenerView,
    source: MessageSourceView,
    timeout_secs: u64,
) -> (ListenerView, ReceiveStepView) {
    match state {
        ListenerView::Idle => (
            ListenerView::Subscribing { source, timeout_secs },
            ReceiveStepView::Pending(ActionView::Subscribe(inbox_filter(own))),
        ),
        _ => (state, ReceiveStepView::Finished(Err(EscrowError::TransportError))),
    }
}

/// What a listener with an open subscription makes of a notification: a
/// private direct message from an admitted sender decides the wait, an
/// envelope that cannot be opened fails it, and everything else is passed
/// over.
pub open spec fn on_notification(
    source: MessageSourceView,
    timeout_secs: u64,
    notification: NotificationView,
) -> (ListenerView, ReceiveStepView) {
    match notification {
        NotificationView::Message { kind, sender, content } => if kind
            == PRIVATE_DIRECT_MESSAGE_KIND && source.admits(sender) {
            (
                ListenerView::Releasing { outcome: Ok(content) },
                ReceiveStepView::Pending(ActionView::Unsubscribe),
            )
        } else {
            (
                ListenerView::Listening { source, timeout_secs },
                ReceiveStepView::Pending(ActionView::AwaitNotification { timeout_secs }),
            )
        },
        NotificationView::Undecryptable => (
            ListenerView::Releasing { outcome: Err(EscrowError::TransportError) },
            ReceiveStepView::Pending(ActionView::Unsubscribe),
        ),
        NotificationView::Other => (
            ListenerView::Listening { source, timeout_secs },
            ReceiveStepView::Pending(ActionView::AwaitNotification { timeout_secs }),
        ),
    }
}

/// How a wait goes on after an event.
///
/// - Idle: there is no wait; the answer is `TransportError`.
/// - Subscribing: `Subscribed` starts the wait for notifications,
///   `SubscribeFailed` ends the wait with `TransportError`.
/// - Listening: notifications are judged by [`on_notification`]; `TimedOut`
///   decides the wait with `TimeoutError`.
/// - Releasing: `Unsubscribed` ends the wait with what was decided; until
///   then the request to close is repeated.
///
/// An event that does not answer the request in progress decides the wait
/// with `TransportError`, and the subscription is closed first.
pub open spec fn receive_transition(state: ListenerView, event: EventView) -> (
    ListenerView,
    ReceiveStepView,
) {
    match state {
        ListenerView::Idle => (
            ListenerView::Idle,
            ReceiveStepView::Finished(Err(EscrowError::TransportError)),
        ),
        ListenerView::Subscribing { source, timeout_secs } => match event {
            EventView::Subscribed => (
                ListenerView::Listening { source, timeout_secs },
                ReceiveStepView::Pending(ActionView::AwaitNotification { timeout_secs }),
            ),
            EventView::SubscribeFailed => (
                ListenerView::Idle,
                ReceiveStepView::Finished(Err(EscrowError::TransportError)),
            ),
            _ => (
                ListenerView::Releasing { outcome: Err(EscrowError::TransportError) },
                ReceiveStepView::Pending(ActionView::Unsubscribe),
            ),
        },
        ListenerView::Listening { source, timeout_secs } => match event {
            EventView::Notification(notification) => on_notification(
                source,
                timeout_secs,
                notification,
            ),
            EventView::TimedOut => (
                ListenerView::Releasing { outcome: Err(EscrowError::TimeoutError) },
                ReceiveStepView::Pending(ActionView::Unsubscribe),
            ),
            _ => (
                ListenerView::Releasing { outcome: Err(EscrowError::TransportError) },
                ReceiveStepView::Pending(ActionView::Unsubscribe),
            ),
        },
        ListenerView::Releasing { outcome } => match event {
            EventView::Unsubscribed => (ListenerView::Idle, ReceiveStepView::Finished(outcome)),
            _ => (state, ReceiveStepView::Pending(ActionView::Unsubscribe)),
        },
    }
}

/// How a wait is given up from outside. An idle listener has nothing to
/// close and ends with the error. One that is already closing keeps what it
/// had decided. Any other decides on the error and closes.
pub open spec fn receive_abort(state: ListenerView, error: EscrowError) -> (
    ListenerView,
    ReceiveStepView,
) {
    match state {
        ListenerView::Idle => (ListenerView::Idle, ReceiveStepView::Finished(Err(error))),
        ListenerView::Releasing { outcome } => (
            state,
            ReceiveStepView::Pending(ActionView::Unsubscribe),
        ),
        _ => (
            ListenerView::Releasing { outcome: Err(error) },
            ReceiveStepView::Pending(ActionView::Unsubscribe),
        ),
    }
}

/// The relays that a client uses unless it is given others.
pub open spec fn default_relay_urls() -> Seq<Seq<char>> {
    seq![
        "wss://relay.damus.io"@,
        "wss://relay.primal.net"@,
        "wss://relay.nostr.band"@,
        "wss://ftp.halifax.rwth-aachen.de/nostr"@,
        "wss://nostr.mom"@,
    ]
}

/// The relays that a client uses unless it is given others.
pub fn default_relays() -> (r: Vec<String>)
    ensures
        r.deep_view() == default_relay_urls(),
{
    let mut relays: Vec<String> = Vec::new();
    relays.push(String::from_str("wss://relay.damus.io"));
    relays.push(String::from_str("wss://relay.primal.net"));
    relays.push(String::from_str("wss://relay.nostr.band"));
    relays.push(String::from_str("wss://ftp.halifax.rwth-aachen.de/nostr"));
    relays.push(String::from_str("wss://nostr.mom"));
    assert(relays.deep_view() =~= default_relay_urls());
    relays
}

/// What a client is, as plain values.
pub struct NostrClientView {
    pub public_key: Seq<char>,
    pub relays: Seq<Seq<char>>,
    pub response_timeout_secs: u64,
    pub listener: ListenerView,
}

impl NostrClientView {
    /// The same client with its listener in another state.
    pub open spec fn with_listener(self, listener: ListenerView) -> NostrClientView {
        NostrClientView { listener, ..self }
    }
}

/// One trader's end of the messaging layer: its identity, its relays, the
/// bound on the waits of a trade, and the wait for a message that is under
/// way, if any.
#[derive(Debug, PartialEq, Eq)]
pub struct NostrClient {
    public_key: PublicKey,
    relays: Vec<String>,
    response_timeout_secs: u64,
    listener: ListenerState,
}

impl View for NostrClient {
    type V = NostrClientView;

    closed spec fn view(&self) -> NostrClientView {
        NostrClientView {
            public_key: self.public_key@,
            relays: self.relays.deep_view(),
            response_timeout_secs: self.response_timeout_secs,
            listener: self.listener@,
        }
    }
}

fn listener_begin(own: &PublicKey, state: ListenerState, source: MessageSource, timeout_secs: u64) -> (r:
    (ListenerState, ReceiveStep))
    ensures
        (r.0@, r.1@) == receive_begin(own@, state@, source@, timeout_secs),
{
    match state {
        ListenerState::Idle => (
            ListenerState::Subscribing { source, timeout_secs },
            ReceiveStep::Pending(
                Action::Subscribe(
                    MessageFilter { kind: GIFT_WRAP_KIND, recipient: own.clone(), limit: 0 },
                ),
            ),
        ),
        other => (other, ReceiveStep::Finished(Err(EscrowError::TransportError))),
    }
}

fn listener_notified(source: MessageSource, timeout_secs: u64, notification: Notification) -> (r: (
    ListenerState,
    ReceiveStep,
))
    ensures
        (r.0@, r.1@) == on_notification(source@, timeout_secs, notification@),
{
    match notification {
        Notification::Message { kind, sender, content } => {
            if kind == PRIVATE_DIRECT_MESSAGE_KIND && source.admits(&sender) {
                (
                    ListenerState::Releasing { outcome: Ok(content) },
                    ReceiveStep::Pending(Action::Unsubscribe),
                )
            } else {
                (
                    ListenerState::Listening { source, timeout_secs },
                    ReceiveStep::Pending(Action::AwaitNotification { timeout_secs }),
                )
            }
        },
        Notification::Undecryptable => (
            ListenerState::Releasing { outcome: Err(EscrowError::TransportError) },
            ReceiveStep::Pending(Action::Unsubscribe),
        ),
        Notification::Other => (
            ListenerState::Listening { source, timeout_secs },
            ReceiveStep::Pending(Action::AwaitNotification { timeout_secs }),
        ),
    }
}

fn listener_step(state: ListenerState, event: Event) -> (r: (ListenerState, ReceiveStep))
    ensures
        (r.0@, r.1@) == receive_transition(state@, event@),
{
    match state {
        ListenerState::Idle => (
            ListenerState::Idle,
            ReceiveStep::Finished(Err(EscrowError::TransportError)),
        ),
        ListenerState::Subscribing { source, timeout_secs } => match event {
            Event::Subscribed => (
                ListenerState::Listening { source, timeout_secs },
                ReceiveStep::Pending(Action::AwaitNotification { timeout_secs }),
            ),
            Event::SubscribeFailed => (
                ListenerState::Idle,
                ReceiveStep::Finished(Err(EscrowError::TransportError)),
            ),
            _ => (
                ListenerState::Releasing { outcome: Err(EscrowError::TransportError) },
                ReceiveStep::Pending(Action::Unsubscribe),
            ),
        },
        ListenerState::Listening { source, timeout_secs } => match event {
            Event::Notification(notification) => listener_notified(
                source,
                timeout_secs,
                notification,
            ),
            Event::TimedOut => (
                ListenerState::Releasing { outcome: Err(EscrowError::TimeoutError) },
                ReceiveStep::Pending(Action::Unsubscribe),
            ),
            _ => (
                ListenerState::Releasing { outcome: Err(EscrowError::TransportError) },
                ReceiveStep::Pending(Action::Unsubscribe),
            ),
        },
        ListenerState::Releasing { outcome } => match event {
            Event::Unsubscribed => (ListenerState::Idle, ReceiveStep::Finished(outcome)),
            _ => (ListenerState::Releasing { outcome }, ReceiveStep::Pending(Action::Unsubscribe)),
        },
    }
}

fn listener_abort(state: ListenerState, error: EscrowError) -> (r: (ListenerState, ReceiveStep))
    ensures
        (r.0@, r.1@) == receive_abort(state@, error),
{
    match state {
        ListenerState::Idle => (ListenerState::Idle, ReceiveStep::Finished(Err(error))),
        ListenerState::Releasing { outcome } => (
            ListenerState::Releasing { outcome },
            ReceiveStep::Pending(Action::Unsubscribe),
        ),
        _ => (
            ListenerState::Releasing { outcome: Err(error) },
            ReceiveStep::Pending(Action::Unsubscribe),
        ),
    }
}

/// The payload that announces a registration: the registration message for
/// the escrow identifier in hexadecimal, the coordinator's key in its
/// normal form and the start time. `ProtocolError` where `trade_pk` is not
/// a wallet key or a text cannot be encoded.
pub open spec fn registration_announcement(id: Seq<u8>, trade_pk: Seq<char>, start: u64) -> Result<
    Seq<char>,
    EscrowError,
> {
    match registration_from_parts(Some(hex_string(id)), ecash_pubkey_hex(trade_pk), Some(start)) {
        Ok(registration) => match registration_json(registration) {
            Some(text) => Ok(text),
            None => Err(EscrowError::ProtocolError),
        },
        Err(e) => Err(e),
    }
}

impl NostrClient {
    /// A client with the default relays, the default bound on waits and no
    /// wait under way.
    pub fn new(public_key: PublicKey) -> (r: NostrClient)
        ensures
            r@ == (NostrClientView {
                public_key: public_key@,
                relays: default_relay_urls(),
                response_timeout_secs: DEFAULT_TIMEOUT_SECS,
                listener: ListenerView::Idle,
            }),
    {
        NostrClient {
            public_key,
            relays: default_relays(),
            response_timeout_secs: DEFAULT_TIMEOUT_SECS,
            listener: ListenerState::Idle,
        }
    }

    /// A client with the given relays, the default bound on waits and no
    /// wait under way.
    pub fn with_relays(public_key: PublicKey, relays: Vec<String>) -> (r: NostrClient)
        ensures
            r@ == (NostrClientView {
                public_key: public_key@,
                relays: relays.deep_view(),
                response_timeout_secs: DEFAULT_TIMEOUT_SECS,
                listener: ListenerView::Idle,
            }),
    {
        NostrClient {
            public_key,
            relays,
            response_timeout_secs: DEFAULT_TIMEOUT_SECS,
            listener: ListenerState::Idle,
        }
    }

    /// The bound, in seconds, on each wait of a trade for an answer.
    pub fn response_timeout_secs(&self) -> (r: u64)
        ensures
            r == self@.response_timeout_secs,
    {
        self.response_timeout_secs
    }

    /// Sets the bound on the waits that begin from now on.
    pub fn set_response_timeout_secs(&mut self, timeout_secs: u64)
        ensures
            final(self)@ == (NostrClientView {
                response_timeout_secs: timeout_secs,
                ..old(self)@
            }),
    {
        self.response_timeout_secs = timeout_secs;
    }

    pub fn public_key(&self) -> (r: PublicKey)
        ensures
            r@ == self@.public_key,
    {
        self.public_key.clone()
    }

    pub fn relays(&self) -> (r: &Vec<String>)
        ensures
            r.deep_view() == self@.relays,
    {
        &self.relays
    }

    /// Whether a wait is under way, so that a subscription may be open.
    pub fn is_listening(&self) -> (r: bool)
        ensures
            r == self@.listener.holds_subscription(),
    {
        match &self.listener {
            ListenerState::Idle => false,
            _ => true,
        }
    }

    /// The bound of the wait under way, where its subscription is open.
    pub fn listening_timeout(&self) -> (r: Option<u64>)
        ensures
            match r {
                Some(t) => self@.listener matches ListenerView::Listening { timeout_secs, .. }
                    && timeout_secs == t,
                None => !(self@.listener is Listening),
            },
    {
        match &self.listener {
            ListenerState::Listening { timeout_secs, .. } => Some(*timeout_secs),
            _ => None,
        }
    }

    /// Begins the wait for one private message addressed to this client,
    /// from `source`, for at most `timeout_secs` seconds. See
    /// [`receive_begin`].
    pub fn receive_escrow_message(&mut self, source: MessageSource, timeout_secs: u64) -> (r:
        ReceiveStep)
        ensures
            (final(self)@.listener, r@) == receive_begin(
                old(self)@.public_key,
                old(self)@.listener,
                source@,
                timeout_secs,
            ),
            final(self)@ == old(self)@.with_listener(final(self)@.listener),
    {
        let mut state = ListenerState::Idle;
        core::mem::swap(&mut self.listener, &mut state);
        let (next, step) = listener_begin(&self.public_key, state, source, timeout_secs);
        self.listener = next;
        step
    }

    /// Carries the wait on after `event`. See [`receive_transition`]. The
    /// wait ends only with the subscription closed.
    pub fn resume_receive(&mut self, event: Event) -> (r: ReceiveStep)
        ensures
            (final(self)@.listener, r@) == receive_transition(old(self)@.listener, event@),
            final(self)@ == old(self)@.with_listener(final(self)@.listener),
            r is Finished ==> !final(self)@.listener.holds_subscription(),
    {
        let mut state = ListenerState::Idle;
        core::mem::swap(&mut self.listener, &mut state);
        let (next, step) = listener_step(state, event);
        self.listener = next;
        step
    }

    /// Gives the wait up with `error`. See [`receive_abort`].
    pub fn abort_receive(&mut self, error: EscrowError) -> (r: ReceiveStep)
        ensures
            (final(self)@.listener, r@) == receive_abort(old(self)@.listener, error),
            final(self)@ == old(self)@.with_listener(final(self)@.listener),
            r is Finished ==> !final(self)@.listener.holds_subscription(),
    {
        let mut state = ListenerState::Idle;
        core::mem::swap(&mut self.listener, &mut state);
        let (next, step) = listener_abort(state, error);
        self.listener = next;
        step
    }

    /// The two messages by which a coordinator announces a registration to
    /// the traders: the same payload to the first and to the second of
    /// `receivers`, in this order. See [`registration_announcement`].
    pub fn send_escrow_registration(
        &self,
        receivers: (PublicKey, PublicKey),
        id: &[u8; 32],
        trade_pk: &str,
        escrow_start_time: u64,
    ) -> (r: Result<(OutboundMessage, OutboundMessage), EscrowError>)
        ensures
            match r {
                Ok((first, second)) => {
                    &&& registration_announcement(id@, trade_pk@, escrow_start_time) == Ok::<
                        Seq<char>,
                        EscrowError,
                    >(first.payload@)
                    &&& second.payload@ == first.payload@
                    &&& first.recipient@ == receivers.0@
                    &&& second.recipient@ == receivers.1@
                },
                Err(e) => registration_announcement(id@, trade_pk@, escrow_start_time) == Err::<
                    Seq<char>,
                    EscrowError,
                >(e),
            },
    {
        let escrow_id_hex = hex_encode(id.as_slice());
        let key = normalize_ecash_pubkey(trade_pk);
        let registration = EscrowRegistration::from_parts(
            Some(escrow_id_hex),
            key,
            Some(escrow_start_time),
        )?;
        let payload = registration_message(&registration)?;
        let (first, second) = receivers;
        let copy = payload.clone();
        Ok(
            (
                OutboundMessage { recipient: first, payload },
                OutboundMessage { recipient: second, payload: copy },
            ),
        )
    }
}

/// A wait ends only when no subscription is left open, whatever the event.
pub proof fn lemma_finished_wait_is_released(state: ListenerView, event: EventView)
    ensures
        receive_transition(state, event).1 is Finished ==> receive_transition(state, event).0
            is Idle,
{
}

/// A wait that has taken a subscription does not end before the
/// subscription is reported closed.
pub proof fn lemma_wait_ends_on_unsubscribed(state: ListenerView, event: EventView)
    requires
        state is Listening || state is Releasing,
    ensures
        receive_transition(state, event).1 is Finished ==> event is Unsubscribed,
{
}

/// When the bound passes with no message, the wait closes its subscription
/// and ends with `TimeoutError`; the listener is then idle, and the next
/// wait opens a subscription of its own.
pub proof fn lemma_timeout_releases_listener(
    own: Seq<char>,
    source: MessageSourceView,
    timeout_secs: u64,
    next_source: MessageSourceView,
    next_timeout_secs: u64,
)
    ensures
        ({
            let waiting = ListenerView::Listening { source, timeout_secs };
            let timed_out = receive_transition(waiting, EventView::TimedOut);
            let closed = receive_transition(timed_out.0, EventView::Unsubscribed);
            let again = receive_begin(own, closed.0, next_source, next_timeout_secs);
            &&& timed_out.1 == ReceiveStepView::Pending(ActionView::Unsubscribe)
            &&& closed.1 == ReceiveStepView::Finished(Err(EscrowError::TimeoutError))
            &&& closed.0 == ListenerView::Idle
            &&& again.0 == (ListenerView::Subscribing {
                source: next_source,
                timeout_secs: next_timeout_secs,
            })
            &&& again.1 == ReceiveStepView::Pending(ActionView::Subscribe(inbox_filter(own)))
        }),
{
}

/// A wait is decided in favour of a message only by a private direct
/// message from an admitted sender, and the message is its content.
pub proof fn lemma_only_admitted_message_is_delivered(
    source: MessageSourceView,
    timeout_secs: u64,
    event: EventView,
    content: Seq<char>,
)
    ensures
        receive_transition(ListenerView::Listening { source, timeout_secs }, event).0 == (
        ListenerView::Releasing { outcome: Ok(content) }) <==> (exists|sender: Seq<char>|
            event == EventView::Notification(
                NotificationView::Message { kind: PRIVATE_DIRECT_MESSAGE_KIND, sender, content },
            ) && #[trigger] source.admits(sender)),
{
    let next = receive_transition(ListenerView::Listening { source, timeout_secs }, event).0;
    if next == (ListenerView::Releasing { outcome: Ok::<Seq<char>, EscrowError>(content) }) {
        match event {
            EventView::Notification(NotificationView::Message { kind, sender, content: c }) => {
                assert(source.admits(sender));
            },
            _ => {},
        }
    }
}

} // verus!
