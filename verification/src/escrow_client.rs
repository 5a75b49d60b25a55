//! The phases of a trade. A client begins as an [`InitEscrowClient`],
//! becomes a [`RegisteredEscrowClient`] once the coordinator has answered,
//! and a [`TokenExchangedEscrowClient`] once the escrow token has changed
//! hands. Each phase is a value of its own: the step that leads on takes the
//! phase it starts from and hands out the next one, so no phase is used
//! twice and none is reached but through the one before.
//!
//! A step that needs the network or the wallet is taken in pieces: it
//! begins, answers with a request, and is resumed with the outcome.

use crate::ecash::{
    minted_token, token_bound_to, token_option_view, validated_token, ClientEcashWallet,
    EscrowToken, EscrowTokenView,
};
use crate::error::EscrowError;
use crate::model::{
    EscrowRegistration, EscrowRegistrationView, TradeContract, TradeContractView, TradeMode,
};
use crate::nostr::{
    receive_abort, receive_begin, receive_transition, Action, ActionView, Event, EventView,
    ListenerView, MessageSource, MessageSourceView, NostrClient, NostrClientView,
    OutboundMessage, OutboundMessageView, ReceiveStep, ReceiveStepView,
};
use crate::wire::{contract_json, contract_message, parse_registration, parsed_registration};
use vstd::prelude::*;

verus! {

/// What a client holds before registration, as plain values.
pub struct InitEscrowClientView {
    pub ecash_wallet: Seq<char>,
    pub escrow_contract: TradeContractView,
    pub trade_mode: TradeMode,
}

impl InitEscrowClientView {
    /// The wallet trades under the key that the contract names for the
    /// client's side.
    pub open spec fn role_consistent(self) -> bool {
        self.ecash_wallet == self.escrow_contract.party_ecash_key(self.trade_mode)
    }
}

/// A client that has a contract and has not yet registered it.
#[derive(Debug)]
pub struct InitEscrowClient {
    ecash_wallet: ClientEcashWallet,
    escrow_contract: TradeContract,
    trade_mode: TradeMode,
}

impl View for InitEscrowClient {
    type V = InitEscrowClientView;

    closed spec fn view(&self) -> InitEscrowClientView {
        InitEscrowClientView {
            ecash_wallet: self.ecash_wallet@,
            escrow_contract: self.escrow_contract@,
            trade_mode: self.trade_mode,
        }
    }
}

/// What a registered client holds, as plain values.
pub struct RegisteredEscrowClientView {
    pub prev_state: InitEscrowClientView,
    pub escrow_registration: EscrowRegistrationView,
}

/// A client whose contract the coordinator has registered.
#[derive(Debug)]
pub struct RegisteredEscrowClient {
    prev_state: InitEscrowClient,
    escrow_registration: EscrowRegistration,
}

impl View for RegisteredEscrowClient {
    type V = RegisteredEscrowClientView;

    closed spec fn view(&self) -> RegisteredEscrowClientView {
        RegisteredEscrowClientView {
            prev_state: self.prev_state@,
            escrow_registration: self.escrow_registration@,
        }
    }
}

/// The token that changed hands: the payload that the buyer sent, or what
/// the token says that the seller received.
#[derive(Debug, PartialEq, Eq)]
pub enum ExchangedToken {
    Sent(String),
    Received(EscrowToken),
}

pub enum ExchangedTokenView {
    Sent(Seq<char>),
    Received(EscrowTokenView),
}

impl View for ExchangedToken {
    type V = ExchangedTokenView;

    open spec fn view(&self) -> ExchangedTokenView {
        match self {
            ExchangedToken::Sent(payload) => ExchangedTokenView::Sent(payload@),
            ExchangedToken::Received(token) => ExchangedTokenView::Received(token@),
        }
    }
}

/// What a client holds after the exchange, as plain values.
pub struct TokenExchangedEscrowClientView {
    pub prev_state: RegisteredEscrowClientView,
    pub token: ExchangedTokenView,
}

impl TokenExchangedEscrowClientView {
    /// A buyer holds the payload it sent. A seller holds a token that
    /// belongs to its trade: nothing else lets a seller past the exchange.
    pub open spec fn token_consistent(self) -> bool {
        match self.prev_state.prev_state.trade_mode {
            TradeMode::Buyer => self.token is Sent,
            TradeMode::Seller => self.token matches ExchangedTokenView::Received(token)
                && token_bound_to(
                token,
                self.prev_state.prev_state.escrow_contract,
                self.prev_state.escrow_registration,
            ),
        }
    }
}

/// A client that has sent or received the escrow token.
#[derive(Debug)]
pub struct TokenExchangedEscrowClient {
    prev_state: RegisteredEscrowClient,
    token: ExchangedToken,
}

impl View for TokenExchangedEscrowClient {
    type V = TokenExchangedEscrowClientView;

    closed spec fn view(&self) -> TokenExchangedEscrowClientView {
        TokenExchangedEscrowClientView { prev_state: self.prev_state@, token: self.token@ }
    }
}

/// How a trade ended once both sides did what they owed.
#[derive(Debug, Clone, Copy, PartialEq, Eq, Structural)]
pub enum TradeOutcome {
    /// The buyer released the token to the seller.
    Released,
    /// One side called on the coordinator.
    Disputed,
    /// Neither has happened yet.
    Pending,
}

/// Where a registration under way stands.
#[derive(Debug, Clone, Copy, PartialEq, Eq, Structural)]
pub enum RegistrationStage {
    /// The subscription for the answer was asked for.
    Arming,
    /// The subscription is open and the contract is on its way.
    Sending,
    /// The contract is sent, or the step is decided; the wait runs to its end.
    Waiting,
}

pub struct TradeRegistrationView {
    pub client: InitEscrowClientView,
    pub stage: RegistrationStage,
    pub payload: Seq<char>,
}

impl TradeRegistrationView {
    /// The payload is the client's contract message.
    pub open spec fn well_formed(self) -> bool {
        &&& self.client.role_consistent()
        &&& contract_json(self.client.escrow_contract) == Some(self.payload)
    }

    pub open spec fn at(self, stage: RegistrationStage) -> TradeRegistrationView {
        TradeRegistrationView { stage, ..self }
    }

    /// Whether the listener is where this stage of the registration leaves
    /// it: asked for while arming, open while the contract is sent, open or
    /// closing during the wait. In each case a subscription is held.
    pub open spec fn in_step_with(self, listener: ListenerView) -> bool {
        match self.stage {
            RegistrationStage::Arming => listener is Subscribing,
            RegistrationStage::Sending => listener is Listening,
            RegistrationStage::Waiting => listener is Listening || listener is Releasing,
        }
    }

    /// The message that carries the contract to the coordinator.
    pub open spec fn contract_message(self) -> OutboundMessageView {
        OutboundMessageView {
            recipient: self.client.escrow_contract.npubkey_coordinator,
            payload: self.payload,
        }
    }
}

/// A registration under way.
#[derive(Debug)]
pub struct TradeRegistration {
    client: InitEscrowClient,
    stage: RegistrationStage,
    payload: String,
}

impl View for TradeRegistration {
    type V = TradeRegistrationView;

    closed spec fn view(&self) -> TradeRegistrationView {
        TradeRegistrationView { client: self.client@, stage: self.stage, payload: self.payload@ }
    }
}

/// The answer of a registration to an event.
#[derive(Debug)]
pub enum RegistrationStep {
    /// Carry out the request, then resume with its outcome.
    Pending(TradeRegistration, Action),
    /// The coordinator answered with a registration.
    Registered(RegisteredEscrowClient),
    /// The trade is not registered; the client is handed back as it was.
    Failed(InitEscrowClient, EscrowError),
}

pub enum RegistrationStepView {
    Pending(TradeRegistrationView, ActionView),
    Registered(RegisteredEscrowClientView),
    Failed(InitEscrowClientView, EscrowError),
}

impl View for RegistrationStep {
    type V = RegistrationStepView;

    open spec fn view(&self) -> RegistrationStepView {
        match self {
            RegistrationStep::Pending(registration, action) => RegistrationStepView::Pending(
                registration@,
                action@,
            ),
            RegistrationStep::Registered(client) => RegistrationStepView::Registered(client@),
            RegistrationStep::Failed(client, e) => RegistrationStepView::Failed(client@, *e),
        }
    }
}

/// How a registration ends once its wait has ended: with the registration
/// that the message holds, with `ProtocolError` where the message holds
/// none, or with the error of the wait. A registration that fails hands the
/// client back as it was.
pub open spec fn registration_outcome(
    client: InitEscrowClientView,
    outcome: Result<Seq<char>, EscrowError>,
) -> RegistrationStepView {
    match outcome {
        Ok(message) => match parsed_registration(message) {
            Ok(registration) => RegistrationStepView::Registered(
                RegisteredEscrowClientView { prev_state: client, escrow_registration: registration },
            ),
            Err(e) => RegistrationStepView::Failed(client, e),
        },
        Err(e) => RegistrationStepView::Failed(client, e),
    }
}

/// How a registration goes on with what its wait answered: the wait's
/// request is passed on, and the end of the wait ends the registration.
pub open spec fn registration_follow(
    registration: TradeRegistrationView,
    step: ReceiveStepView,
) -> RegistrationStepView {
    match step {
        ReceiveStepView::Pending(action) => RegistrationStepView::Pending(
            registration.at(RegistrationStage::Waiting),
            action,
        ),
        ReceiveStepView::Finished(outcome) => registration_outcome(registration.client, outcome),
    }
}

/// How a registration begins: the listener after the step, and the answer.
///
/// A client whose wallet does not trade under the key that the contract
/// names for its side, or whose contract cannot be written as a message,
/// fails with `InvalidContract` and asks for nothing. Otherwise the wait
/// for the coordinator's answer begins, from any sender and bounded by the
/// client's response timeout, and the first request is for its subscription:
/// the contract is not sent before the subscription is open.
pub open spec fn registration_begin(client: InitEscrowClientView, nostr: NostrClientView) -> (
    ListenerView,
    RegistrationStepView,
) {
    if !client.role_consistent() {
        (nostr.listener, RegistrationStepView::Failed(client, EscrowError::InvalidContract))
    } else {
        match contract_json(client.escrow_contract) {
            None => (
                nostr.listener,
                RegistrationStepView::Failed(client, EscrowError::InvalidContract),
            ),
            Some(payload) => {
                let begun = receive_begin(
                    nostr.public_key,
                    nostr.listener,
                    MessageSourceView::Any,
                    nostr.response_timeout_secs,
                );
                let registration = TradeRegistrationView {
                    client,
                    stage: RegistrationStage::Arming,
                    payload,
                };
                (
                    begun.0,
                    match begun.1 {
                        ReceiveStepView::Pending(action) => RegistrationStepView::Pending(
                            registration,
                            action,
                        ),
                        ReceiveStepView::Finished(outcome) => registration_outcome(
                            client,
                            outcome,
                        ),
                    },
                )
            },
        }
    }
}

/// How a registration goes on after an event: the listener after the step,
/// and the answer.
///
/// - Arming: the event goes to the wait. Once the wait asks for
///   notifications the subscription is open: the request is held back and
///   the contract is sent to the coordinator first.
/// - Sending: `Sent`, with the subscription open, lets the wait ask for
///   notifications. Anything else gives the wait up with `TransportError`.
/// - Waiting: the event goes to the wait.
///
/// The registration ends when the wait ends, see [`registration_outcome`].
pub open spec fn registration_transition(
    registration: TradeRegistrationView,
    listener: ListenerView,
    event: EventView,
) -> (ListenerView, RegistrationStepView) {
    match registration.stage {
        RegistrationStage::Arming => {
            let next = receive_transition(listener, event);
            (
                next.0,
                match next.1 {
                    ReceiveStepView::Pending(
                        ActionView::AwaitNotification { .. },
                    ) => RegistrationStepView::Pending(
                        registration.at(RegistrationStage::Sending),
                        ActionView::Send(registration.contract_message()),
                    ),
                    step => registration_follow(registration, step),
                },
            )
        },
        RegistrationStage::Sending => match (event, listener) {
            (EventView::Sent, ListenerView::Listening { timeout_secs, .. }) => (
                listener,
                RegistrationStepView::Pending(
                    registration.at(RegistrationStage::Waiting),
                    ActionView::AwaitNotification { timeout_secs },
                ),
            ),
            _ => {
                let next = receive_abort(listener, EscrowError::TransportError);
                (next.0, registration_follow(registration, next.1))
            },
        },
        RegistrationStage::Waiting => {
            let next = receive_transition(listener, event);
            (next.0, registration_follow(registration, next.1))
        },
    }
}

fn conclude_registration(client: InitEscrowClient, outcome: Result<String, EscrowError>) -> (r:
    RegistrationStep)
    requires
        client@.role_consistent(),
    ensures
        r@ == registration_outcome(client@, crate::nostr::text_result_view(outcome)),
{
    match outcome {
        Ok(message) => match parse_registration(message.as_str()) {
            Ok(registration) => RegistrationStep::Registered(
                RegisteredEscrowClient { prev_state: client, escrow_registration: registration },
            ),
            Err(e) => RegistrationStep::Failed(client, e),
        },
        Err(e) => RegistrationStep::Failed(client, e),
    }
}

impl InitEscrowClient {
    /// A client for one side of a trade.
    pub fn new(
        ecash_wallet: ClientEcashWallet,
        escrow_contract: TradeContract,
        trade_mode: TradeMode,
    ) -> (r: InitEscrowClient)
        ensures
            r@ == (InitEscrowClientView {
                ecash_wallet: ecash_wallet@,
                escrow_contract: escrow_contract@,
                trade_mode,
            }),
    {
        InitEscrowClient { ecash_wallet, escrow_contract, trade_mode }
    }

    pub fn ecash_wallet(&self) -> (r: &ClientEcashWallet)
        ensures
            r@ == self@.ecash_wallet,
    {
        &self.ecash_wallet
    }

    pub fn escrow_contract(&self) -> (r: &TradeContract)
        ensures
            r@ == self@.escrow_contract,
    {
        &self.escrow_contract
    }

    pub fn trade_mode(&self) -> (r: TradeMode)
        ensures
            r == self@.trade_mode,
    {
        self.trade_mode
    }

    /// Whether the wallet trades under the key that the contract names for
    /// the client's side.
    pub fn is_role_consistent(&self) -> (r: bool)
        ensures
            r == self@.role_consistent(),
    {
        *self.ecash_wallet.trade_pubkey() == *self.escrow_contract.party_ecash_key(
            self.trade_mode,
        )
    }

    /// Begins the registration of the trade with the coordinator. See
    /// [`registration_begin`].
    pub fn register_trade(self, nostr_client: &mut NostrClient) -> (r: RegistrationStep)
        ensures
            (final(nostr_client)@.listener, r@) == registration_begin(self@, old(nostr_client)@),
            final(nostr_client)@ == old(nostr_client)@.with_listener(final(nostr_client)@.listener),
            !(r@ matches RegistrationStepView::Pending(_, ActionView::Send(_))),
    {
        if !self.is_role_consistent() {
            return RegistrationStep::Failed(self, EscrowError::InvalidContract);
        }
        let payload = match contract_message(&self.escrow_contract) {
            Ok(payload) => payload,
            Err(e) => {
                return RegistrationStep::Failed(self, e);
            },
        };
        let timeout_secs = nostr_client.response_timeout_secs();
        match nostr_client.receive_escrow_message(MessageSource::Any, timeout_secs) {
            ReceiveStep::Pending(action) => RegistrationStep::Pending(
                TradeRegistration { client: self, stage: RegistrationStage::Arming, payload },
                action,
            ),
            ReceiveStep::Finished(outcome) => conclude_registration(self, outcome),
        }
    }
}

impl TradeRegistration {
    #[verifier::type_invariant]
    spec fn well_formed(self) -> bool {
        self@.well_formed()
    }

    pub fn stage(&self) -> (r: RegistrationStage)
        ensures
            r == self@.stage,
            self@.well_formed(),
    {
        proof {
            use_type_invariant(self);
        }
        self.stage
    }

    fn follow(self, step: ReceiveStep) -> (r: RegistrationStep)
        ensures
            r@ == registration_follow(self@, step@),
    {
        proof {
            use_type_invariant(&self);
        }
        match step {
            ReceiveStep::Pending(action) => RegistrationStep::Pending(
                TradeRegistration {
                    client: self.client,
                    stage: RegistrationStage::Waiting,
                    payload: self.payload,
                },
                action,
            ),
            ReceiveStep::Finished(outcome) => conclude_registration(self.client, outcome),
        }
    }

    /// Carries the registration on after `event`. See
    /// [`registration_transition`]. The contract is sent only while the
    /// subscription for the answer is open, and the registration ends only
    /// with the subscription closed.
    pub fn resume(self, nostr_client: &mut NostrClient, event: Event) -> (r: RegistrationStep)
        ensures
            (final(nostr_client)@.listener, r@) == registration_transition(
                self@,
                old(nostr_client)@.listener,
                event@,
            ),
            final(nostr_client)@ == old(nostr_client)@.with_listener(final(nostr_client)@.listener),
            r@ matches RegistrationStepView::Pending(_, ActionView::Send(message)) ==> {
                &&& final(nostr_client)@.listener is Listening
                &&& message == self@.contract_message()
                &&& contract_json(self@.client.escrow_contract) == Some(message.payload)
            },
            !(r is Pending) ==> !final(nostr_client)@.listener.holds_subscription(),
    {
        proof {
            use_type_invariant(&self);
            lemma_send_needs_open_subscription(self@, old(nostr_client)@.listener, event@);
            lemma_registration_ends_released(self@, old(nostr_client)@.listener, event@);
        }
        match self.stage {
            RegistrationStage::Arming => {
                match nostr_client.resume_receive(event) {
                    ReceiveStep::Pending(Action::AwaitNotification { .. }) => {
                        let message = OutboundMessage {
                            recipient: self.client.escrow_contract.npubkey_coordinator().clone(),
                            payload: self.payload.clone(),
                        };
                        RegistrationStep::Pending(
                            TradeRegistration {
                                client: self.client,
                                stage: RegistrationStage::Sending,
                                payload: self.payload,
                            },
                            Action::Send(message),
                        )
                    },
                    step => self.follow(step),
                }
            },
            RegistrationStage::Sending => {
                match (event, nostr_client.listening_timeout()) {
                    (Event::Sent, Some(timeout_secs)) => RegistrationStep::Pending(
                        TradeRegistration {
                            client: self.client,
                            stage: RegistrationStage::Waiting,
                            payload: self.payload,
                        },
                        Action::AwaitNotification { timeout_secs },
                    ),
                    _ => {
                        let step = nostr_client.abort_receive(EscrowError::TransportError);
                        self.follow(step)
                    },
                }
            },
            RegistrationStage::Waiting => {
                let step = nostr_client.resume_receive(event);
                self.follow(step)
            },
        }
    }
}

/// A registration asks to send only while the subscription for the answer
/// is open, and what it sends is its contract message to the coordinator.
pub proof fn lemma_send_needs_open_subscription(
    registration: TradeRegistrationView,
    listener: ListenerView,
    event: EventView,
)
    ensures
        registration_transition(registration, listener, event).1 matches RegistrationStepView::Pending(
            _,
            ActionView::Send(message),
        ) ==> registration_transition(registration, listener, event).0 is Listening && message
            == registration.contract_message(),
{
}

/// A registration that begins asks for its subscription or fails: it never
/// begins by sending.
pub proof fn lemma_registration_begins_listening(
    client: InitEscrowClientView,
    nostr: NostrClientView,
)
    ensures
        !(registration_begin(client, nostr).1 matches RegistrationStepView::Pending(
            _,
            ActionView::Send(_),
        )),
        nostr.listener is Idle && registration_begin(client, nostr).1 is Pending
            ==> registration_begin(client, nostr).0 is Subscribing,
{
}

/// Once a registration has ended, in a client or in an error, no
/// subscription is left open.
pub proof fn lemma_registration_ends_released(
    registration: TradeRegistrationView,
    listener: ListenerView,
    event: EventView,
)
    ensures
        !(registration_transition(registration, listener, event).1 is Pending)
            ==> registration_transition(registration, listener, event).0 is Idle,
{
}

/// A registration that began with an idle listener stays in step with the
/// listener for as long as it goes on: while it is pending a subscription is
/// held, and the contract once sent is followed by the wait for the answer.
pub proof fn lemma_registration_stays_in_step(
    registration: TradeRegistrationView,
    listener: ListenerView,
    event: EventView,
)
    requires
        registration.in_step_with(listener),
    ensures
        registration_transition(registration, listener, event).1 matches RegistrationStepView::Pending(
            next,
            _,
        ) ==> next.in_step_with(registration_transition(registration, listener, event).0),
        registration.stage == RegistrationStage::Sending && event is Sent ==> ({
            &&& registration_transition(registration, listener, event).1 matches RegistrationStepView::Pending(
                next,
                ActionView::AwaitNotification { .. },
            )
            &&& next.stage == RegistrationStage::Waiting
        }),
{
}

/// A registration that begins with an idle listener is in step with it.
pub proof fn lemma_registration_begins_in_step(
    client: InitEscrowClientView,
    nostr: NostrClientView,
)
    requires
        nostr.listener is Idle,
    ensures
        registration_begin(client, nostr).1 matches RegistrationStepView::Pending(next, _)
            ==> next.in_step_with(registration_begin(client, nostr).0),
        !(registration_begin(client, nostr).1 is Pending) ==> registration_begin(client, nostr).0
            is Idle,
{
}

/// A registration that fails hands back the client it began with: a trade
/// does not advance on an error, and nothing of it is changed.
pub proof fn lemma_failed_registration_keeps_client(
    registration: TradeRegistrationView,
    listener: ListenerView,
    event: EventView,
)
    ensures
        registration_transition(registration, listener, event).1 matches RegistrationStepView::Failed(
            client,
            _,
        ) ==> client == registration.client,
        registration_transition(registration, listener, event).1 matches RegistrationStepView::Pending(
            next,
            _,
        ) ==> next.client == registration.client && next.payload == registration.payload,
{
}

/// A registration ends in a registered client only when its wait was
/// decided by a message that holds a registration, and the client then
/// holds that registration and the contract it began with.
pub proof fn lemma_registered_from_message(
    registration: TradeRegistrationView,
    listener: ListenerView,
    event: EventView,
)
    ensures
        registration_transition(registration, listener, event).1 matches RegistrationStepView::Registered(
            client,
        ) ==> client.prev_state == registration.client && event is Unsubscribed && (
        listener matches ListenerView::Releasing { outcome: Ok(message) } && parsed_registration(
            message,
        ) == Ok::<EscrowRegistrationView, EscrowError>(client.escrow_registration)),
{
}

/// Where an exchange under way stands.
#[derive(Debug, PartialEq, Eq)]
pub enum ExchangeStage {
    /// Buyer: the wallet was asked for the token.
    Minting,
    /// Buyer: the token is on its way to the seller.
    Sending { payload: String },
    /// Seller: the wait for the buyer's message runs.
    Receiving,
    /// Seller: the wallet was asked to read the payload.
    Inspecting,
}

pub enum ExchangeStageView {
    Minting,
    Sending { payload: Seq<char> },
    Receiving,
    Inspecting,
}

impl View for ExchangeStage {
    type V = ExchangeStageView;

    open spec fn view(&self) -> ExchangeStageView {
        match self {
            ExchangeStage::Minting => ExchangeStageView::Minting,
            ExchangeStage::Sending { payload } => ExchangeStageView::Sending { payload: payload@ },
            ExchangeStage::Receiving => ExchangeStageView::Receiving,
            ExchangeStage::Inspecting => ExchangeStageView::Inspecting,
        }
    }
}

pub struct TokenExchangeView {
    pub client: RegisteredEscrowClientView,
    pub stage: ExchangeStageView,
}

impl TokenExchangeView {
    /// A buyer issues and sends, a seller receives and checks.
    pub open spec fn well_formed(self) -> bool {
        match self.client.prev_state.trade_mode {
            TradeMode::Buyer => self.stage is Minting || self.stage is Sending,
            TradeMode::Seller => self.stage is Receiving || self.stage is Inspecting,
        }
    }

    /// Whether the listener is where this stage of the exchange leaves it:
    /// only the seller's wait for the token holds a subscription.
    pub open spec fn in_step_with(self, listener: ListenerView) -> bool {
        match self.stage {
            ExchangeStageView::Receiving => listener.holds_subscription(),
            _ => listener is Idle,
        }
    }

    pub open spec fn at(self, stage: ExchangeStageView) -> TokenExchangeView {
        TokenExchangeView { stage, ..self }
    }

    pub open spec fn contract(self) -> TradeContractView {
        self.client.prev_state.escrow_contract
    }
}

/// An exchange of the escrow token under way.
#[derive(Debug)]
pub struct TokenExchange {
    client: RegisteredEscrowClient,
    stage: ExchangeStage,
}

impl View for TokenExchange {
    type V = TokenExchangeView;

    closed spec fn view(&self) -> TokenExchangeView {
        TokenExchangeView { client: self.client@, stage: self.stage@ }
    }
}

/// The answer of an exchange to an event.
#[derive(Debug)]
pub enum ExchangeStep {
    /// Carry out the request, then resume with its outcome.
    Pending(TokenExchange, Action),
    /// The token has changed hands.
    Exchanged(TokenExchangedEscrowClient),
    /// The token has not changed hands; the client is handed back as it was.
    Failed(RegisteredEscrowClient, EscrowError),
}

pub enum ExchangeStepView {
    Pending(TokenExchangeView, ActionView),
    Exchanged(TokenExchangedEscrowClientView),
    Failed(RegisteredEscrowClientView, EscrowError),
}

impl View for ExchangeStep {
    type V = ExchangeStepView;

    open spec fn view(&self) -> ExchangeStepView {
        match self {
            ExchangeStep::Pending(exchange, action) => ExchangeStepView::Pending(
                exchange@,
                action@,
            ),
            ExchangeStep::Exchanged(client) => ExchangeStepView::Exchanged(client@),
            ExchangeStep::Failed(client, e) => ExchangeStepView::Failed(client@, *e),
        }
    }
}

/// How the seller's side goes on with what its wait answered: the wait's
/// request is passed on, a message is handed to the wallet to be read, and
/// an error of the wait ends the exchange.
pub open spec fn exchange_follow(exchange: TokenExchangeView, step: ReceiveStepView) -> ExchangeStepView {
    match step {
        ReceiveStepView::Pending(action) => ExchangeStepView::Pending(
            exchange.at(ExchangeStageView::Receiving),
            action,
        ),
        ReceiveStepView::Finished(Ok(payload)) => ExchangeStepView::Pending(
            exchange.at(ExchangeStageView::Inspecting),
            ActionView::InspectToken(payload),
        ),
        ReceiveStepView::Finished(Err(e)) => ExchangeStepView::Failed(exchange.client, e),
    }
}

/// How an exchange begins: the listener after the step, and the answer.
///
/// A buyer asks its wallet for the token that belongs to the trade. A
/// seller begins the wait for a message from the buyer, bounded by the
/// client's response timeout.
pub open spec fn exchange_begin(client: RegisteredEscrowClientView, nostr: NostrClientView) -> (
    ListenerView,
    ExchangeStepView,
) {
    match client.prev_state.trade_mode {
        TradeMode::Buyer => (
            nostr.listener,
            ExchangeStepView::Pending(
                TokenExchangeView { client, stage: ExchangeStageView::Minting },
                ActionView::MintToken(
                    minted_token(client.prev_state.escrow_contract, client.escrow_registration),
                ),
            ),
        ),
        TradeMode::Seller => {
            let begun = receive_begin(
                nostr.public_key,
                nostr.listener,
                MessageSourceView::From(client.prev_state.escrow_contract.npubkey_buyer),
                nostr.response_timeout_secs,
            );
            (
                begun.0,
                exchange_follow(
                    TokenExchangeView { client, stage: ExchangeStageView::Receiving },
                    begun.1,
                ),
            )
        },
    }
}

/// How an exchange ends once the wallet has read the payload: in a client
/// that holds the token where the token belongs to the trade, else in the
/// error of [`validated_token`], the registered client handed back as it was.
pub open spec fn exchange_inspected(
    client: RegisteredEscrowClientView,
    received: Option<EscrowTokenView>,
) -> ExchangeStepView {
    match validated_token(received, client.prev_state.escrow_contract, client.escrow_registration) {
        Ok(token) => ExchangeStepView::Exchanged(
            TokenExchangedEscrowClientView {
                prev_state: client,
                token: ExchangedTokenView::Received(token),
            },
        ),
        Err(e) => ExchangeStepView::Failed(client, e),
    }
}

/// How an exchange goes on after an event: the listener after the step, and
/// the answer.
///
/// - Minting: `TokenMinted` has the payload sent to the seller as it is;
///   anything else fails with `WalletError`.
/// - Sending: `Sent` ends the exchange, the client holding the payload;
///   anything else fails with `TransportError`.
/// - Receiving: the event goes to the wait, see [`exchange_follow`].
/// - Inspecting: `TokenInspected` ends the exchange, see
///   [`exchange_inspected`]; anything else fails with `ProtocolError`.
pub open spec fn exchange_transition(
    exchange: TokenExchangeView,
    listener: ListenerView,
    event: EventView,
) -> (ListenerView, ExchangeStepView) {
    match exchange.stage {
        ExchangeStageView::Minting => (
            listener,
            match event {
                EventView::TokenMinted(payload) => ExchangeStepView::Pending(
                    exchange.at(ExchangeStageView::Sending { payload }),
                    ActionView::Send(
                        OutboundMessageView {
                            recipient: exchange.contract().npubkey_seller,
                            payload,
                        },
                    ),
                ),
                _ => ExchangeStepView::Failed(exchange.client, EscrowError::WalletError),
            },
        ),
        ExchangeStageView::Sending { payload } => (
            listener,
            match event {
                EventView::Sent => ExchangeStepView::Exchanged(
                    TokenExchangedEscrowClientView {
                        prev_state: exchange.client,
                        token: ExchangedTokenView::Sent(payload),
                    },
                ),
                _ => ExchangeStepView::Failed(exchange.client, EscrowError::TransportError),
            },
        ),
        ExchangeStageView::Receiving => {
            let next = receive_transition(listener, event);
            (next.0, exchange_follow(exchange, next.1))
        },
        ExchangeStageView::Inspecting => (
            listener,
            match event {
                EventView::TokenInspected(received) => exchange_inspected(
                    exchange.client,
                    received,
                ),
                _ => ExchangeStepView::Failed(exchange.client, EscrowError::ProtocolError),
            },
        ),
    }
}

fn follow_exchange(client: RegisteredEscrowClient, step: ReceiveStep) -> (r: ExchangeStep)
    requires
        client@.prev_state.trade_mode == TradeMode::Seller,
    ensures
        r@ == exchange_follow(
            TokenExchangeView { client: client@, stage: ExchangeStageView::Receiving },
            step@,
        ),
{
    match step {
        ReceiveStep::Pending(action) => ExchangeStep::Pending(
            TokenExchange { client, stage: ExchangeStage::Receiving },
            action,
        ),
        ReceiveStep::Finished(Ok(payload)) => ExchangeStep::Pending(
            TokenExchange { client, stage: ExchangeStage::Inspecting },
            Action::InspectToken(payload),
        ),
        ReceiveStep::Finished(Err(e)) => ExchangeStep::Failed(client, e),
    }
}

impl RegisteredEscrowClient {
    #[verifier::type_invariant]
    spec fn well_formed(self) -> bool {
        self@.prev_state.role_consistent()
    }

    pub fn escrow_contract(&self) -> (r: &TradeContract)
        ensures
            r@ == self@.prev_state.escrow_contract,
    {
        &self.prev_state.escrow_contract
    }

    pub fn escrow_registration(&self) -> (r: &EscrowRegistration)
        ensures
            r@ == self@.escrow_registration,
    {
        &self.escrow_registration
    }

    /// The side of the trade. The wallet of a registered client trades
    /// under the key that the contract names for this side.
    pub fn trade_mode(&self) -> (r: TradeMode)
        ensures
            r == self@.prev_state.trade_mode,
            self@.prev_state.role_consistent(),
    {
        proof {
            use_type_invariant(self);
        }
        self.prev_state.trade_mode
    }

    /// Begins the exchange of the escrow token. See [`exchange_begin`].
    pub fn exchange_trade_token(self, nostr_client: &mut NostrClient) -> (r: ExchangeStep)
        ensures
            (final(nostr_client)@.listener, r@) == exchange_begin(self@, old(nostr_client)@),
            final(nostr_client)@ == old(nostr_client)@.with_listener(final(nostr_client)@.listener),
            !(r is Exchanged),
    {
        match self.prev_state.trade_mode {
            TradeMode::Buyer => {
                let token = self.prev_state.ecash_wallet.mint_escrow_token(
                    &self.prev_state.escrow_contract,
                    &self.escrow_registration,
                );
                ExchangeStep::Pending(
                    TokenExchange { client: self, stage: ExchangeStage::Minting },
                    Action::MintToken(token),
                )
            },
            TradeMode::Seller => {
                let buyer = self.prev_state.escrow_contract.npubkey_buyer().clone();
                let timeout_secs = nostr_client.response_timeout_secs();
                let step = nostr_client.receive_escrow_message(
                    MessageSource::From(buyer),
                    timeout_secs,
                );
                follow_exchange(self, step)
            },
        }
    }
}

impl TokenExchange {
    #[verifier::type_invariant]
    spec fn well_formed(self) -> bool {
        self@.well_formed()
    }

    /// Carries the exchange on after `event`. See [`exchange_transition`].
    /// A seller comes out of the exchange only with a token that belongs to
    /// its trade, and no wait of the exchange leaves a subscription open.
    pub fn resume(self, nostr_client: &mut NostrClient, event: Event) -> (r: ExchangeStep)
        ensures
            (final(nostr_client)@.listener, r@) == exchange_transition(
                self@,
                old(nostr_client)@.listener,
                event@,
            ),
            final(nostr_client)@ == old(nostr_client)@.with_listener(final(nostr_client)@.listener),
            self@.well_formed(),
            r@ matches ExchangeStepView::Exchanged(client) ==> client.token_consistent(),
    {
        proof {
            use_type_invariant(&self);
            lemma_exchanged_token_is_consistent(self@, old(nostr_client)@.listener, event@);
        }
        match self.stage {
            ExchangeStage::Minting => send_trade_token(self.client, None, event),
            ExchangeStage::Sending { payload } => send_trade_token(self.client, Some(payload), event),
            ExchangeStage::Receiving => receive_and_validate_trade_token(
                self.client,
                false,
                nostr_client,
                event,
            ),
            ExchangeStage::Inspecting => receive_and_validate_trade_token(
                self.client,
                true,
                nostr_client,
                event,
            ),
        }
    }
}

/// The buyer's side of the exchange. `minted` is the payload that the
/// wallet issued, once it has: the payload is then on its way to the seller.
fn send_trade_token(client: RegisteredEscrowClient, minted: Option<String>, event: Event) -> (r:
    ExchangeStep)
    requires
        client@.prev_state.trade_mode == TradeMode::Buyer,
    ensures
        r@ == exchange_transition(
            TokenExchangeView {
                client: client@,
                stage: match minted {
                    None => ExchangeStageView::Minting,
                    Some(payload) => ExchangeStageView::Sending { payload: payload@ },
                },
            },
            ListenerView::Idle,
            event@,
        ).1,
{
    match minted {
        None => match event {
            Event::TokenMinted(payload) => {
                let message = OutboundMessage {
                    recipient: client.prev_state.escrow_contract.npubkey_seller().clone(),
                    payload: payload.clone(),
                };
                ExchangeStep::Pending(
                    TokenExchange { client, stage: ExchangeStage::Sending { payload } },
                    Action::Send(message),
                )
            },
            _ => ExchangeStep::Failed(client, EscrowError::WalletError),
        },
        Some(payload) => match event {
            Event::Sent => ExchangeStep::Exchanged(
                TokenExchangedEscrowClient {
                    prev_state: client,
                    token: ExchangedToken::Sent(payload),
                },
            ),
            _ => ExchangeStep::Failed(client, EscrowError::TransportError),
        },
    }
}

/// The seller's side of the exchange. `received` says whether the buyer's
/// message has arrived and the wallet was asked to read it.
fn receive_and_validate_trade_token(
    client: RegisteredEscrowClient,
    received: bool,
    nostr_client: &mut NostrClient,
    event: Event,
) -> (r: ExchangeStep)
    requires
        client@.prev_state.trade_mode == TradeMode::Seller,
    ensures
        (final(nostr_client)@.listener, r@) == exchange_transition(
            TokenExchangeView {
                client: client@,
                stage: if received {
                    ExchangeStageView::Inspecting
                } else {
                    ExchangeStageView::Receiving
                },
            },
            old(nostr_client)@.listener,
            event@,
        ),
        final(nostr_client)@ == old(nostr_client)@.with_listener(final(nostr_client)@.listener),
{
    if !received {
        let step = nostr_client.resume_receive(event);
        follow_exchange(client, step)
    } else {
        match event {
            Event::TokenInspected(token) => {
                let verdict = client.prev_state.ecash_wallet.validate_escrow_token(
                    token,
                    &client.prev_state.escrow_contract,
                    &client.escrow_registration,
                );
                match verdict {
                    Ok(token) => ExchangeStep::Exchanged(
                        TokenExchangedEscrowClient {
                            prev_state: client,
                            token: ExchangedToken::Received(token),
                        },
                    ),
                    Err(e) => ExchangeStep::Failed(client, e),
                }
            },
            _ => ExchangeStep::Failed(client, EscrowError::ProtocolError),
        }
    }
}

impl TokenExchangedEscrowClient {
    #[verifier::type_invariant]
    spec fn well_formed(self) -> bool {
        self@.token_consistent()
    }

    pub fn escrow_contract(&self) -> (r: &TradeContract)
        ensures
            r@ == self@.prev_state.prev_state.escrow_contract,
    {
        self.prev_state.escrow_contract()
    }

    pub fn escrow_registration(&self) -> (r: &EscrowRegistration)
        ensures
            r@ == self@.prev_state.escrow_registration,
    {
        self.prev_state.escrow_registration()
    }

    pub fn trade_mode(&self) -> (r: TradeMode)
        ensures
            r == self@.prev_state.prev_state.trade_mode,
    {
        self.prev_state.trade_mode()
    }

    /// The token that changed hands. Every client past the exchange holds
    /// one that fits its side: see
    /// [`TokenExchangedEscrowClientView::token_consistent`].
    pub fn token(&self) -> (r: &ExchangedToken)
        ensures
            r@ == self@.token,
            self@.token_consistent(),
    {
        proof {
            use_type_invariant(self);
        }
        &self.token
    }

    /// Ends the trade. Delivery, release and dispute are not part of this
    /// client yet, so the trade is left `Pending`.
    pub fn do_your_trade_duties(self) -> (r: Result<TradeOutcome, EscrowError>)
        ensures
            r == Ok::<TradeOutcome, EscrowError>(TradeOutcome::Pending),
    {
        Ok(TradeOutcome::Pending)
    }
}

/// An exchange ends in a client only with a token that fits the client's
/// side: for a seller, one that locks the contract's amount and names the
/// registration's escrow and coordinator key.
pub proof fn lemma_exchanged_token_is_consistent(
    exchange: TokenExchangeView,
    listener: ListenerView,
    event: EventView,
)
    requires
        exchange.well_formed(),
    ensures
        exchange_transition(exchange, listener, event).1 matches ExchangeStepView::Exchanged(client)
            ==> client.token_consistent() && client.prev_state == exchange.client,
        exchange_transition(exchange, listener, event).1 matches ExchangeStepView::Pending(next, _)
            ==> next.well_formed() && next.client == exchange.client,
{
}

/// A seller's exchange fails with `ValidationError` on every token that
/// does not belong to its trade, and never ends in a client on one.
pub proof fn lemma_foreign_token_is_rejected(
    exchange: TokenExchangeView,
    listener: ListenerView,
    token: EscrowTokenView,
)
    requires
        exchange.stage is Inspecting,
        !token_bound_to(token, exchange.contract(), exchange.client.escrow_registration),
    ensures
        exchange_transition(exchange, listener, EventView::TokenInspected(Some(token))).1
            == ExchangeStepView::Failed(exchange.client, EscrowError::ValidationError),
{
}

/// A seller's wait leaves no subscription open: when the exchange leaves the
/// wait, to read the payload or with an error, the listener is idle.
pub proof fn lemma_exchange_wait_is_released(
    exchange: TokenExchangeView,
    listener: ListenerView,
    event: EventView,
)
    requires
        exchange.stage is Receiving,
    ensures
        !(exchange_transition(exchange, listener, event).1 matches ExchangeStepView::Pending(next, _)
            && next.stage is Receiving) ==> exchange_transition(exchange, listener, event).0
            is Idle,
{
}

/// The buyer sends the payload that its wallet issued, unchanged, to the
/// seller.
pub proof fn lemma_buyer_sends_minted_payload(
    exchange: TokenExchangeView,
    listener: ListenerView,
    payload: Seq<char>,
)
    requires
        exchange.stage is Minting,
    ensures
        exchange_transition(exchange, listener, EventView::TokenMinted(payload)).1 matches ExchangeStepView::Pending(
            _,
            ActionView::Send(message),
        ) && message.payload == payload && message.recipient == exchange.contract().npubkey_seller,
{
}

/// An exchange that began with an idle listener stays in step with it, and
/// ends with the listener idle: only the seller's wait holds a subscription.
pub proof fn lemma_exchange_stays_in_step(
    exchange: TokenExchangeView,
    listener: ListenerView,
    event: EventView,
)
    requires
        exchange.in_step_with(listener),
    ensures
        exchange_transition(exchange, listener, event).1 matches ExchangeStepView::Pending(next, _)
            ==> next.in_step_with(exchange_transition(exchange, listener, event).0),
        !(exchange_transition(exchange, listener, event).1 is Pending) ==> exchange_transition(
            exchange,
            listener,
            event,
        ).0 is Idle,
{
}

/// An exchange that begins with an idle listener is in step with it.
pub proof fn lemma_exchange_begins_in_step(client: RegisteredEscrowClientView, nostr: NostrClientView)
    requires
        nostr.listener is Idle,
    ensures
        exchange_begin(client, nostr).1 matches ExchangeStepView::Pending(next, _)
            ==> next.in_step_with(exchange_begin(client, nostr).0) && next.well_formed(),
        !(exchange_begin(client, nostr).1 is Pending) ==> exchange_begin(client, nostr).0 is Idle,
{
}

/// An exchange that fails hands back the registered client it began with.
pub proof fn lemma_failed_exchange_keeps_client(
    exchange: TokenExchangeView,
    listener: ListenerView,
    event: EventView,
)
    ensures
        exchange_transition(exchange, listener, event).1 matches ExchangeStepView::Failed(client, _)
            ==> client == exchange.client,
{
}

} // verus!
