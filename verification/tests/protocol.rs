use std::collections::VecDeque;

use escrow_client::ecash::{ClientEcashWallet, EscrowToken};
use escrow_client::error::EscrowError;
use escrow_client::escrow_client::{
    ExchangeStep, ExchangedToken, InitEscrowClient, RegisteredEscrowClient, RegistrationStage,
    RegistrationStep, TokenExchangedEscrowClient, TradeOutcome,
};
use escrow_client::model::{PublicKey, TradeContract, TradeMode};
use escrow_client::nostr::{
    default_relays, Action, Event, MessageFilter, MessageSource, NostrClient, Notification,
    ReceiveStep, DEFAULT_TIMEOUT_SECS, GIFT_WRAP_KIND, PRIVATE_DIRECT_MESSAGE_KIND,
};
use escrow_client::wire::contract_message;

const KEY_G: &str = "0279be667ef9dcbbac55a06295ce870b07029bfcdb2dce28d959f2815b16f81798";
const KEY_SELLER: &str = "02c6047f9441ed7d6d3045406e95c07cd85c778e4b8cef3ca7abac09b95c709ee5";
const KEY_BUYER: &str = "02f9308a019258c31049344f85f89d5229b531c845836f99b08601f113bce036f9";

fn party(c: char) -> PublicKey {
    PublicKey::from_hex(&c.to_string().repeat(64)).unwrap()
}

fn seller() -> PublicKey {
    party('a')
}

fn buyer() -> PublicKey {
    party('b')
}

fn coordinator() -> PublicKey {
    party('c')
}

fn contract(amount: u64) -> TradeContract {
    TradeContract::new(
        String::from("one melon"),
        amount,
        seller(),
        buyer(),
        coordinator(),
        3600,
        String::from(KEY_SELLER),
        String::from(KEY_BUYER),
    )
    .unwrap()
}

fn client(mode: TradeMode, amount: u64) -> InitEscrowClient {
    let key = match mode {
        TradeMode::Buyer => KEY_BUYER,
        TradeMode::Seller => KEY_SELLER,
    };
    InitEscrowClient::new(ClientEcashWallet::new(String::from(key)), contract(amount), mode)
}

fn registration_text(id: &str) -> String {
    format!(
        "{{\"escrow_id_hex\":\"{}\",\"coordinator_escrow_pubkey\":\"{}\",\"escrow_start_time\":1720000000}}",
        id, KEY_G
    )
}

fn direct_message(sender: PublicKey, content: &str) -> Notification {
    Notification::Message {
        kind: PRIVATE_DIRECT_MESSAGE_KIND,
        sender,
        content: String::from(content),
    }
}

fn token_payload(token: &EscrowToken) -> String {
    format!("{}|{}|{}", token.amount(), token.escrow_id_hex(), token.coordinator_escrow_pubkey())
}

fn token_of_payload(payload: &str) -> Option<EscrowToken> {
    let parts: Vec<&str> = payload.split('|').collect();
    if parts.len() != 3 {
        return None;
    }
    let amount = parts[0].parse::<u64>().ok()?;
    Some(EscrowToken::new(amount, String::from(parts[1]), String::from(parts[2])))
}

/// Relays and wallet of a test. A notification reaches the inbox only while
/// a subscription is open; what is sent to the coordinator is answered at
/// once with `reply`.
struct World {
    subscribed: bool,
    filters: Vec<MessageFilter>,
    unsubscribed: usize,
    inbox: VecDeque<Notification>,
    sent: Vec<(PublicKey, String)>,
    reply: Option<String>,
    fail_subscribe: bool,
    fail_send: bool,
    fail_mint: bool,
    waits: Vec<u64>,
    log: Vec<&'static str>,
}

fn world() -> World {
    World {
        subscribed: false,
        filters: Vec::new(),
        unsubscribed: 0,
        inbox: VecDeque::new(),
        sent: Vec::new(),
        reply: None,
        fail_subscribe: false,
        fail_send: false,
        fail_mint: false,
        waits: Vec::new(),
        log: Vec::new(),
    }
}

fn deliver(w: &mut World, notification: Notification) {
    if w.subscribed {
        w.inbox.push_back(notification);
    }
}

fn perform(w: &mut World, action: Action) -> Event {
    match action {
        Action::Subscribe(filter) => {
            w.log.push("subscribe");
            w.filters.push(filter);
            if w.fail_subscribe {
                Event::SubscribeFailed
            } else {
                assert!(!w.subscribed);
                w.subscribed = true;
                Event::Subscribed
            }
        }
        Action::AwaitNotification { timeout_secs } => {
            w.log.push("await");
            assert!(w.subscribed);
            w.waits.push(timeout_secs);
            match w.inbox.pop_front() {
                Some(n) => Event::Notification(n),
                None => Event::TimedOut,
            }
        }
        Action::Unsubscribe => {
            w.log.push("unsubscribe");
            assert!(w.subscribed);
            w.subscribed = false;
            w.unsubscribed += 1;
            w.inbox.clear();
            Event::Unsubscribed
        }
        Action::Send(message) => {
            w.log.push("send");
            if w.fail_send {
                return Event::SendFailed;
            }
            let to_coordinator = message.recipient == coordinator();
            w.sent.push((message.recipient, message.payload));
            if to_coordinator {
                if let Some(reply) = w.reply.take() {
                    deliver(w, direct_message(coordinator(), &reply));
                }
            }
            Event::Sent
        }
        Action::MintToken(token) => {
            w.log.push("mint");
            if w.fail_mint {
                Event::MintFailed
            } else {
                Event::TokenMinted(token_payload(&token))
            }
        }
        Action::InspectToken(payload) => {
            w.log.push("inspect");
            Event::TokenInspected(token_of_payload(&payload))
        }
    }
}

fn run_registration(
    init: InitEscrowClient,
    nostr: &mut NostrClient,
    w: &mut World,
) -> Result<RegisteredEscrowClient, EscrowError> {
    let mut step = init.register_trade(nostr);
    loop {
        match step {
            RegistrationStep::Pending(registration, action) => {
                let event = perform(w, action);
                step = registration.resume(nostr, event);
            }
            RegistrationStep::Registered(registered) => return Ok(registered),
            RegistrationStep::Failed(_, e) => return Err(e),
        }
    }
}

fn run_exchange(
    registered: RegisteredEscrowClient,
    nostr: &mut NostrClient,
    w: &mut World,
) -> Result<TokenExchangedEscrowClient, EscrowError> {
    let mut step = registered.exchange_trade_token(nostr);
    loop {
        match step {
            ExchangeStep::Pending(exchange, action) => {
                let event = perform(w, action);
                step = exchange.resume(nostr, event);
            }
            ExchangeStep::Exchanged(exchanged) => return Ok(exchanged),
            ExchangeStep::Failed(_, e) => return Err(e),
        }
    }
}

fn run_receive(
    nostr: &mut NostrClient,
    w: &mut World,
    source: MessageSource,
    timeout_secs: u64,
) -> Result<String, EscrowError> {
    let mut step = nostr.receive_escrow_message(source, timeout_secs);
    loop {
        match step {
            ReceiveStep::Pending(action) => {
                let event = perform(w, action);
                step = nostr.resume_receive(event);
            }
            ReceiveStep::Finished(outcome) => return outcome,
        }
    }
}

fn registered(mode: TradeMode, amount: u64, id: &str, own: PublicKey) -> (RegisteredEscrowClient, NostrClient) {
    let mut nostr = NostrClient::new(own);
    let mut w = world();
    w.reply = Some(registration_text(id));
    let r = run_registration(client(mode, amount), &mut nostr, &mut w).unwrap();
    (r, nostr)
}

#[test]
fn new_client_keeps_what_it_was_given() {
    let init = client(TradeMode::Seller, 100);
    assert_eq!(init.trade_mode(), TradeMode::Seller);
    assert_eq!(init.escrow_contract(), &contract(100));
    assert_eq!(init.ecash_wallet().trade_pubkey(), KEY_SELLER);
    assert!(init.is_role_consistent());
    let odd = InitEscrowClient::new(
        ClientEcashWallet::new(String::from(KEY_SELLER)),
        contract(100),
        TradeMode::Buyer,
    );
    assert!(!odd.is_role_consistent());
}

#[test]
fn client_has_its_relays_and_identity() {
    let nostr = NostrClient::new(buyer());
    assert_eq!(nostr.public_key(), buyer());
    assert_eq!(
        nostr.relays(),
        &vec![
            String::from("wss://relay.damus.io"),
            String::from("wss://relay.primal.net"),
            String::from("wss://relay.nostr.band"),
            String::from("wss://ftp.halifax.rwth-aachen.de/nostr"),
            String::from("wss://nostr.mom"),
        ]
    );
    assert_eq!(nostr.relays(), &default_relays());
    assert!(!nostr.is_listening());
    let other = NostrClient::with_relays(seller(), vec![String::from("wss://example.org")]);
    assert_eq!(other.relays(), &vec![String::from("wss://example.org")]);
    assert_eq!(other.public_key(), seller());
}

#[test]
fn fast_coordinator_reply_is_observed() {
    let mut nostr = NostrClient::new(buyer());
    let mut w = world();
    w.reply = Some(registration_text("abc123"));
    let registered = run_registration(client(TradeMode::Buyer, 100), &mut nostr, &mut w).unwrap();
    assert_eq!(registered.escrow_registration().escrow_id_hex(), "abc123");
    assert_eq!(registered.escrow_registration().coordinator_escrow_pubkey(), KEY_G);
    assert_eq!(registered.escrow_registration().escrow_start_time(), 1_720_000_000);
    assert_eq!(w.log, vec!["subscribe", "send", "await", "unsubscribe"]);
    assert!(!w.subscribed);
    assert!(!nostr.is_listening());
}

#[test]
fn registration_sends_the_contract_to_the_coordinator() {
    let mut nostr = NostrClient::new(seller());
    let mut w = world();
    w.reply = Some(registration_text("abc123"));
    let registered = run_registration(client(TradeMode::Seller, 100), &mut nostr, &mut w).unwrap();
    assert_eq!(w.sent, vec![(coordinator(), contract_message(&contract(100)).unwrap())]);
    assert_eq!(
        w.filters,
        vec![MessageFilter { kind: GIFT_WRAP_KIND, recipient: seller(), limit: 0 }]
    );
    assert_eq!(GIFT_WRAP_KIND, 1059);
    assert_eq!(w.waits, vec![10]);
    assert_eq!(DEFAULT_TIMEOUT_SECS, 10);
    assert_eq!(registered.escrow_contract(), &contract(100));
    assert_eq!(registered.trade_mode(), TradeMode::Seller);
}

#[test]
fn registration_step_by_step() {
    let mut nostr = NostrClient::new(buyer());
    let step = client(TradeMode::Buyer, 100).register_trade(&mut nostr);
    let RegistrationStep::Pending(registration, action) = step else {
        panic!("registration did not begin");
    };
    assert_eq!(registration.stage(), RegistrationStage::Arming);
    assert_eq!(
        action,
        Action::Subscribe(MessageFilter { kind: 1059, recipient: buyer(), limit: 0 })
    );
    assert!(nostr.is_listening());
    assert_eq!(nostr.listening_timeout(), None);

    let RegistrationStep::Pending(registration, action) = registration.resume(&mut nostr, Event::Subscribed)
    else {
        panic!("registration ended early");
    };
    assert_eq!(registration.stage(), RegistrationStage::Sending);
    let Action::Send(message) = action else {
        panic!("the contract was not sent");
    };
    assert_eq!(message.recipient, coordinator());
    assert_eq!(message.payload, contract_message(&contract(100)).unwrap());
    assert_eq!(nostr.listening_timeout(), Some(10));

    let RegistrationStep::Pending(registration, action) = registration.resume(&mut nostr, Event::Sent)
    else {
        panic!("registration ended early");
    };
    assert_eq!(registration.stage(), RegistrationStage::Waiting);
    assert_eq!(action, Action::AwaitNotification { timeout_secs: 10 });

    let reply = Event::Notification(direct_message(coordinator(), &registration_text("abc123")));
    let RegistrationStep::Pending(registration, action) = registration.resume(&mut nostr, reply) else {
        panic!("registration ended with the subscription open");
    };
    assert_eq!(action, Action::Unsubscribe);
    assert!(nostr.is_listening());

    let RegistrationStep::Registered(registered) = registration.resume(&mut nostr, Event::Unsubscribed)
    else {
        panic!("registration failed");
    };
    assert!(!nostr.is_listening());
    assert_eq!(registered.escrow_registration().escrow_id_hex(), "abc123");
}

#[test]
fn registration_times_out_without_reply() {
    let mut nostr = NostrClient::new(buyer());
    let mut w = world();
    let r = run_registration(client(TradeMode::Buyer, 100), &mut nostr, &mut w);
    assert_eq!(r.err(), Some(EscrowError::TimeoutError));
    assert_eq!(w.log, vec!["subscribe", "send", "await", "unsubscribe"]);
    assert!(!w.subscribed);
    assert!(!nostr.is_listening());
}

#[test]
fn registration_fails_when_the_contract_cannot_be_sent() {
    let mut nostr = NostrClient::new(buyer());
    let mut w = world();
    w.fail_send = true;
    w.reply = Some(registration_text("abc123"));
    let r = run_registration(client(TradeMode::Buyer, 100), &mut nostr, &mut w);
    assert_eq!(r.err(), Some(EscrowError::TransportError));
    assert_eq!(w.log, vec!["subscribe", "send", "unsubscribe"]);
    assert!(!w.subscribed);
    assert!(!nostr.is_listening());
}

#[test]
fn registration_fails_when_it_cannot_subscribe() {
    let mut nostr = NostrClient::new(buyer());
    let mut w = world();
    w.fail_subscribe = true;
    let r = run_registration(client(TradeMode::Buyer, 100), &mut nostr, &mut w);
    assert_eq!(r.err(), Some(EscrowError::TransportError));
    assert_eq!(w.log, vec!["subscribe"]);
    assert!(w.sent.is_empty());
    assert!(!nostr.is_listening());
}

#[test]
fn registration_fails_on_a_reply_that_is_no_registration() {
    for reply in ["hello", "{}", "{\"escrow_id_hex\":\"abc123\"}"] {
        let mut nostr = NostrClient::new(buyer());
        let mut w = world();
        w.reply = Some(String::from(reply));
        let r = run_registration(client(TradeMode::Buyer, 100), &mut nostr, &mut w);
        assert_eq!(r.err(), Some(EscrowError::ProtocolError));
        assert!(!w.subscribed);
        assert!(!nostr.is_listening());
    }
}

#[test]
fn registration_needs_the_wallet_of_the_declared_side() {
    let mut nostr = NostrClient::new(buyer());
    let mut w = world();
    let odd = InitEscrowClient::new(
        ClientEcashWallet::new(String::from(KEY_SELLER)),
        contract(100),
        TradeMode::Buyer,
    );
    let r = run_registration(odd, &mut nostr, &mut w);
    assert_eq!(r.err(), Some(EscrowError::InvalidContract));
    assert!(w.log.is_empty());
    assert!(!nostr.is_listening());
}

#[test]
fn registration_does_not_begin_while_another_wait_runs() {
    let mut nostr = NostrClient::new(buyer());
    let first = nostr.receive_escrow_message(MessageSource::Any, 3);
    assert!(matches!(first, ReceiveStep::Pending(Action::Subscribe(_))));
    let step = client(TradeMode::Buyer, 100).register_trade(&mut nostr);
    assert!(matches!(step, RegistrationStep::Failed(_, EscrowError::TransportError)));
    assert!(nostr.is_listening());
}

#[test]
fn registration_passes_over_what_is_not_the_reply() {
    let mut nostr = NostrClient::new(buyer());
    let RegistrationStep::Pending(registration, _) = client(TradeMode::Buyer, 100).register_trade(&mut nostr)
    else {
        panic!("registration did not begin");
    };
    let RegistrationStep::Pending(registration, _) = registration.resume(&mut nostr, Event::Subscribed) else {
        panic!("registration ended early");
    };
    let RegistrationStep::Pending(mut registration, _) = registration.resume(&mut nostr, Event::Sent) else {
        panic!("registration ended early");
    };
    let noise = [
        Notification::Other,
        Notification::Message { kind: 1, sender: coordinator(), content: registration_text("abc123") },
        Notification::Message { kind: 1059, sender: coordinator(), content: registration_text("abc123") },
    ];
    for n in noise {
        let RegistrationStep::Pending(next, action) = registration.resume(&mut nostr, Event::Notification(n))
        else {
            panic!("registration ended on noise");
        };
        assert_eq!(action, Action::AwaitNotification { timeout_secs: 10 });
        registration = next;
    }
    let step = registration.resume(&mut nostr, Event::Notification(Notification::Undecryptable));
    let RegistrationStep::Pending(registration, action) = step else {
        panic!("registration ended with the subscription open");
    };
    assert_eq!(action, Action::Unsubscribe);
    let step = registration.resume(&mut nostr, Event::Unsubscribed);
    assert!(matches!(step, RegistrationStep::Failed(_, EscrowError::TransportError)));
}

#[test]
fn receive_times_out_and_listens_again() {
    let mut nostr = NostrClient::new(seller());
    let mut w = world();
    let first = run_receive(&mut nostr, &mut w, MessageSource::Any, 10);
    assert_eq!(first, Err(EscrowError::TimeoutError));
    assert!(!w.subscribed);
    assert!(!nostr.is_listening());
    assert_eq!(w.unsubscribed, 1);

    let step = nostr.receive_escrow_message(MessageSource::Any, 4);
    let ReceiveStep::Pending(action) = step else {
        panic!("the second wait did not begin");
    };
    assert_eq!(
        action,
        Action::Subscribe(MessageFilter { kind: GIFT_WRAP_KIND, recipient: seller(), limit: 0 })
    );
    assert_eq!(perform(&mut w, action), Event::Subscribed);
    let step = nostr.resume_receive(Event::Subscribed);
    assert_eq!(step, ReceiveStep::Pending(Action::AwaitNotification { timeout_secs: 4 }));
    deliver(&mut w, direct_message(buyer(), "hello"));
    let mut step = step;
    let outcome = loop {
        match step {
            ReceiveStep::Pending(action) => {
                let event = perform(&mut w, action);
                step = nostr.resume_receive(event);
            }
            ReceiveStep::Finished(outcome) => break outcome,
        }
    };
    assert_eq!(outcome, Ok(String::from("hello")));
    assert_eq!(w.filters.len(), 2);
    assert_eq!(w.unsubscribed, 2);
    assert!(!w.subscribed);
}

#[test]
fn receive_admits_only_the_named_sender() {
    let mut nostr = NostrClient::new(seller());
    let mut w = world();
    w.subscribed = true;
    deliver(&mut w, direct_message(coordinator(), "not from the buyer"));
    deliver(&mut w, direct_message(buyer(), "from the buyer"));
    w.subscribed = false;
    let outcome = run_receive(&mut nostr, &mut w, MessageSource::From(buyer()), 10);
    assert_eq!(outcome, Ok(String::from("from the buyer")));
    assert!(MessageSource::From(buyer()).admits(&buyer()));
    assert!(!MessageSource::From(buyer()).admits(&seller()));
    assert!(MessageSource::Any.admits(&seller()));
}

#[test]
fn receive_without_a_wait_is_a_transport_error() {
    let mut nostr = NostrClient::new(seller());
    assert_eq!(
        nostr.resume_receive(Event::Notification(direct_message(buyer(), "hello"))),
        ReceiveStep::Finished(Err(EscrowError::TransportError))
    );
    assert_eq!(
        nostr.abort_receive(EscrowError::TimeoutError),
        ReceiveStep::Finished(Err(EscrowError::TimeoutError))
    );
    assert!(!nostr.is_listening());
}

#[test]
fn receive_closes_on_an_event_out_of_turn() {
    let mut nostr = NostrClient::new(seller());
    let _ = nostr.receive_escrow_message(MessageSource::Any, 10);
    assert_eq!(nostr.resume_receive(Event::Sent), ReceiveStep::Pending(Action::Unsubscribe));
    assert_eq!(nostr.resume_receive(Event::TimedOut), ReceiveStep::Pending(Action::Unsubscribe));
    assert_eq!(
        nostr.resume_receive(Event::Unsubscribed),
        ReceiveStep::Finished(Err(EscrowError::TransportError))
    );
    assert!(!nostr.is_listening());
}

#[test]
fn abort_keeps_a_decided_outcome() {
    let mut nostr = NostrClient::new(seller());
    let _ = nostr.receive_escrow_message(MessageSource::Any, 10);
    let _ = nostr.resume_receive(Event::Subscribed);
    let _ = nostr.resume_receive(Event::Notification(direct_message(buyer(), "hello")));
    assert_eq!(
        nostr.abort_receive(EscrowError::TransportError),
        ReceiveStep::Pending(Action::Unsubscribe)
    );
    assert_eq!(
        nostr.resume_receive(Event::Unsubscribed),
        ReceiveStep::Finished(Ok(String::from("hello")))
    );
}

#[test]
fn buyer_mints_and_sends_the_token() {
    let (registered, mut nostr) = registered(TradeMode::Buyer, 100, "abc123", buyer());
    let mut w = world();
    let exchanged = run_exchange(registered, &mut nostr, &mut w).unwrap();
    assert_eq!(w.log, vec!["mint", "send"]);
    let payload = format!("100|abc123|{}", KEY_G);
    assert_eq!(w.sent, vec![(seller(), payload.clone())]);
    assert_eq!(exchanged.token(), &ExchangedToken::Sent(payload));
    assert_eq!(exchanged.trade_mode(), TradeMode::Buyer);
    assert_eq!(exchanged.escrow_contract(), &contract(100));
    assert_eq!(exchanged.escrow_registration().escrow_id_hex(), "abc123");
}

#[test]
fn buyer_fails_when_the_wallet_does() {
    let (registered, mut nostr) = registered(TradeMode::Buyer, 100, "abc123", buyer());
    let mut w = world();
    w.fail_mint = true;
    let r = run_exchange(registered, &mut nostr, &mut w);
    assert_eq!(r.err(), Some(EscrowError::WalletError));
    assert_eq!(w.log, vec!["mint"]);
}

#[test]
fn buyer_fails_when_the_token_cannot_be_sent() {
    let (registered, mut nostr) = registered(TradeMode::Buyer, 100, "abc123", buyer());
    let mut w = world();
    w.fail_send = true;
    let r = run_exchange(registered, &mut nostr, &mut w);
    assert_eq!(r.err(), Some(EscrowError::TransportError));
    assert_eq!(w.log, vec!["mint", "send"]);
}

fn seller_receives(payload: Option<String>, sender: PublicKey) -> (Result<TokenExchangedEscrowClient, EscrowError>, World, NostrClient) {
    let (registered, mut nostr) = registered(TradeMode::Seller, 100, "abc123", seller());
    let mut w = world();
    let mut step = registered.exchange_trade_token(&mut nostr);
    let mut delivered = false;
    let outcome = loop {
        match step {
            ExchangeStep::Pending(exchange, action) => {
                let event = perform(&mut w, action);
                if event == Event::Subscribed && !delivered {
                    delivered = true;
                    if let Some(text) = &payload {
                        deliver(&mut w, direct_message(sender.clone(), text));
                    }
                }
                step = exchange.resume(&mut nostr, event);
            }
            ExchangeStep::Exchanged(exchanged) => break Ok(exchanged),
            ExchangeStep::Failed(_, e) => break Err(e),
        }
    };
    (outcome, w, nostr)
}

#[test]
fn escrow_scenario_end_to_end() {
    // the buyer's side
    let (registered_buyer, mut buyer_nostr) = registered(TradeMode::Buyer, 100, "abc123", buyer());
    let mut w = world();
    let exchanged = run_exchange(registered_buyer, &mut buyer_nostr, &mut w).unwrap();
    let ExchangedToken::Sent(payload) = exchanged.token() else {
        panic!("the buyer holds no sent token");
    };
    let payload = payload.clone();
    assert_eq!(token_of_payload(&payload), Some(EscrowToken::new(100, String::from("abc123"), String::from(KEY_G))));
    assert_eq!(exchanged.do_your_trade_duties(), Ok(TradeOutcome::Pending));

    // the seller's side
    let (outcome, w, nostr) = seller_receives(Some(payload.clone()), buyer());
    let exchanged = outcome.unwrap();
    assert_eq!(
        exchanged.token(),
        &ExchangedToken::Received(EscrowToken::new(100, String::from("abc123"), String::from(KEY_G)))
    );
    assert_eq!(w.log, vec!["subscribe", "await", "unsubscribe", "inspect"]);
    assert_eq!(w.filters, vec![MessageFilter { kind: 1059, recipient: seller(), limit: 0 }]);
    assert!(!nostr.is_listening());
    assert_eq!(exchanged.do_your_trade_duties(), Ok(TradeOutcome::Pending));

    // the same token against another registration
    let (registered, mut nostr) = registered(TradeMode::Seller, 100, "zzz999", seller());
    let mut w = world();
    let mut step = registered.exchange_trade_token(&mut nostr);
    let mut delivered = false;
    let outcome = loop {
        match step {
            ExchangeStep::Pending(exchange, action) => {
                let event = perform(&mut w, action);
                if event == Event::Subscribed && !delivered {
                    delivered = true;
                    deliver(&mut w, direct_message(buyer(), &payload));
                }
                step = exchange.resume(&mut nostr, event);
            }
            ExchangeStep::Exchanged(_) => panic!("a token of another escrow was accepted"),
            ExchangeStep::Failed(_, e) => break e,
        }
    };
    assert_eq!(outcome, EscrowError::ValidationError);
    assert!(!nostr.is_listening());
}

#[test]
fn seller_rejects_a_token_with_another_amount() {
    let (outcome, w, nostr) = seller_receives(Some(format!("99|abc123|{}", KEY_G)), buyer());
    assert_eq!(outcome.err(), Some(EscrowError::ValidationError));
    assert_eq!(w.log, vec!["subscribe", "await", "unsubscribe", "inspect"]);
    assert!(!nostr.is_listening());
}

#[test]
fn seller_rejects_a_payload_that_is_no_token() {
    let (outcome, _, nostr) = seller_receives(Some(String::from("hello")), buyer());
    assert_eq!(outcome.err(), Some(EscrowError::ProtocolError));
    assert!(!nostr.is_listening());
}

#[test]
fn seller_times_out_without_a_token() {
    let (outcome, w, nostr) = seller_receives(None, buyer());
    assert_eq!(outcome.err(), Some(EscrowError::TimeoutError));
    assert_eq!(w.log, vec!["subscribe", "await", "unsubscribe"]);
    assert_eq!(w.waits, vec![10]);
    assert!(!nostr.is_listening());
}

#[test]
fn seller_ignores_a_token_from_someone_else() {
    let (outcome, w, _) = seller_receives(Some(format!("100|abc123|{}", KEY_G)), coordinator());
    assert_eq!(outcome.err(), Some(EscrowError::TimeoutError));
    assert_eq!(w.log, vec!["subscribe", "await", "await", "unsubscribe"]);
}

#[test]
fn seller_fails_when_it_cannot_subscribe() {
    let (registered, mut nostr) = registered(TradeMode::Seller, 100, "abc123", seller());
    let mut w = world();
    w.fail_subscribe = true;
    let r = run_exchange(registered, &mut nostr, &mut w);
    assert_eq!(r.err(), Some(EscrowError::TransportError));
    assert!(!nostr.is_listening());
}

#[test]
fn exchange_fails_on_an_event_out_of_turn() {
    let (registered, mut nostr) = registered(TradeMode::Buyer, 100, "abc123", buyer());
    let ExchangeStep::Pending(exchange, action) = registered.exchange_trade_token(&mut nostr) else {
        panic!("the exchange did not begin");
    };
    assert_eq!(
        action,
        Action::MintToken(EscrowToken::new(100, String::from("abc123"), String::from(KEY_G)))
    );
    assert!(matches!(
        exchange.resume(&mut nostr, Event::Sent),
        ExchangeStep::Failed(_, EscrowError::WalletError)
    ));
}

#[test]
fn phases_follow_one_another() {
    let mut nostr = NostrClient::new(buyer());
    let mut w = world();
    w.reply = Some(registration_text("abc123"));
    let init = client(TradeMode::Buyer, 100);
    let registered = run_registration(init, &mut nostr, &mut w).unwrap();
    let exchanged = run_exchange(registered, &mut nostr, &mut w).unwrap();
    let outcome = exchanged.do_your_trade_duties();
    assert_eq!(outcome, Ok(TradeOutcome::Pending));
    assert_eq!(w.log, vec!["subscribe", "send", "await", "unsubscribe", "mint", "send"]);
}

#[test]
fn response_timeout_can_be_set() {
    let mut nostr = NostrClient::new(buyer());
    assert_eq!(nostr.response_timeout_secs(), 10);
    nostr.set_response_timeout_secs(3);
    assert_eq!(nostr.response_timeout_secs(), 3);
    let mut w = world();
    w.reply = Some(registration_text("abc123"));
    let registered = run_registration(client(TradeMode::Buyer, 100), &mut nostr, &mut w).unwrap();
    assert_eq!(w.waits, vec![3]);
    assert_eq!(registered.escrow_registration().escrow_id_hex(), "abc123");
    assert_eq!(nostr.public_key(), buyer());
    assert_eq!(nostr.relays(), &default_relays());
}

#[test]
fn failed_registration_hands_the_client_back() {
    let mut nostr = NostrClient::new(buyer());
    let mut w = world();
    let mut step = client(TradeMode::Buyer, 100).register_trade(&mut nostr);
    let init = loop {
        match step {
            RegistrationStep::Pending(registration, action) => {
                let event = perform(&mut w, action);
                step = registration.resume(&mut nostr, event);
            }
            RegistrationStep::Registered(_) => panic!("registered without a reply"),
            RegistrationStep::Failed(init, e) => {
                assert_eq!(e, EscrowError::TimeoutError);
                assert!(e.is_recoverable());
                break init;
            }
        }
    };
    assert_eq!(init.escrow_contract(), &contract(100));
    assert_eq!(init.trade_mode(), TradeMode::Buyer);
    // the same client registers at the second attempt
    w.reply = Some(registration_text("abc123"));
    let registered = run_registration(init, &mut nostr, &mut w).unwrap();
    assert_eq!(registered.escrow_registration().escrow_id_hex(), "abc123");
    assert_eq!(w.filters.len(), 2);
    assert_eq!(w.unsubscribed, 2);
}

#[test]
fn failed_exchange_hands_the_client_back() {
    let (registered, mut nostr) = registered(TradeMode::Buyer, 100, "abc123", buyer());
    let mut w = world();
    w.fail_mint = true;
    let mut step = registered.exchange_trade_token(&mut nostr);
    let registered = loop {
        match step {
            ExchangeStep::Pending(exchange, action) => {
                let event = perform(&mut w, action);
                step = exchange.resume(&mut nostr, event);
            }
            ExchangeStep::Exchanged(_) => panic!("exchanged without a token"),
            ExchangeStep::Failed(registered, e) => {
                assert_eq!(e, EscrowError::WalletError);
                break registered;
            }
        }
    };
    assert_eq!(registered.escrow_registration().escrow_id_hex(), "abc123");
    w.fail_mint = false;
    let exchanged = run_exchange(registered, &mut nostr, &mut w).unwrap();
    assert_eq!(exchanged.token(), &ExchangedToken::Sent(format!("100|abc123|{}", KEY_G)));
}
