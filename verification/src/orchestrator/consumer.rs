//! The consumer side of the orchestrator: authentication, commands, and the
//! rule that decides which broadcast messages reach a consumer.
use vstd::prelude::*;
use vstd::string::*;
use crate::orchestrator::registry::Orchestrator;
use crate::proto::{topic_label, ClientCmd, Priority, ServerMsg, ShitMessage, ShitTopic};
use crate::text::{dec_str, push_u64};

verus! {

/// The topics a consumer subscribed to.
#[derive(Debug, Clone, Copy, PartialEq, Eq, Structural)]
pub struct TopicSet {
    liquid: bool,
    solid: bool,
    gas: bool,
    critical: bool,
}

impl View for TopicSet {
    type V = Set<ShitTopic>;

    closed spec fn view(&self) -> Set<ShitTopic> {
        Set::new(
            |t: ShitTopic|
                match t {
                    ShitTopic::Liquid => self.liquid,
                    ShitTopic::Solid => self.solid,
                    ShitTopic::Gas => self.gas,
                    ShitTopic::Critical => self.critical,
                },
        )
    }
}

/// Every topic.
pub open spec fn all_topics() -> Set<ShitTopic> {
    set![ShitTopic::Liquid, ShitTopic::Solid, ShitTopic::Gas, ShitTopic::Critical]
}

impl TopicSet {
    proof fn lemma_view(&self)
        ensures
            self@.contains(ShitTopic::Liquid) == self.liquid,
            self@.contains(ShitTopic::Solid) == self.solid,
            self@.contains(ShitTopic::Gas) == self.gas,
            self@.contains(ShitTopic::Critical) == self.critical,
            self@.subset_of(all_topics()),
    {
        assert forall|t: ShitTopic| self@.contains(t) implies all_topics().contains(t) by {
            match t {
                ShitTopic::Liquid => {},
                ShitTopic::Solid => {},
                ShitTopic::Gas => {},
                ShitTopic::Critical => {},
            }
        }
    }

    /// No subscriptions.
    pub fn new() -> (r: TopicSet)
        ensures
            r@ == Set::<ShitTopic>::empty(),
    {
        let r = TopicSet { liquid: false, solid: false, gas: false, critical: false };
        assert(r@ =~= Set::<ShitTopic>::empty());
        r
    }

    /// Whether `t` is subscribed.
    pub fn contains(&self, t: ShitTopic) -> (r: bool)
        ensures
            r == self@.contains(t),
    {
        match t {
            ShitTopic::Liquid => self.liquid,
            ShitTopic::Solid => self.solid,
            ShitTopic::Gas => self.gas,
            ShitTopic::Critical => self.critical,
        }
    }

    /// Whether nothing is subscribed.
    pub fn is_empty(&self) -> (r: bool)
        ensures
            r == (self@ == Set::<ShitTopic>::empty()),
    {
        proof {
            self.lemma_view();
            if self@ == Set::<ShitTopic>::empty() {
                assert(!self@.contains(ShitTopic::Liquid));
            }
            if !self.liquid && !self.solid && !self.gas && !self.critical {
                assert(self@ =~= Set::<ShitTopic>::empty());
            }
        }
        !self.liquid && !self.solid && !self.gas && !self.critical
    }

    /// Subscribes to `t`.
    pub fn insert(&mut self, t: ShitTopic)
        ensures
            final(self)@ == old(self)@.insert(t),
    {
        match t {
            ShitTopic::Liquid => { self.liquid = true; },
            ShitTopic::Solid => { self.solid = true; },
            ShitTopic::Gas => { self.gas = true; },
            ShitTopic::Critical => { self.critical = true; },
        }
        assert(self@ =~= old(self)@.insert(t));
    }

    /// Unsubscribes from `t`.
    pub fn remove(&mut self, t: ShitTopic)
        ensures
            final(self)@ == old(self)@.remove(t),
    {
        match t {
            ShitTopic::Liquid => { self.liquid = false; },
            ShitTopic::Solid => { self.solid = false; },
            ShitTopic::Gas => { self.gas = false; },
            ShitTopic::Critical => { self.critical = false; },
        }
        assert(self@ =~= old(self)@.remove(t));
    }

    /// Unsubscribes from everything.
    pub fn clear(&mut self)
        ensures
            final(self)@ == Set::<ShitTopic>::empty(),
    {
        *self = TopicSet::new();
    }
}

/// A consumer receives a broadcast message when subscribed to its topic, or,
/// while subscribed to nothing, when it is critical.
pub open spec fn delivers(subs: Set<ShitTopic>, topic: ShitTopic, priority: Priority) -> bool {
    subs.contains(topic) || (subs == Set::<ShitTopic>::empty() && priority == Priority::Critical)
}

/// Whether a broadcast message goes to a consumer with subscriptions `subs`.
pub fn should_deliver(subs: &TopicSet, msg: &ShitMessage) -> (r: bool)
    ensures
        r == delivers(subs@, msg.topic, msg.priority),
{
    subs.contains(msg.topic) || (subs.is_empty() && msg.priority == Priority::Critical)
}

/// What a consumer is sent of a broadcast message: the message itself when
/// `should_deliver`, else nothing.
pub fn deliver(subs: &TopicSet, msg: ShitMessage) -> (r: Option<ServerMsg>)
    ensures
        match r {
            Some(m) => delivers(subs@, msg.topic, msg.priority) && m == ServerMsg::Shit(msg),
            None => !delivers(subs@, msg.topic, msg.priority),
        },
{
    if should_deliver(subs, &msg) {
        Some(ServerMsg::Shit(msg))
    } else {
        None
    }
}

pub open spec fn auth_required_text() -> Seq<char> {
    "Токен или проваливай. 10 секунд."@
}

pub open spec fn auth_timeout_text() -> Seq<char> {
    "💨 ПУУК! Таймаут — пошёл отсюда."@
}

pub open spec fn auth_welcome_text() -> Seq<char> {
    "💨 ПУУК! Добро пожаловать в говно-систему."@
}

pub open spec fn auth_refused_text() -> Seq<char> {
    "💨 ПУУК! Неверный токен. Иди отсюда."@
}

pub open spec fn topics_prompt_text() -> Seq<char> {
    "Выбери топики: жидкое / твёрдое / газообразное / критическое"@
}

pub open spec fn echo_prefix() -> Seq<char> {
    "💩 ЭХО: "@
}

/// The challenge sent to every new consumer.
pub fn auth_required() -> (r: ServerMsg)
    ensures
        r matches ServerMsg::AuthRequired { msg } && msg@ == auth_required_text(),
{
    ServerMsg::AuthRequired { msg: String::from_str("Токен или проваливай. 10 секунд.") }
}

/// The greeting sent after a successful authentication.
pub fn consumer_welcome() -> (r: ServerMsg)
    ensures
        r matches ServerMsg::Welcome { msg } && msg@ == topics_prompt_text(),
{
    ServerMsg::Welcome {
        msg: String::from_str("Выбери топики: жидкое / твёрдое / газообразное / критическое"),
    }
}

/// The answer to a text frame that is not a valid command; `err` is the
/// parser's description of the problem.
pub fn bad_json(err: &str) -> (r: ServerMsg)
    ensures
        r matches ServerMsg::Error { msg } && msg@ == "bad json: "@ + err@,
{
    let mut msg = String::from_str("bad json: ");
    msg.append(err);
    ServerMsg::Error { msg }
}

/// The notice sent to a consumer that fell `n` messages behind the broadcast.
pub fn lagged(n: u64) -> (r: ServerMsg)
    ensures
        r matches ServerMsg::Error { msg } && msg@ == "lagged: missed "@ + dec_str(n as nat) + " messages"@,
{
    let mut msg = String::from_str("lagged: missed ");
    push_u64(&mut msg, n);
    msg.append(" messages");
    ServerMsg::Error { msg }
}

/// What the consumer answered to the authentication challenge.
pub enum AuthReply {
    /// No text frame in time (timeout, close, error, or a non-text frame).
    Missing,
    /// A text frame, and the command it holds if it parses.
    Text(Option<ClientCmd>),
}

/// How an authentication attempt ends.
#[derive(Debug, Clone, Copy, PartialEq, Eq, Structural)]
pub enum AuthVerdict {
    Accepted,
    TimedOut,
    Refused,
}

/// The verdict on a reply: accepted exactly when it is an `Auth` command with
/// the expected token.
pub open spec fn auth_verdict_spec(reply: AuthReply, token: Seq<char>) -> AuthVerdict {
    match reply {
        AuthReply::Missing => AuthVerdict::TimedOut,
        AuthReply::Text(Some(ClientCmd::Auth { token: t })) => if t@ == token {
            AuthVerdict::Accepted
        } else {
            AuthVerdict::Refused
        },
        _ => AuthVerdict::Refused,
    }
}

/// Judges a reply to the authentication challenge.
pub fn auth_verdict(reply: &AuthReply, token: &String) -> (r: AuthVerdict)
    ensures
        r == auth_verdict_spec(*reply, token@),
{
    match reply {
        AuthReply::Missing => AuthVerdict::TimedOut,
        AuthReply::Text(Some(ClientCmd::Auth { token: t })) => {
            if *t == *token {
                AuthVerdict::Accepted
            } else {
                AuthVerdict::Refused
            }
        },
        _ => AuthVerdict::Refused,
    }
}

/// The replies to a command of an authenticated consumer, with the change to
/// its subscriptions.
pub open spec fn cmd_effect(
    cmd: ClientCmd,
    subs: Set<ShitTopic>,
    services: Seq<crate::proto::ServiceInfo>,
    new_subs: Set<ShitTopic>,
    r: Seq<ServerMsg>,
) -> bool {
    match cmd {
        ClientCmd::Auth { .. } => {
            &&& new_subs == subs
            &&& r.len() == 1
            &&& r[0] matches ServerMsg::Error { msg } && msg@ == "Already authenticated"@
        },
        ClientCmd::Subscribe { topic } => {
            &&& new_subs == subs.insert(topic)
            &&& r.len() == 1
            &&& r[0] matches ServerMsg::Subscribed { topic: label } && label@ == topic_label(topic)
        },
        ClientCmd::Unsubscribe { topic } => {
            &&& new_subs == subs.remove(topic)
            &&& r.len() == 1
            &&& r[0] matches ServerMsg::Unsubscribed { topic: label } && label@ == topic_label(topic)
        },
        ClientCmd::UnsubscribeAll => {
            &&& new_subs == Set::<ShitTopic>::empty()
            &&& r == seq![ServerMsg::UnsubscribedAll]
        },
        ClientCmd::Echo { text } => {
            &&& new_subs == subs
            &&& r.len() == 1
            &&& r[0] matches ServerMsg::Echo { payload } && payload@ == echo_prefix() + text@
        },
        ClientCmd::Ping => {
            &&& new_subs == subs
            &&& r.len() == 2
            &&& r[0] matches ServerMsg::ServiceList { services: list } && list@ == services
            &&& r[1] == ServerMsg::Pong
        },
    }
}

/// Handles a command of an authenticated consumer: subscription changes are
/// confirmed with the topic's label, `Echo` is echoed back with a prefix,
/// `Ping` is answered with the live registry and `Pong`, and a second `Auth`
/// is an error.
pub fn handle_client_cmd(cmd: ClientCmd, subs: &mut TopicSet, orch: &Orchestrator) -> (r: Vec<ServerMsg>)
    ensures
        cmd_effect(cmd, old(subs)@, orch.entries(), final(subs)@, r@),
{
    let mut r: Vec<ServerMsg> = Vec::new();
    match cmd {
        ClientCmd::Auth { .. } => {
            r.push(ServerMsg::Error { msg: String::from_str("Already authenticated") });
        },
        ClientCmd::Subscribe { topic } => {
            let label = String::from_str(topic.label());
            subs.insert(topic);
            r.push(ServerMsg::Subscribed { topic: label });
        },
        ClientCmd::Unsubscribe { topic } => {
            let label = String::from_str(topic.label());
            subs.remove(topic);
            r.push(ServerMsg::Unsubscribed { topic: label });
        },
        ClientCmd::UnsubscribeAll => {
            subs.clear();
            r.push(ServerMsg::UnsubscribedAll);
        },
        ClientCmd::Echo { text } => {
            let mut payload = String::from_str("💩 ЭХО: ");
            payload.append(text.as_str());
            r.push(ServerMsg::Echo { payload });
        },
        ClientCmd::Ping => {
            let services = orch.services();
            r.push(ServerMsg::ServiceList { services });
            r.push(ServerMsg::Pong);
        },
    }
    r
}

} // verus!
