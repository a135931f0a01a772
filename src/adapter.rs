//! Shared adapter state and the planning of each event's dispatch.
//!
//! For every decoded event the adapter plans: the raw write to the store, the
//! durable record, the handlers to run in registration order, and whether the
//! brain agent is invoked. The caller runs the plan on its own tasks; the
//! brain agent's outcome is never an input to the plan.

use vstd::prelude::*;
use crate::connection::{upgrade_request, headers_valid, UpgradeRequest};
use crate::decoder::{decode_event, decodes_to, event_valid, is_chat_event, Decoded};
use crate::json::{json_parse, json_text, parse_json, json_to_text, Json};
use crate::models::{MessageEvent, Profile};
use crate::record::{build_record, is_record_of, LocalDateTime, MessageRecord};
use crate::store::StoreConfig;
use crate::text::{decimal, decimal_string};

verus! {

/// A consumer invoked once per event on its own task, outside the handler chain.
pub trait BrainAgentTrait<A> {
    /// Handles one event with mutable access to the adapter state.
    fn on_event(&self, bot_adapter: &mut A, event: &MessageEvent) -> Result<(), String>;

    fn name(&self) -> &'static str;
}

/// Settings for building a `BotAdapter`.
pub struct BotAdapterConfig<B> {
    pub url: String,
    pub token: String,
    pub redis_url: Option<String>,
    pub database_url: Option<String>,
    pub redis_reconnect_max_attempts: Option<u32>,
    pub redis_reconnect_interval_secs: Option<u64>,
    pub mysql_reconnect_max_attempts: Option<u32>,
    pub mysql_reconnect_interval_secs: Option<u64>,
    pub qq_id: String,
    pub brain_agent: Option<B>,
}

impl<B> BotAdapterConfig<B> {
    pub fn new(url: String, token: String, qq_id: String) -> (r: Self)
        ensures
            r.url == url,
            r.token == token,
            r.qq_id == qq_id,
            r.redis_url is None,
            r.database_url is None,
            r.redis_reconnect_max_attempts is None,
            r.redis_reconnect_interval_secs is None,
            r.mysql_reconnect_max_attempts is None,
            r.mysql_reconnect_interval_secs is None,
            r.brain_agent is None,
    {
        BotAdapterConfig {
            url,
            token,
            redis_url: None,
            database_url: None,
            redis_reconnect_max_attempts: None,
            redis_reconnect_interval_secs: None,
            mysql_reconnect_max_attempts: None,
            mysql_reconnect_interval_secs: None,
            qq_id,
            brain_agent: None,
        }
    }

    pub fn with_redis_url(self, url: Option<String>) -> (r: Self)
        ensures
            r == (BotAdapterConfig { redis_url: url, ..self }),
    {
        BotAdapterConfig { redis_url: url, ..self }
    }

    pub fn with_database_url(self, url: Option<String>) -> (r: Self)
        ensures
            r == (BotAdapterConfig { database_url: url, ..self }),
    {
        BotAdapterConfig { database_url: url, ..self }
    }

    pub fn with_redis_reconnect(self, max_attempts: Option<u32>, interval_secs: Option<u64>) -> (r:
        Self)
        ensures
            r == (BotAdapterConfig {
                redis_reconnect_max_attempts: max_attempts,
                redis_reconnect_interval_secs: interval_secs,
                ..self
            }),
    {
        BotAdapterConfig {
            redis_reconnect_max_attempts: max_attempts,
            redis_reconnect_interval_secs: interval_secs,
            ..self
        }
    }

    pub fn with_mysql_reconnect(self, max_attempts: Option<u32>, interval_secs: Option<u64>) -> (r:
        Self)
        ensures
            r == (BotAdapterConfig {
                mysql_reconnect_max_attempts: max_attempts,
                mysql_reconnect_interval_secs: interval_secs,
                ..self
            }),
    {
        BotAdapterConfig {
            mysql_reconnect_max_attempts: max_attempts,
            mysql_reconnect_interval_secs: interval_secs,
            ..self
        }
    }

    pub fn with_brain_agent(self, agent: Option<B>) -> (r: Self)
        ensures
            r == (BotAdapterConfig { brain_agent: agent, ..self }),
    {
        BotAdapterConfig { brain_agent: agent, ..self }
    }

    /// The networked cache's settings.
    pub fn cache_config(&self) -> (r: StoreConfig)
        ensures
            r.connection_url == self.redis_url,
            r.reconnect_max_attempts == self.redis_reconnect_max_attempts,
            r.reconnect_interval_secs == self.redis_reconnect_interval_secs,
    {
        StoreConfig {
            connection_url: match &self.redis_url {
                Some(u) => Some(u.clone()),
                None => None,
            },
            reconnect_max_attempts: self.redis_reconnect_max_attempts,
            reconnect_interval_secs: self.redis_reconnect_interval_secs,
        }
    }

    /// The durable log's settings.
    pub fn log_config(&self) -> (r: StoreConfig)
        ensures
            r.connection_url == self.database_url,
            r.reconnect_max_attempts == self.mysql_reconnect_max_attempts,
            r.reconnect_interval_secs == self.mysql_reconnect_interval_secs,
    {
        StoreConfig {
            connection_url: match &self.database_url {
                Some(u) => Some(u.clone()),
                None => None,
            },
            reconnect_max_attempts: self.mysql_reconnect_max_attempts,
            reconnect_interval_secs: self.mysql_reconnect_interval_secs,
        }
    }
}

/// Why an adapter could not be built.
#[derive(Debug, Clone, Copy, PartialEq, Eq, Structural)]
pub enum AdapterError {
    /// The bot's own id is empty.
    MissingBotId,
}

/// Process-wide adapter state: identity, store handle `S`, handlers `H` in
/// registration order, and the optional brain agent `B`.
pub struct BotAdapter<S, H, B> {
    url: String,
    token: String,
    message_store: S,
    bot_profile: Profile,
    brain_agent: Option<B>,
    event_handlers: Vec<H>,
}

/// The handler indices in the order they run: each registered handler once,
/// in registration order.
pub open spec fn handler_sequence(n: nat) -> Seq<usize> {
    Seq::new(n, |i: int| i as usize)
}

/// What to do for one decoded event, besides writing its raw text.
#[derive(Debug)]
pub struct MessagePlan {
    /// The record for the durable log.
    pub record: MessageRecord,
    /// Indices of the handlers to run, one after another.
    pub handler_order: Vec<usize>,
    /// Whether to start the brain agent on its own task.
    pub invoke_brain: bool,
}

/// `p` is the plan for `e` with `n` handlers, a brain agent iff `has_brain`,
/// bot id `bot_id`, processed at `now`.
pub open spec fn is_message_plan(
    p: MessagePlan,
    e: MessageEvent,
    bot_id: Seq<char>,
    n: nat,
    has_brain: bool,
    now: LocalDateTime,
) -> bool {
    &&& is_record_of(p.record, e, bot_id, now)
    &&& p.handler_order@ == handler_sequence(n)
    &&& p.invoke_brain == has_brain
}

/// Everything to do for one frame's event.
#[derive(Debug)]
pub struct DispatchPlan {
    pub event: MessageEvent,
    /// Store key of the raw write: the event id in decimal.
    pub raw_key: String,
    /// Store value of the raw write: the event's JSON, re-serialized.
    pub raw_value: String,
    pub message: MessagePlan,
}

/// Whether a frame text leads to a dispatch: it is JSON, has `message_type`,
/// and matches the event schema.
pub open spec fn dispatches(text: Seq<char>) -> bool {
    json_parse(text) matches Some(j) && is_chat_event(j) && event_valid(j)
}

impl<S, H, B> BotAdapter<S, H, B> {
    pub closed spec fn bot_id(&self) -> Seq<char> {
        self.bot_profile.qq_id@
    }

    pub closed spec fn bot_nickname(&self) -> Seq<char> {
        self.bot_profile.nickname@
    }

    pub closed spec fn handlers(&self) -> Seq<H> {
        self.event_handlers@
    }

    pub closed spec fn has_brain(&self) -> bool {
        self.brain_agent is Some
    }

    pub closed spec fn store(&self) -> S {
        self.message_store
    }

    pub closed spec fn server_url(&self) -> Seq<char> {
        self.url@
    }

    pub closed spec fn server_token(&self) -> Seq<char> {
        self.token@
    }

    /// Builds the adapter; fails fast when the bot id is empty.
    pub fn new(config: BotAdapterConfig<B>, message_store: S) -> (r: Result<Self, AdapterError>)
        ensures
            config.qq_id@.len() == 0 ==> r == Err::<Self, AdapterError>(AdapterError::MissingBotId),
            config.qq_id@.len() > 0 ==> (r matches Ok(a) && a.bot_id() == config.qq_id@
                && a.handlers().len() == 0 && a.has_brain() == (config.brain_agent is Some)
                && a.store() == message_store && a.server_url() == config.url@
                && a.server_token() == config.token@),
    {
        if config.qq_id.as_str().is_empty() {
            return Err(AdapterError::MissingBotId);
        }
        Ok(
            BotAdapter {
                url: config.url,
                token: config.token,
                message_store,
                bot_profile: Profile { qq_id: config.qq_id, nickname: String::new() },
                brain_agent: config.brain_agent,
                event_handlers: Vec::new(),
            },
        )
    }

    pub fn get_bot_id(&self) -> (r: &str)
        ensures
            r@ == self.bot_id(),
    {
        self.bot_profile.qq_id.as_str()
    }

    pub fn get_bot_profile(&self) -> (r: Option<&Profile>)
        ensures
            r matches Some(p) && p.qq_id@ == self.bot_id() && p.nickname@ == self.bot_nickname(),
    {
        Some(&self.bot_profile)
    }

    pub fn get_message_store(&self) -> (r: &S)
        ensures
            *r == self.store(),
    {
        &self.message_store
    }

    pub fn get_brain_agent(&self) -> (r: Option<&B>)
        ensures
            r is Some <==> self.has_brain(),
    {
        match &self.brain_agent {
            Some(b) => Some(b),
            None => None,
        }
    }

    /// Appends a handler; handlers run in registration order.
    pub fn register_event_handler(&mut self, handler: H)
        ensures
            final(self).handlers() == old(self).handlers().push(handler),
            final(self).bot_id() == old(self).bot_id(),
            final(self).has_brain() == old(self).has_brain(),
            final(self).store() == old(self).store(),
            final(self).server_url() == old(self).server_url(),
            final(self).server_token() == old(self).server_token(),
    {
        self.event_handlers.push(handler);
    }

    pub fn get_event_handlers(&self) -> (r: &Vec<H>)
        ensures
            r@ == self.handlers(),
    {
        &self.event_handlers
    }

    /// The upgrade request for this adapter's server and token.
    pub fn upgrade_request(&self) -> (r: UpgradeRequest)
        ensures
            r.url@ == self.server_url(),
            exists|key: Seq<char>|
                key.len() == 24 && headers_valid(r.headers@, self.server_url(), self.server_token(), key),
    {
        upgrade_request(self.url.as_str(), self.token.as_str())
    }

    /// Decodes one frame's text and plans its dispatch. `None` for text that
    /// is not JSON, for control objects without `message_type`, and for
    /// objects that do not match the event schema.
    pub fn process_event(&self, message: &str, now: LocalDateTime) -> (r: Option<DispatchPlan>)
        ensures
            r is Some <==> dispatches(message@),
            r matches Some(p) ==> ({
                let j = json_parse(message@)->0;
                &&& decodes_to(j, p.event)
                &&& p.event.wf()
                &&& p.raw_key@ == decimal(p.event.message_id as int)
                &&& p.raw_value@ == json_text(j)
                &&& is_message_plan(
                    p.message,
                    p.event,
                    self.bot_id(),
                    self.handlers().len(),
                    self.has_brain(),
                    now,
                )
            }),
    {
        let j = match parse_json(message) {
            Some(j) => j,
            None => return None,
        };
        let event = match decode_event(&j) {
            Decoded::Event(e) => e,
            _ => return None,
        };
        let raw_key = decimal_string(event.message_id);
        let raw_value = json_to_text(&j);
        let message = process_message(self, &event, now);
        Some(DispatchPlan { event, raw_key, raw_value, message })
    }
}

/// Plans the record, the handler chain and the brain agent for one event.
pub fn process_message<S, H, B>(bot_adapter: &BotAdapter<S, H, B>, event: &MessageEvent, now: LocalDateTime) -> (r:
    MessagePlan)
    ensures
        is_message_plan(
            r,
            *event,
            bot_adapter.bot_id(),
            bot_adapter.handlers().len(),
            bot_adapter.has_brain(),
            now,
        ),
{
    let record = build_record(event, bot_adapter.get_bot_id(), now);
    let n = bot_adapter.get_event_handlers().len();
    let mut handler_order: Vec<usize> = Vec::new();
    let mut i: usize = 0;
    while i < n
        invariant
            i <= n,
            handler_order@ == handler_sequence(i as nat),
        decreases n - i,
    {
        handler_order.push(i);
        i = i + 1;
        assert(handler_order@ =~= handler_sequence(i as nat));
    }
    assert(handler_order@ =~= handler_sequence(n as nat));
    MessagePlan { record, handler_order, invoke_brain: bot_adapter.get_brain_agent().is_some() }
}

/// A JSON object without `message_type` leads to no dispatch at all: no
/// store write and no handler or brain invocation.
pub proof fn lemma_non_event_ignored(text: Seq<char>, j: Json)
    requires
        json_parse(text) == Some(j),
        !is_chat_event(j),
    ensures
        !dispatches(text),
{
}

/// With `n` handlers registered, dispatching one event runs each of them
/// exactly once, in registration order; the order does not depend on the
/// brain agent.
pub proof fn lemma_handler_order(n: nat)
    requires
        n <= usize::MAX,
    ensures
        handler_sequence(n).len() == n,
        forall|i: int| 0 <= i < n ==> handler_sequence(n)[i] == i,
        forall|i: int, k: int|
            0 <= i < k < n ==> handler_sequence(n)[i] != handler_sequence(n)[k],
{
}

/// Whether a brain agent is present changes nothing in a plan but the brain
/// invocation: the record to persist and the handler chain are the same.
pub proof fn lemma_brain_isolation(
    with_brain: MessagePlan,
    without: MessagePlan,
    e: MessageEvent,
    bot_id: Seq<char>,
    n: nat,
    now: LocalDateTime,
)
    requires
        is_message_plan(with_brain, e, bot_id, n, true, now),
        is_message_plan(without, e, bot_id, n, false, now),
    ensures
        with_brain.handler_order@ == without.handler_order@,
        with_brain.record.message_id@ == without.record.message_id@,
        with_brain.record.sender_id@ == without.record.sender_id@,
        with_brain.record.sender_name@ == without.record.sender_name@,
        with_brain.record.send_time == without.record.send_time,
        with_brain.record.group_name == without.record.group_name,
        with_brain.record.content@ == without.record.content@,
        crate::record::opt_view(with_brain.record.group_id) == crate::record::opt_view(
            without.record.group_id,
        ),
        crate::record::opt_view(with_brain.record.at_target_list) == crate::record::opt_view(
            without.record.at_target_list,
        ),
        with_brain.invoke_brain && !without.invoke_brain,
{
}

} // verus!
