//! The bot: its configuration, the command table built from it, and the decisions of
//! the poll loop (what to ask for, how to advance the offset, where each update goes).
use vstd::prelude::*;
use crate::commands::{normalize_command, normalized_command, CommandTable};
use crate::envelope::ApiError;
use crate::json::{field, find_member, json_text, parsed_json, print_json, JsonNumber, JsonValue};
use crate::offset::{batch_offset, tick_offset, OffsetTracker};
use crate::request::{api_url, api_url_of, fields_of, form_fields, File, FormRequest, JsonRequest};
use crate::router::{is_command_token, mention_stripped, opt_view, route, route_of, Route, RouteModel};
use crate::text::{join_words, words};
use crate::updates::{batch_read, batch_readable, parse_updates, Message, Update};

verus! {

/// Configuration of a bot before it runs. Each registered handler gets a slot number, in
/// order of registration; the caller keeps the handlers under those numbers.
pub struct BotBuilder {
    pub key: String,
    pub name: Option<String>,
    pub last_id: u64,
    pub update_interval: u64,
    pub timeout: u64,
    pub handlers: CommandTable,
    pub unknown_handler: Option<usize>,
    pub handler_count: usize,
}

impl BotBuilder {
    pub fn new(key: &str) -> (r: BotBuilder)
        ensures
            r.key@ == key@,
            r.name is None,
            r.last_id == 0,
            r.update_interval == 1000,
            r.timeout == 30,
            r.handlers@ == Map::<Seq<char>, usize>::empty(),
            r.unknown_handler is None,
            r.handler_count == 0,
    {
        BotBuilder {
            key: key.to_owned(),
            name: None,
            last_id: 0,
            update_interval: 1000,
            timeout: 30,
            handlers: CommandTable::new(),
            unknown_handler: None,
            handler_count: 0,
        }
    }

    /// Registers a command; returns the slot of its handler. A command registered again
    /// is bound to the new slot.
    pub fn new_cmd(&mut self, cmd: &str) -> (slot: usize)
        requires
            old(self).handler_count < usize::MAX,
        ensures
            slot == old(self).handler_count,
            final(self).handler_count == old(self).handler_count + 1,
            final(self).handlers@ == old(self).handlers@.insert(normalized_command(cmd@), slot),
            final(self).key == old(self).key,
            final(self).name == old(self).name,
            final(self).last_id == old(self).last_id,
            final(self).update_interval == old(self).update_interval,
            final(self).timeout == old(self).timeout,
            final(self).unknown_handler == old(self).unknown_handler,
    {
        let slot = self.handler_count;
        let name = normalize_command(cmd);
        self.handlers.insert(name, slot);
        self.handler_count = slot + 1;
        slot
    }

    /// Registers the handler for commands that match no registered one; returns its slot.
    pub fn unknown_cmd(&mut self) -> (slot: usize)
        requires
            old(self).handler_count < usize::MAX,
        ensures
            slot == old(self).handler_count,
            final(self).handler_count == old(self).handler_count + 1,
            final(self).unknown_handler == Some(slot),
            final(self).handlers == old(self).handlers,
            final(self).key == old(self).key,
            final(self).name == old(self).name,
            final(self).last_id == old(self).last_id,
            final(self).update_interval == old(self).update_interval,
            final(self).timeout == old(self).timeout,
    {
        let slot = self.handler_count;
        self.unknown_handler = Some(slot);
        self.handler_count = slot + 1;
        slot
    }

    pub fn name(&mut self, name: &str)
        ensures
            final(self).name is Some,
            final(self).name->0@ == name@,
            final(self).key == old(self).key,
            final(self).last_id == old(self).last_id,
            final(self).update_interval == old(self).update_interval,
            final(self).timeout == old(self).timeout,
            final(self).handlers == old(self).handlers,
            final(self).unknown_handler == old(self).unknown_handler,
            final(self).handler_count == old(self).handler_count,
    {
        self.name = Some(name.to_owned());
    }

    pub fn last_id(&mut self, last_id: u32)
        ensures
            final(self).last_id == last_id,
            final(self).key == old(self).key,
            final(self).name == old(self).name,
            final(self).update_interval == old(self).update_interval,
            final(self).timeout == old(self).timeout,
            final(self).handlers == old(self).handlers,
            final(self).unknown_handler == old(self).unknown_handler,
            final(self).handler_count == old(self).handler_count,
    {
        self.last_id = last_id as u64;
    }

    pub fn update_interval(&mut self, update_interval: u64)
        ensures
            final(self).update_interval == update_interval,
            final(self).key == old(self).key,
            final(self).name == old(self).name,
            final(self).last_id == old(self).last_id,
            final(self).timeout == old(self).timeout,
            final(self).handlers == old(self).handlers,
            final(self).unknown_handler == old(self).unknown_handler,
            final(self).handler_count == old(self).handler_count,
    {
        self.update_interval = update_interval;
    }

    pub fn timeout(&mut self, timeout: u64)
        ensures
            final(self).timeout == timeout,
            final(self).key == old(self).key,
            final(self).name == old(self).name,
            final(self).last_id == old(self).last_id,
            final(self).update_interval == old(self).update_interval,
            final(self).handlers == old(self).handlers,
            final(self).unknown_handler == old(self).unknown_handler,
            final(self).handler_count == old(self).handler_count,
    {
        self.timeout = timeout;
    }

    /// Builds the bot and the offset tracker that its poll loop advances. The command table
    /// moves into the bot, and the builder is left with none.
    pub fn build(&mut self) -> (r: (Bot, OffsetTracker))
        ensures
            r.0.key() == old(self).key@,
            r.0.name() == opt_view(old(self).name),
            r.0.update_interval() == old(self).update_interval,
            r.0.timeout() == old(self).timeout,
            r.0.commands() == old(self).handlers@,
            r.0.unknown_handler() == old(self).unknown_handler,
            r.1.value() == old(self).last_id,
            final(self).handlers@ == Map::<Seq<char>, usize>::empty(),
            final(self).unknown_handler is None,
            final(self).key == old(self).key,
            final(self).name == old(self).name,
            final(self).last_id == old(self).last_id,
            final(self).update_interval == old(self).update_interval,
            final(self).timeout == old(self).timeout,
            final(self).handler_count == old(self).handler_count,
    {
        let mut handlers = CommandTable::new();
        core::mem::swap(&mut handlers, &mut self.handlers);
        let unknown_handler = self.unknown_handler;
        self.unknown_handler = None;
        let bot = Bot {
            key: self.key.clone(),
            name: self.name.clone(),
            update_interval: self.update_interval,
            timeout: self.timeout,
            handlers,
            unknown_handler,
        };
        (bot, OffsetTracker::new(self.last_id))
    }
}

/// Where an update goes after routing.
#[derive(Debug)]
pub enum Dispatch {
    /// To the handler in `slot`, with this message.
    Deliver { slot: usize, message: Message },
    /// To no handler: the update is handed on unrouted.
    Unrouted { update: Update },
}

/// The text of an update's message, if it has a message with text.
pub open spec fn update_text(u: Update) -> Option<Seq<char>> {
    match u.message {
        Some(m) => opt_view(m.text),
        None => None,
    }
}

/// Whether `d` is where the router sends `u`: a command's handler gets the message with its
/// text cut to the words after the command and its ids unchanged, the fallback gets the
/// message unchanged, and an unrouted update is handed on as it is.
pub open spec fn dispatched(
    table: Map<Seq<char>, usize>,
    fallback: Option<usize>,
    name: Option<Seq<char>>,
    u: Update,
    d: Dispatch,
) -> bool {
    match route_of(table, fallback, name, update_text(u)) {
        RouteModel::Command(slot, text) => match d {
            Dispatch::Deliver { slot: s, message: m } => s == slot && u.message is Some
                && m.message_id == u.message->0.message_id && m.chat_id == u.message->0.chat_id
                && m.sender_id == u.message->0.sender_id && opt_view(m.text) == Some(text),
            _ => false,
        },
        RouteModel::Fallback(slot) => match d {
            Dispatch::Deliver { slot: s, message: m } => s == slot && u.message == Some(m),
            _ => false,
        },
        RouteModel::Unrouted => d == Dispatch::Unrouted { update: u },
    }
}

/// A message whose first word is a registered command (after the mention suffix is taken
/// off) reaches that command's handler with its text cut to the remaining words, and with
/// its ids unchanged.
pub proof fn lemma_registered_command(
    table: Map<Seq<char>, usize>,
    fallback: Option<usize>,
    name: Option<Seq<char>>,
    u: Update,
    d: Dispatch,
)
    requires
        dispatched(table, fallback, name, u, d),
        update_text(u) is Some,
        words(update_text(u)->0).len() > 0,
        is_command_token(words(update_text(u)->0)[0]),
        table.contains_key(mention_stripped(words(update_text(u)->0)[0], name)),
    ensures
        match d {
            Dispatch::Deliver { slot, message } => {
                &&& slot == table[mention_stripped(words(update_text(u)->0)[0], name)]
                &&& opt_view(message.text) == Some(join_words(words(update_text(u)->0).drop_first()))
                &&& message.message_id == u.message->0.message_id
                &&& message.chat_id == u.message->0.chat_id
                &&& message.sender_id == u.message->0.sender_id
            },
            _ => false,
        },
{
}

/// A command that is not registered reaches the fallback handler unchanged where there is
/// one, and is otherwise handed on unrouted.
pub proof fn lemma_unregistered_command(
    table: Map<Seq<char>, usize>,
    fallback: Option<usize>,
    name: Option<Seq<char>>,
    u: Update,
    d: Dispatch,
)
    requires
        dispatched(table, fallback, name, u, d),
        update_text(u) is Some,
        words(update_text(u)->0).len() > 0,
        is_command_token(words(update_text(u)->0)[0]),
        !table.contains_key(mention_stripped(words(update_text(u)->0)[0], name)),
    ensures
        fallback is Some ==> d == (Dispatch::Deliver { slot: fallback->0, message: u.message->0 }),
        fallback is None ==> d == (Dispatch::Unrouted { update: u }),
{
}

/// An update without text, or whose first word is not a command, reaches no handler.
pub proof fn lemma_non_command_unrouted(
    table: Map<Seq<char>, usize>,
    fallback: Option<usize>,
    name: Option<Seq<char>>,
    u: Update,
    d: Dispatch,
)
    requires
        dispatched(table, fallback, name, u, d),
        update_text(u) is None || words(update_text(u)->0).len() == 0 || !is_command_token(
            words(update_text(u)->0)[0],
        ),
    ensures
        d == (Dispatch::Unrouted { update: u }),
{
}

pub open spec fn update_ids(us: Seq<Update>) -> Seq<u64> {
    us.map_values(|u: Update| u.update_id)
}

/// The `getUpdates` parameters: the offset and the long-poll timeout.
pub open spec fn is_updates_query(q: JsonValue, offset: u64, timeout: u64) -> bool {
    &&& q is Object
    &&& q->Object_0@.len() == 2
    &&& field(q, "offset"@) == Some(JsonValue::Number(JsonNumber::Unsigned(offset)))
    &&& field(q, "timeout"@) == Some(JsonValue::Number(JsonNumber::Unsigned(timeout)))
}

/// A running bot's settings and command table, read-only once built.
pub struct Bot {
    key: String,
    name: Option<String>,
    update_interval: u64,
    timeout: u64,
    handlers: CommandTable,
    unknown_handler: Option<usize>,
}

impl Bot {
    pub closed spec fn key(&self) -> Seq<char> {
        self.key@
    }

    pub closed spec fn name(&self) -> Option<Seq<char>> {
        opt_view(self.name)
    }

    pub closed spec fn update_interval(&self) -> u64 {
        self.update_interval
    }

    pub closed spec fn timeout(&self) -> u64 {
        self.timeout
    }

    pub closed spec fn commands(&self) -> Map<Seq<char>, usize> {
        self.handlers@
    }

    pub closed spec fn unknown_handler(&self) -> Option<usize> {
        self.unknown_handler
    }

    pub fn builder(key: &str) -> (r: BotBuilder)
        ensures
            r.key@ == key@,
            r.name is None,
            r.last_id == 0,
            r.update_interval == 1000,
            r.timeout == 30,
            r.handlers@ == Map::<Seq<char>, usize>::empty(),
            r.unknown_handler is None,
            r.handler_count == 0,
    {
        BotBuilder::new(key)
    }

    pub fn get_key(&self) -> (r: &String)
        ensures
            r@ == self.key(),
    {
        &self.key
    }

    pub fn get_name(&self) -> (r: &Option<String>)
        ensures
            opt_view(*r) == self.name(),
    {
        &self.name
    }

    pub fn get_update_interval(&self) -> (r: u64)
        ensures
            r == self.update_interval(),
    {
        self.update_interval
    }

    pub fn get_timeout(&self) -> (r: u64)
        ensures
            r == self.timeout(),
    {
        self.timeout
    }

    /// Records the display name that the service reports for the bot.
    pub fn set_name(&mut self, name: &str)
        ensures
            final(self).name() == Some(name@),
            final(self).key() == old(self).key(),
            final(self).update_interval() == old(self).update_interval(),
            final(self).timeout() == old(self).timeout(),
            final(self).commands() == old(self).commands(),
            final(self).unknown_handler() == old(self).unknown_handler(),
    {
        self.name = Some(name.to_owned());
    }

    /// A request with a JSON body for the method `func`.
    pub fn build_json(&self, func: &str, msg: String) -> (r: JsonRequest)
        ensures
            r.url@ == api_url_of(self.key(), func@),
            r.body@ == msg@,
    {
        JsonRequest { url: api_url(self.key.as_str(), func), body: msg }
    }

    /// A multipart request for the method `func`: each parameter as a text field, and
    /// `file` under the field `kind`. Parameters that are not an object are refused.
    pub fn build_formdata(&self, func: &str, msg: &JsonValue, file: File, kind: &str) -> (r:
        Result<FormRequest, ApiError>)
        ensures
            r is Ok <==> msg is Object,
            r is Err ==> r->Err_0 is MalformedParameters,
            r is Ok ==> r->Ok_0.url@ == api_url_of(self.key(), func@) && fields_of(
                msg->Object_0@,
                r->Ok_0.fields@,
            ) && r->Ok_0.file_field@ == kind@ && r->Ok_0.file == file,
    {
        match form_fields(msg) {
            Ok(fields) => Ok(
                FormRequest {
                    url: api_url(self.key.as_str(), func),
                    fields,
                    file_field: kind.to_owned(),
                    file,
                },
            ),
            Err(e) => Err(e),
        }
    }

    /// The `getUpdates` request for the next poll, from the offset reached so far.
    pub fn updates_request(&self, offset: &OffsetTracker) -> (r: JsonRequest)
        ensures
            r.url@ == api_url_of(self.key(), "getUpdates"@),
            exists|q: JsonValue|
                is_updates_query(q, offset.value() as u64, self.timeout()) && r.body@ == json_text(
                    q,
                ),
    {
        let o = offset.read();
        let ok = String::from_str("offset");
        let tk = String::from_str("timeout");
        proof {
            reveal_strlit("offset");
            reveal_strlit("timeout");
        }
        let q = JsonValue::Object(
            vec![
                (ok, JsonValue::Number(JsonNumber::Unsigned(o))),
                (tk, JsonValue::Number(JsonNumber::Unsigned(self.timeout))),
            ],
        );
        proof {
            let e = q->Object_0@;
            assert(e.drop_last() =~= seq![e[0]]);
            assert(seq![e[0]].drop_last() =~= Seq::<(String, JsonValue)>::empty());
            assert("timeout"@[0] != "offset"@[0]);
            assert(e.last().0@ != "offset"@);
            assert(find_member(e.drop_last(), "offset"@) == Some(e[0].1));
            assert(field(q, "offset"@) == Some(e[0].1));
            assert(field(q, "timeout"@) == Some(e[1].1));
            assert(is_updates_query(q, offset.value() as u64, self.timeout()));
        }
        let body = print_json(&q);
        JsonRequest { url: api_url(self.key.as_str(), "getUpdates"), body }
    }

    /// Routes one update.
    pub fn dispatch(&self, update: Update) -> (r: Dispatch)
        ensures
            dispatched(self.commands(), self.unknown_handler(), self.name(), update, r),
    {
        let decision = match &update.message {
            Some(m) => route(
                &self.handlers,
                self.unknown_handler,
                &self.name,
                match &m.text {
                    Some(t) => Some(t.as_str()),
                    None => None,
                },
            ),
            None => Route::Unrouted,
        };
        match decision {
            Route::Unrouted => Dispatch::Unrouted { update },
            Route::Fallback { slot } => match update.message {
                Some(m) => Dispatch::Deliver { slot, message: m },
                None => Dispatch::Unrouted { update: Update { update_id: update.update_id, message: None } },
            },
            Route::Command { slot, text } => match update.message {
                Some(m) => Dispatch::Deliver {
                    slot,
                    message: Message {
                        message_id: m.message_id,
                        chat_id: m.chat_id,
                        sender_id: m.sender_id,
                        text: Some(text),
                    },
                },
                None => Dispatch::Unrouted { update: Update { update_id: update.update_id, message: None } },
            },
        }
    }

    /// Handles one polled batch in order: advances the offset past each update, then
    /// routes it.
    pub fn process_batch(&self, offset: &mut OffsetTracker, updates: Vec<Update>) -> (r: Vec<
        Dispatch,
    >)
        ensures
            final(offset).value() == batch_offset(old(offset).value(), update_ids(updates@)),
            r@.len() == updates@.len(),
            forall|i: int|
                0 <= i < r@.len() ==> dispatched(
                    self.commands(),
                    self.unknown_handler(),
                    self.name(),
                    updates@[i],
                    #[trigger] r@[i],
                ),
    {
        let ghost all = updates@;
        let ghost start = offset.value();
        let mut rest = updates;
        let mut out: Vec<Dispatch> = Vec::new();
        let n = rest.len();
        let mut i: usize = 0;
        while i < n
            invariant
                n == all.len(),
                i <= n,
                rest@ == all.subrange(i as int, n as int),
                out@.len() == i,
                offset.value() == batch_offset(start, update_ids(all.subrange(0, i as int))),
                forall|j: int|
                    0 <= j < i ==> dispatched(
                        self.commands(),
                        self.unknown_handler(),
                        self.name(),
                        all[j],
                        #[trigger] out@[j],
                    ),
            decreases n - i,
        {
            let u = rest.remove(0);
            proof {
                let ids = update_ids(all.subrange(0, i + 1));
                assert(ids.drop_last() =~= update_ids(all.subrange(0, i as int)));
                assert(ids.last() == u.update_id);
            }
            offset.advance_past(u.update_id);
            out.push(self.dispatch(u));
            assert(rest@ =~= all.subrange(i + 1, n as int));
            i = i + 1;
        }
        assert(all.subrange(0, n as int) =~= all);
        out
    }

    /// One poll tick's outcome: the decoded `result` text of `getUpdates`, or the failure.
    /// A failure, or a result that is not a batch of updates, drops the tick and leaves
    /// the offset as it was; a batch is processed in order.
    pub fn on_poll_result(&self, offset: &mut OffsetTracker, outcome: Result<String, ApiError>) -> (r:
        Vec<Dispatch>)
        ensures
            ({
                let batch_ok = outcome is Ok && parsed_json(outcome->Ok_0@) is Some
                    && batch_readable(parsed_json(outcome->Ok_0@)->0);
                &&& !batch_ok ==> final(offset).value() == tick_offset(old(offset).value(), None)
                    && r@.len() == 0
                &&& batch_ok ==> exists|us: Seq<Update>|
                    #![trigger batch_read(parsed_json(outcome->Ok_0@)->0, us)]
                    batch_read(parsed_json(outcome->Ok_0@)->0, us) && final(offset).value()
                        == tick_offset(old(offset).value(), Some(update_ids(us))) && r@.len()
                        == us.len() && forall|i: int|
                        0 <= i < r@.len() ==> dispatched(
                            self.commands(),
                            self.unknown_handler(),
                            self.name(),
                            us[i],
                            #[trigger] r@[i],
                        )
            }),
    {
        match outcome {
            Err(_) => Vec::new(),
            Ok(text) => match parse_updates(text.as_str()) {
                Err(_) => Vec::new(),
                Ok(us) => {
                    let ghost s = us@;
                    let r = self.process_batch(offset, us);
                    assert(batch_read(parsed_json(text@)->0, s));
                    r
                },
            },
        }
    }
}

} // verus!
