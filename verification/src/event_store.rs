//! The outbox of game events: choosing the converter of an event, its partition and key,
//! and the record that is stored for the relay to publish.
use vstd::prelude::*;
use vstd::string::*;
use std::io::Cursor;
use tracing_opentelemetry::OpenTelemetrySpanExt;
use opentelemetry::trace::TraceContextExt;
use crate::accounts::{copy_string, same_string};
use crate::config::KafkaConfiguration;
use crate::ids::{uuid_bytes, uuid_octets, uuid_text, uuid_to_string};

verus! {

/// The schema name of the event that records a game move.
pub const SCHEMA_NAME_CREATE_USER_GAME_EVENT: &'static str = "CreateUserGameAvroV1";

/// A topic of the broker and its number of partitions.
pub struct TopicProperties {
    pub id: String,
    pub topic_name: String,
    pub partitions: i32,
}

/// The topics of the broker.
pub struct TopicConfiguration {
    pub mappings: Vec<TopicProperties>,
}

/// The mapping at `k` is the only one with this id.
pub open spec fn sole_mapping(ms: Seq<TopicProperties>, id: Seq<char>, k: int) -> bool {
    &&& 0 <= k < ms.len()
    &&& ms[k].id@ == id
    &&& forall|j: int| 0 <= j < ms.len() && j != k ==> (#[trigger] ms[j]).id@ != id
}

/// A copy of a topic's properties.
pub fn copy_topic(t: &TopicProperties) -> (r: TopicProperties)
    ensures
        r.id@ == t.id@,
        r.topic_name@ == t.topic_name@,
        r.partitions == t.partitions,
{
    TopicProperties {
        id: copy_string(&t.id),
        topic_name: copy_string(&t.topic_name),
        partitions: t.partitions,
    }
}

impl TopicConfiguration {
    /// The topic mapped under an id: exactly one mapping must carry the id; `None` where
    /// none or several do.
    pub fn get_mapping(&self, id: &String) -> (r: Option<TopicProperties>)
        ensures
            match r {
                Some(t) => exists|k: int|
                    sole_mapping(self.mappings@, id@, k) && t.id@ == self.mappings@[k].id@
                        && t.topic_name@ == self.mappings@[k].topic_name@ && t.partitions
                        == self.mappings@[k].partitions,
                None => forall|k: int| !sole_mapping(self.mappings@, id@, k),
            },
    {
        let ghost ms = self.mappings@;
        let mut found: Option<usize> = None;
        let mut twice = false;
        let mut i: usize = 0;
        while i < self.mappings.len()
            invariant
                ms == self.mappings@,
                i <= ms.len(),
                found is None ==> !twice && forall|j: int| 0 <= j < i ==> (#[trigger] ms[j]).id@ != id@,
                found matches Some(k) ==> k < i && ms[k as int].id@ == id@ && (!twice ==> forall|j: int|
                    0 <= j < i && j != k ==> (#[trigger] ms[j]).id@ != id@),
                twice ==> exists|a: int, b: int|
                    0 <= a < b < i && (#[trigger] ms[a]).id@ == id@ && (#[trigger] ms[b]).id@ == id@,
            decreases ms.len() - i,
        {
            if same_string(&self.mappings[i].id, id) {
                match found {
                    None => {
                        found = Some(i);
                    },
                    Some(k) => {
                        assert(ms[k as int].id@ == id@ && ms[i as int].id@ == id@);
                        twice = true;
                    },
                }
            }
            i = i + 1;
        }
        if twice {
            assert forall|k: int| !sole_mapping(ms, id@, k) by {
                let (a, b) = choose|a: int, b: int|
                    0 <= a < b < i && (#[trigger] ms[a]).id@ == id@ && (#[trigger] ms[b]).id@ == id@;
                if sole_mapping(ms, id@, k) {
                    if k == a {
                        assert(ms[b].id@ != id@);
                    } else {
                        assert(ms[a].id@ != id@);
                    }
                }
            }
            return None;
        }
        match found {
            None => None,
            Some(k) => {
                assert(sole_mapping(ms, id@, k as int));
                Some(copy_topic(&self.mappings[k]))
            },
        }
    }
}

/// A move of a game, as the outbox stores it.
pub struct UserGameMove {
    pub id: u128,
    pub user_id: String,
    pub game_id: String,
    pub version: i64,
    pub user_move: String,
    pub socket_id: String,
}

/// A game event, as the outbox stores it.
pub struct UserGameEvent {
    pub id: u128,
    pub version: i64,
    pub name: String,
    pub description: String,
    pub user_game_move: UserGameMove,
}

/// The move part of the published form of a game event.
pub struct UserGameMoveAvro {
    pub id: u128,
    pub user_id: String,
    pub game_id: String,
    pub version: i64,
    pub user_move: String,
    pub socket_id: String,
}

/// The published form of a game event.
pub struct CreateUserGameMoveEventAvro {
    pub identifier: String,
    pub name: String,
    pub description: String,
    pub user_game_move: UserGameMoveAvro,
}

/// What a message key identifies.
pub struct IdentifierAvro {
    pub data_type: String,
    pub identifier: String,
    pub version: i64,
}

/// The key of a published message.
pub struct KeyAvro {
    pub context_identifier: String,
    pub identifier: IdentifierAvro,
}

/// The schema name of the event that records an account coming online.
pub const SCHEMA_NAME_CREATE_USER_ONLINE: &'static str = "CreateUserOnlineAvroV1";

/// The published form of an account coming online on a socket.
pub struct CreateUserOnlineAvro {
    pub identifier: String,
    pub user_id: String,
    pub socket_id: String,
}

/// The published form of a game event: its id in text, its name and description, and the
/// move as it is.
pub fn create_user_game_move_avro(e: UserGameEvent) -> (r: CreateUserGameMoveEventAvro)
    ensures
        r.identifier@ == uuid_text(e.id),
        r.name == e.name,
        r.description == e.description,
        r.user_game_move.id == e.user_game_move.id,
        r.user_game_move.user_id == e.user_game_move.user_id,
        r.user_game_move.game_id == e.user_game_move.game_id,
        r.user_game_move.version == e.user_game_move.version,
        r.user_game_move.user_move == e.user_game_move.user_move,
        r.user_game_move.socket_id == e.user_game_move.socket_id,
{
    CreateUserGameMoveEventAvro {
        identifier: uuid_to_string(e.id),
        name: e.name,
        description: e.description,
        user_game_move: UserGameMoveAvro {
            id: e.user_game_move.id,
            user_id: e.user_game_move.user_id,
            game_id: e.user_game_move.game_id,
            version: e.user_game_move.version,
            user_move: e.user_game_move.user_move,
            socket_id: e.user_game_move.socket_id,
        },
    }
}

/// What `murmur3::murmur3_32` computes for these bytes and this seed.
pub uninterp spec fn murmur3_hash(bytes: Seq<u8>, seed: u32) -> u32;

/// Calls `murmur3::murmur3_32` on a cursor over the bytes; reading from memory cannot fail,
/// so the hash, named by [`murmur3_hash`], always comes back. The crate counts the bytes in a
/// `u32`, so `requires` keeps the input under 2^32 bytes.
#[verifier::external_body]
fn murmur3_32_of(bytes: &Vec<u8>, seed: u32) -> (r: u32)
    requires
        bytes@.len() < 0x1_0000_0000,
    ensures
        r == murmur3_hash(bytes@, seed),
{
    murmur3::murmur3_32(&mut Cursor::new(bytes.as_slice()), seed).unwrap()
}

/// The partition of an event: the murmur3 hash (seed 0) of the id's 16 octets, modulo the
/// number of partitions taken as an unsigned 32-bit number, read back as a signed one.
pub open spec fn spec_partition_of(identifier: u128, num_partitions: i32) -> i32 {
    (murmur3_hash(uuid_octets(identifier), 0) % (num_partitions as u32)) as i32
}

/// The partition that an event with this id goes to.
pub fn partition_of(identifier: u128, num_partitions: i32) -> (r: i32)
    requires
        num_partitions != 0,
    ensures
        r == spec_partition_of(identifier, num_partitions),
        num_partitions > 0 ==> 0 <= r < num_partitions,
{
    let bytes = uuid_bytes(identifier);
    let h = murmur3_32_of(&bytes, 0);
    let n = num_partitions as u32;
    assert(n != 0) by (bit_vector)
        requires
            n == num_partitions as u32,
            num_partitions != 0,
    ;
    assert(num_partitions > 0 ==> n == num_partitions) by (bit_vector)
        requires
            n == num_partitions as u32,
            num_partitions != 0,
    ;
    (h % n) as i32
}

/// What an event becomes before it is encoded: its topic, partition, key and published form.
pub struct EventPlan {
    pub topic: String,
    pub partition: i32,
    pub key: KeyAvro,
    pub value: CreateUserGameMoveEventAvro,
}

/// The plan that a converter makes of a game event: published on the converter's topic, in
/// the partition of the event's id; keyed by the id (as context and identifier), the data type
/// `user_game_event` and the event's version; and carrying the event's id in text, its name,
/// its description and its move as it is.
pub open spec fn plan_of(p: EventPlan, c: UserGameEventConverter, e: UserGameEvent) -> bool {
    &&& p.topic@ == c.topic_configuration.topic_name@
    &&& p.partition == spec_partition_of(e.id, c.topic_configuration.partitions)
    &&& p.key.context_identifier@ == uuid_text(e.id)
    &&& p.key.identifier.data_type@ == "user_game_event"@
    &&& p.key.identifier.identifier@ == uuid_text(e.id)
    &&& p.key.identifier.version == e.version
    &&& p.value.identifier@ == uuid_text(e.id)
    &&& p.value.name@ == e.name@
    &&& p.value.description@ == e.description@
    &&& p.value.user_game_move.id == e.user_game_move.id
    &&& p.value.user_game_move.user_id@ == e.user_game_move.user_id@
    &&& p.value.user_game_move.game_id@ == e.user_game_move.game_id@
    &&& p.value.user_game_move.version == e.user_game_move.version
    &&& p.value.user_game_move.user_move@ == e.user_game_move.user_move@
    &&& p.value.user_game_move.socket_id@ == e.user_game_move.socket_id@
}

/// The converter of game move events, bound to the topic they are published on.
pub struct UserGameEventConverter {
    pub topic_configuration: TopicProperties,
}

/// Whether a converter of game move events handles events of this type.
pub open spec fn spec_handles(event_type: Seq<char>) -> bool {
    event_type == SCHEMA_NAME_CREATE_USER_GAME_EVENT@
}

/// The key of a game event: the event's id, as context and as identifier, with the data
/// type `user_game_event` and the event's version.
pub fn key_avro_for(e: &UserGameEvent) -> (r: KeyAvro)
    ensures
        r.context_identifier@ == uuid_text(e.id),
        r.identifier.data_type@ == "user_game_event"@,
        r.identifier.identifier@ == uuid_text(e.id),
        r.identifier.version == e.version,
{
    KeyAvro {
        context_identifier: uuid_to_string(e.id),
        identifier: IdentifierAvro {
            data_type: String::from_str("user_game_event"),
            identifier: uuid_to_string(e.id),
            version: e.version,
        },
    }
}

impl UserGameEventConverter {
    /// The converter of game move events, bound to the topic mapped under `events`; `None`
    /// where the configuration does not map exactly one topic under that id.
    pub fn new(config: &KafkaConfiguration) -> (r: Option<Self>)
        ensures
            match r {
                Some(c) => exists|k: int|
                    sole_mapping(config.topic.mappings@, "events"@, k)
                        && c.topic_configuration.topic_name@ == config.topic.mappings@[k].topic_name@
                        && c.topic_configuration.partitions == config.topic.mappings@[k].partitions,
                None => forall|k: int| !sole_mapping(config.topic.mappings@, "events"@, k),
            },
    {
        match config.topic.get_mapping(&String::from_str("events")) {
            Some(t) => Some(UserGameEventConverter { topic_configuration: t }),
            None => None,
        }
    }

    /// Whether this converter handles events of this type.
    pub fn handles(&self, event_type: &String) -> (r: bool)
        ensures
            r == spec_handles(event_type@),
    {
        event_type.eq(&String::from_str(SCHEMA_NAME_CREATE_USER_GAME_EVENT))
    }

    /// What a game event becomes: published on the converter's topic, in the partition of
    /// its id, keyed by its id and version.
    pub fn handle(&self, event_type: &String, event: UserGameEvent) -> (r: EventPlan)
        requires
            spec_handles(event_type@),
            self.topic_configuration.partitions != 0,
        ensures
            plan_of(r, *self, event),
    {
        let partition = partition_of(event.id, self.topic_configuration.partitions);
        let key = key_avro_for(&event);
        EventPlan {
            topic: copy_string(&self.topic_configuration.topic_name),
            partition,
            key,
            value: create_user_game_move_avro(event),
        }
    }
}

/// The converters that events are handed to.
pub struct EventDispatcher {
    pub event_converters: Vec<UserGameEventConverter>,
}

impl EventDispatcher {
    /// A dispatcher over these converters.
    pub fn new(event_converters: Vec<UserGameEventConverter>) -> (r: Self)
        ensures
            r.event_converters == event_converters,
    {
        EventDispatcher { event_converters }
    }

    /// The plans of every converter that handles the event's type, in the converters'
    /// order. Some converter must handle it.
    pub fn dispatch(&self, event_type: &String, event: &UserGameEvent) -> (r: Vec<EventPlan>)
        requires
            spec_handles(event_type@),
            self.event_converters@.len() > 0,
            forall|i: int|
                0 <= i < self.event_converters@.len() ==> (#[trigger] self.event_converters@[i]).topic_configuration.partitions != 0,
        ensures
            r@.len() == self.event_converters@.len(),
            forall|i: int| 0 <= i < r@.len() ==> plan_of(#[trigger] r@[i], self.event_converters@[i], *event),
    {
        let mut out: Vec<EventPlan> = Vec::new();
        let mut i: usize = 0;
        while i < self.event_converters.len()
            invariant
                i <= self.event_converters@.len(),
                spec_handles(event_type@),
                forall|k: int|
                    0 <= k < self.event_converters@.len() ==> (#[trigger] self.event_converters@[k]).topic_configuration.partitions != 0,
                out@.len() == i,
                forall|k: int| 0 <= k < i ==> plan_of(#[trigger] out@[k], self.event_converters@[k], *event),
            decreases self.event_converters@.len() - i,
        {
            let converter = &self.event_converters[i];
            if converter.handles(event_type) {
                out.push(converter.handle(event_type, copy_event(event)));
            }
            i = i + 1;
        }
        out
    }
}

/// A copy of a game event.
pub fn copy_event(e: &UserGameEvent) -> (r: UserGameEvent)
    ensures
        r.id == e.id,
        r.version == e.version,
        r.name@ == e.name@,
        r.description@ == e.description@,
        r.user_game_move.id == e.user_game_move.id,
        r.user_game_move.user_id@ == e.user_game_move.user_id@,
        r.user_game_move.game_id@ == e.user_game_move.game_id@,
        r.user_game_move.version == e.user_game_move.version,
        r.user_game_move.user_move@ == e.user_game_move.user_move@,
        r.user_game_move.socket_id@ == e.user_game_move.socket_id@,
{
    UserGameEvent {
        id: e.id,
        version: e.version,
        name: copy_string(&e.name),
        description: copy_string(&e.description),
        user_game_move: UserGameMove {
            id: e.user_game_move.id,
            user_id: copy_string(&e.user_game_move.user_id),
            game_id: copy_string(&e.user_game_move.game_id),
            version: e.user_game_move.version,
            user_move: copy_string(&e.user_game_move.user_move),
            socket_id: copy_string(&e.user_game_move.socket_id),
        },
    }
}

/// An encoded event, ready to be stored.
pub struct EventDto {
    pub topic: String,
    pub partition: i32,
    pub key: Vec<u8>,
    pub payload: Vec<u8>,
}

/// The stored record of an encoded event, with the trace it was made in.
pub struct Model {
    pub topic: String,
    pub partition: i32,
    pub key: Vec<u8>,
    pub payload: Vec<u8>,
    pub trace_id: Option<String>,
}

/// The stored record of an encoded event.
pub fn save(event: EventDto, trace_id: Option<String>) -> (r: Model)
    ensures
        r.topic == event.topic,
        r.partition == event.partition,
        r.key == event.key,
        r.payload == event.payload,
        r.trace_id == trace_id,
{
    Model {
        topic: event.topic,
        partition: event.partition,
        key: event.key,
        payload: event.payload,
        trace_id,
    }
}

/// A lowercase hexadecimal digit.
pub open spec fn lower_hex(c: char) -> bool {
    ('0' <= c && c <= '9') || ('a' <= c && c <= 'f')
}

/// An id as `opentelemetry` writes it: `n` lowercase hexadecimal digits.
pub open spec fn hex_id(s: Seq<char>, n: nat) -> bool {
    s.len() == n && forall|i: int| 0 <= i < s.len() ==> lower_hex(#[trigger] s[i])
}

/// The id written for the value zero, which marks an invalid trace or span: `n` zeros.
pub open spec fn zero_id(n: nat) -> Seq<char> {
    Seq::new(n, |i: int| '0')
}

/// Reads the span context of the current tracing span: whether it is valid, and its trace
/// and span ids as `opentelemetry` writes them (`{:032x}` and `{:016x}`). The ids depend on
/// the running trace, so they are not named; the contract states their form, and that the
/// context is valid exactly when neither id is zero (`SpanContext::is_valid`).
#[verifier::external_body]
fn current_span_context() -> (r: (bool, String, String))
    ensures
        hex_id(r.1@, 32),
        hex_id(r.2@, 16),
        r.0 <==> (r.1@ != zero_id(32) && r.2@ != zero_id(16)),
{
    let context = tracing::Span::current().context();
    let span = context.span();
    let span_context = span.span_context();
    (span_context.is_valid(), span_context.trace_id().to_string(), span_context.span_id().to_string())
}

/// The B3 form of a trace: the trace id, the span id and the sampled flag `1`, joined by `-`.
pub open spec fn b3(trace_id: Seq<char>, span_id: Seq<char>) -> Seq<char> {
    trace_id + "-"@ + span_id + "-1"@
}

/// The B3 trace header of a span context: its B3 form when the context is valid, `None`
/// otherwise.
pub fn b3_trace_id_of(valid: bool, trace_id: &String, span_id: &String) -> (r: Option<String>)
    ensures
        valid ==> (r matches Some(s) && s@ == b3(trace_id@, span_id@)),
        !valid ==> r is None,
{
    if !valid {
        return None;
    }
    Some(b3_header(trace_id, span_id))
}

/// The B3 trace header of the current span, or `None` outside a valid span: the trace id and
/// span id of the current span context, in B3 form, where neither is zero.
pub fn get_b3_trace_id() -> (r: Option<String>)
    ensures
        exists|t: Seq<char>, p: Seq<char>|
            #![trigger b3(t, p)]
            hex_id(t, 32) && hex_id(p, 16) && match r {
                Some(s) => t != zero_id(32) && p != zero_id(16) && s@ == b3(t, p),
                None => t == zero_id(32) || p == zero_id(16),
            },
{
    let (valid, trace_id, span_id) = current_span_context();
    let r = b3_trace_id_of(valid, &trace_id, &span_id);
    proof {
        let witness = b3(trace_id@, span_id@);
    }
    r
}

/// The B3 form of a trace id and a span id.
pub fn b3_header(trace_id: &String, span_id: &String) -> (r: String)
    ensures
        r@ == b3(trace_id@, span_id@),
{
    copy_string(trace_id).concat("-").concat(span_id.as_str()).concat("-1")
}

} // verus!
