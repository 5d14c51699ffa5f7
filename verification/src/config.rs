//! The services' configuration: what is read from the configuration files, and the list of
//! active profiles named by the environment.
use vstd::prelude::*;
use vstd::string::*;
use crate::event_store::TopicConfiguration;
use crate::text::{
    is_whitespace, is_ws, lemma_chars_deep_view, split_on, split_on_char, str_chars,
    string_from_chars,
};

verus! {

/// The port the service listens on.
pub struct ServerConfiguration {
    pub port: u16,
}

/// The address of the relational database.
pub struct PostgresDatabaseUrl {
    pub url: String,
}

/// The document database: its address and connection settings.
pub struct MongoDatabaseConfiguration {
    pub url: String,
    pub connection: MongoDatabaseConnectionProperties,
}

/// Connection settings of the document database.
pub struct MongoDatabaseConnectionProperties {
    pub pool: MongoDatabasePoolProperties,
    pub connect_timeout: Option<u64>,
    pub idle_timeout: Option<u64>,
}

/// Pool sizes of the document database.
pub struct MongoDatabasePoolProperties {
    pub min: Option<u32>,
    pub max: Option<u32>,
}

/// The addresses of the message brokers.
pub struct BrokerProperties {
    pub urls: String,
}

/// One consumer of the message broker: the topics it reads and its ids.
pub struct ConsumerConfiguration {
    pub id: String,
    pub topic: Vec<String>,
    pub client_id: String,
    pub group_id: String,
}

/// The address of the schema registry.
pub struct SchemaRegistryProperties {
    pub url: String,
}

/// The message broker: brokers, consumers, schema registry, topics and producer.
pub struct KafkaConfiguration {
    pub broker: BrokerProperties,
    pub consumer: Vec<ConsumerConfiguration>,
    pub schema_registry: SchemaRegistryProperties,
    pub topic: TopicConfiguration,
    pub producer: ProducerProperties,
}

/// The producer's ids.
pub struct ProducerProperties {
    pub client_id: String,
    pub transactional_id: String,
}

/// The address of the key-value store.
pub struct RedisConfiguration {
    pub url: String,
}

/// Logging: the levels to log at.
pub struct LoggingConfiguration {
    pub level: LogLevelConfiguration,
}

/// The root level and the levels of single namespaces.
pub struct LogLevelConfiguration {
    pub root: Option<String>,
    pub directives: Vec<LoggingDirective>,
}

/// The level of one namespace.
pub struct LoggingDirective {
    pub namespace: String,
    pub level: String,
}

/// The configuration of the game-state consumer.
pub struct Configuration {
    pub kafka: KafkaConfiguration,
}

/// A text without its leading whitespace.
pub open spec fn trim_start(s: Seq<char>) -> Seq<char>
    decreases s.len(),
{
    if s.len() > 0 && is_ws(s[0]) {
        trim_start(s.drop_first())
    } else {
        s
    }
}

/// A text without its trailing whitespace.
pub open spec fn trim_end(s: Seq<char>) -> Seq<char>
    decreases s.len(),
{
    if s.len() > 0 && is_ws(s.last()) {
        trim_end(s.drop_last())
    } else {
        s
    }
}

/// A text without leading and trailing whitespace, as `str::trim` gives it.
pub open spec fn trim(s: Seq<char>) -> Seq<char> {
    trim_end(trim_start(s))
}

/// The text without leading and trailing whitespace.
pub fn trim_chars(s: &Vec<char>) -> (r: Vec<char>)
    ensures
        r@ == trim(s@),
{
    let mut i: usize = 0;
    assert(s@.skip(0) =~= s@);
    while i < s.len() && is_whitespace(s[i])
        invariant
            i <= s.len(),
            trim_start(s@) == trim_start(s@.skip(i as int)),
        decreases s.len() - i,
    {
        assert(s@.skip(i as int)[0] == s@[i as int]);
        assert(s@.skip(i as int).drop_first() =~= s@.skip(i + 1));
        i = i + 1;
    }
    assert(trim_start(s@) == s@.skip(i as int)) by {
        if i < s.len() {
            assert(s@.skip(i as int)[0] == s@[i as int]);
        } else {
            assert(s@.skip(i as int) =~= Seq::<char>::empty());
        }
    }
    let mut j: usize = s.len();
    assert(s@.skip(i as int) =~= s@.subrange(i as int, j as int));
    while j > i && is_whitespace(s[j - 1])
        invariant
            i <= j <= s.len(),
            trim_end(s@.skip(i as int)) == trim_end(s@.subrange(i as int, j as int)),
        decreases j - i,
    {
        assert(s@.subrange(i as int, j as int).last() == s@[j - 1]);
        assert(s@.subrange(i as int, j as int).drop_last() =~= s@.subrange(i as int, j - 1));
        j = j - 1;
    }
    assert(trim_end(s@.subrange(i as int, j as int)) == s@.subrange(i as int, j as int)) by {
        if j > i {
            assert(s@.subrange(i as int, j as int).last() == s@[j - 1]);
        }
    }
    let mut out: Vec<char> = Vec::new();
    let mut k: usize = i;
    while k < j
        invariant
            i <= k <= j <= s.len(),
            out@ == s@.subrange(i as int, k as int),
        decreases j - k,
    {
        out.push(s[k]);
        assert(s@.subrange(i as int, k + 1) =~= s@.subrange(i as int, k as int).push(s@[k as int]));
        k = k + 1;
    }
    out
}

/// The trimmed pieces that are not empty, in order.
pub open spec fn nonempty_trimmed(ps: Seq<Seq<char>>) -> Seq<Seq<char>>
    decreases ps.len(),
{
    if ps.len() == 0 {
        seq![]
    } else {
        let rest = nonempty_trimmed(ps.drop_last());
        let t = trim(ps.last());
        if t.len() > 0 {
            rest.push(t)
        } else {
            rest
        }
    }
}

/// The profiles named by a comma-separated list: each name trimmed, empty names left out.
pub open spec fn spec_active_profiles(raw: Seq<char>) -> Seq<Seq<char>> {
    nonempty_trimmed(split_on(raw, ','))
}

/// The profiles named by a comma-separated list, such as the one the environment gives.
pub fn active_profiles(raw: &String) -> (r: Vec<String>)
    ensures
        r@.len() == spec_active_profiles(raw@).len(),
        forall|i: int| 0 <= i < r@.len() ==> (#[trigger] r@[i])@ == spec_active_profiles(raw@)[i],
{
    let chars = str_chars(raw.as_str());
    let pieces = split_on_char(&chars, ',');
    let ghost ps = pieces.deep_view();
    let mut out: Vec<String> = Vec::new();
    let mut k: usize = 0;
    assert(ps.take(0) =~= Seq::<Seq<char>>::empty());
    while k < pieces.len()
        invariant
            k <= pieces@.len(),
            ps == pieces.deep_view(),
            ps.len() == pieces@.len(),
            out@.len() == nonempty_trimmed(ps.take(k as int)).len(),
            forall|i: int|
                0 <= i < out@.len() ==> (#[trigger] out@[i])@ == nonempty_trimmed(
                    ps.take(k as int),
                )[i],
        decreases pieces@.len() - k,
    {
        proof {
            lemma_chars_deep_view(pieces[k as int]);
            assert(ps.take(k + 1).drop_last() =~= ps.take(k as int));
            assert(ps.take(k + 1).last() == ps[k as int]);
        }
        let t = trim_chars(&pieces[k]);
        if t.len() > 0 {
            out.push(string_from_chars(&t));
        }
        k = k + 1;
    }
    assert(ps.take(k as int) =~= ps);
    out
}

} // verus!
