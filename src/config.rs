//! Building the client configuration from caller-supplied key/value pairs.
use crate::error::InitError;
use vstd::prelude::*;

verus! {

#[verifier::external_type_specification]
#[verifier::external_body]
pub struct ExClientConfig(rdkafka::ClientConfig);

/// The key every configuration must carry: the broker address list.
pub const BOOTSTRAP_SERVERS: &'static str = "bootstrap.servers";

/// The key/value pairs a client configuration holds.
pub uninterp spec fn config_entries(c: rdkafka::ClientConfig) -> Map<Seq<char>, Seq<char>>;

/// Whether a client configuration sets the client's own log level to debug.
pub uninterp spec fn config_debug_logging(c: rdkafka::ClientConfig) -> bool;

/// The map that `pairs` describe; a later pair overrides an earlier one
/// with the same key.
pub open spec fn pairs_map(pairs: Seq<(String, String)>) -> Map<Seq<char>, Seq<char>>
    decreases pairs.len(),
{
    if pairs.len() == 0 {
        Map::empty()
    } else {
        pairs_map(pairs.drop_last()).insert(pairs.last().0@, pairs.last().1@)
    }
}

/// Relies on rdkafka::ClientConfig::new: a configuration with no keys set.
#[verifier::external_body]
fn empty_config() -> (r: rdkafka::ClientConfig)
    ensures
        config_entries(r).dom() == Set::<Seq<char>>::empty(),
{
    rdkafka::ClientConfig::new()
}

/// Relies on rdkafka::ClientConfig::set: inserts the pair into the key map,
/// replacing an earlier value for the key, and leaves the log level alone.
#[verifier::external_body]
fn set_entry(c: &mut rdkafka::ClientConfig, key: &String, value: &String)
    ensures
        config_entries(*final(c)) == config_entries(*old(c)).insert(key@, value@),
        config_debug_logging(*final(c)) == config_debug_logging(*old(c)),
{
    c.set(key.as_str(), value.as_str());
}

/// Relies on rdkafka::ClientConfig::set_log_level: sets the level field
/// only, here to `Debug`.
#[verifier::external_body]
fn set_debug_logging(c: &mut rdkafka::ClientConfig)
    ensures
        config_entries(*final(c)) == config_entries(*old(c)),
        config_debug_logging(*final(c)),
{
    c.set_log_level(rdkafka::config::RDKafkaLogLevel::Debug);
}

/// Relies on rdkafka::ClientConfig::get: the value stored under `key`.
#[verifier::external_body]
fn entry(c: &rdkafka::ClientConfig, key: &str) -> (r: Option<String>)
    ensures
        match r {
            Some(v) => config_entries(*c).contains_key(key@) && config_entries(*c)[key@] == v@,
            None => !config_entries(*c).contains_key(key@),
        },
{
    c.get(key).map(String::from)
}

/// The client configuration for `pairs`, with the client logging at debug
/// level; fails when no pair sets `bootstrap.servers`.
pub fn client_config(pairs: &Vec<(String, String)>) -> (r: Result<rdkafka::ClientConfig, InitError>)
    ensures
        r is Ok <==> pairs_map(pairs@).contains_key(BOOTSTRAP_SERVERS@),
        match r {
            Ok(c) => config_entries(c) == pairs_map(pairs@) && config_debug_logging(c),
            Err(e) => e == InitError::MissingBootstrapServers,
        },
{
    let mut c = empty_config();
    let mut i: usize = 0;
    while i < pairs.len()
        invariant
            0 <= i <= pairs@.len(),
            config_entries(c) == pairs_map(pairs@.take(i as int)),
        decreases pairs@.len() - i,
    {
        let p = &pairs[i];
        set_entry(&mut c, &p.0, &p.1);
        assert(pairs@.take(i + 1).drop_last() == pairs@.take(i as int));
        i += 1;
    }
    assert(pairs@.take(i as int) == pairs@);
    set_debug_logging(&mut c);
    match entry(&c, BOOTSTRAP_SERVERS) {
        Some(_) => Ok(c),
        None => Err(InitError::MissingBootstrapServers),
    }
}

} // verus!
