//! An event bus over a shared store: each topic has one channel.

use vstd::prelude::*;

use crate::text;

verus! {

/// The prefix of channels unless another is chosen.
pub const DEFAULT_PREFIX: &'static str = "mcs:bus:";

/// The channels of an event bus that is carried by a shared store.
#[derive(Debug, PartialEq, Eq)]
pub struct RedisEventBus {
    prefix: String,
}

impl RedisEventBus {
    /// The prefix of the channels.
    pub closed spec fn channel_prefix(self) -> Seq<char> {
        self.prefix@
    }

    /// Channels under the default prefix.
    #[must_use]
    pub fn new() -> (r: Self)
        ensures
            r.channel_prefix() == DEFAULT_PREFIX@,
    {
        RedisEventBus { prefix: DEFAULT_PREFIX.to_owned() }
    }

    /// Channels under another prefix, to keep clusters apart in one store.
    #[must_use]
    pub fn with_prefix(self, prefix: String) -> (r: Self)
        ensures
            r.channel_prefix() == prefix@,
    {
        RedisEventBus { prefix }
    }

    /// The channel of a topic.
    #[must_use]
    pub fn channel(&self, topic: &str) -> (r: String)
        ensures
            r@ == self.channel_prefix() + topic@,
    {
        text::join2(self.prefix.as_str(), topic)
    }
}

impl Clone for RedisEventBus {
    fn clone(&self) -> (r: Self)
        ensures
            r.channel_prefix() == self.channel_prefix(),
    {
        RedisEventBus { prefix: self.prefix.clone() }
    }
}

/// Different topics have different channels.
pub proof fn channels_tell_topics_apart(prefix: Seq<char>, a: Seq<char>, b: Seq<char>)
    ensures
        prefix + a == prefix + b ==> a == b,
{
    assert((prefix + a).skip(prefix.len() as int) =~= a);
    assert((prefix + b).skip(prefix.len() as int) =~= b);
}

/// Each topic has its own channel on a bus, under the bus's prefix, and buses with
/// different prefixes of one length share none.
pub proof fn topics_have_channels_of_their_own(
    bus: RedisEventBus,
    a: &str,
    b: &str,
    channel_a: String,
    channel_b: String,
)
    requires
        call_ensures(RedisEventBus::channel, (&bus, a), channel_a),
        call_ensures(RedisEventBus::channel, (&bus, b), channel_b),
    ensures
        channel_a@ == channel_b@ <==> a@ == b@,
        channel_a@ == bus.channel_prefix() + a@,
{
    channels_tell_topics_apart(bus.channel_prefix(), a@, b@);
}

/// A bus has the prefix it was given, and a documented one otherwise.
pub proof fn a_bus_has_the_given_prefix(
    prefix: String,
    plain: RedisEventBus,
    chosen: RedisEventBus,
)
    requires
        call_ensures(RedisEventBus::new, (), plain),
        call_ensures(RedisEventBus::with_prefix, (plain, prefix), chosen),
    ensures
        plain.channel_prefix() == "mcs:bus:"@,
        chosen.channel_prefix() == prefix@,
{
}

} // verus!
