//! Logging configuration and request identifiers.

use vstd::prelude::*;

use crate::domain::ids;

verus! {

/// The header that carries a request's identifier.
pub const REQUEST_ID_HEADER: &'static str = "x-request-id";

/// The form of log lines.
#[derive(Debug, Clone, Copy, PartialEq, Eq, Structural)]
pub enum LogFormat {
    /// Several lines per event, for people.
    Pretty,
    /// One line of JSON per event, for machines.
    Json,
}

impl Default for LogFormat {
    /// The form for people.
    fn default() -> (r: Self)
        ensures
            r == LogFormat::Pretty,
    {
        LogFormat::Pretty
    }
}

/// How events are logged.
#[derive(Debug, PartialEq, Eq)]
pub struct ObservabilityConfig {
    /// The form of log lines.
    pub format: LogFormat,
    /// Which events are logged when the environment does not say.
    pub default_directive: String,
}

impl Default for ObservabilityConfig {
    /// Events of level `info` and above, for people.
    fn default() -> (r: Self)
        ensures
            r.format == LogFormat::Pretty,
            r.default_directive@ == "info"@,
    {
        ObservabilityConfig { format: LogFormat::Pretty, default_directive: "info".to_owned() }
    }
}

impl Clone for ObservabilityConfig {
    fn clone(&self) -> (r: Self)
        ensures
            r == *self,
    {
        ObservabilityConfig {
            format: self.format,
            default_directive: self.default_directive.clone(),
        }
    }
}

impl ObservabilityConfig {
    /// Which events are logged, given what the environment says: its word, unless
    /// it says nothing or the empty word.
    pub fn directive(&self, environment: Option<&str>) -> (r: String)
        ensures
            r@ == match environment {
                Some(d) => if d@.len() > 0 {
                    d@
                } else {
                    self.default_directive@
                },
                None => self.default_directive@,
            },
    {
        if let Some(d) = environment {
            if d.unicode_len() > 0 {
                return d.to_owned();
            }
        }
        self.default_directive.clone()
    }
}

/// Makes identifiers for requests that carry none.
#[derive(Debug, Clone, Copy, PartialEq, Eq)]
pub struct UuidRequestId;

impl UuidRequestId {
    /// A fresh identifier: a random UUID in its hyphenated form.
    pub fn make_request_id(&mut self) -> (r: String)
        ensures
            exists|bits: u128| ids::is_random(bits) && r@ == #[trigger] ids::hyphenated(bits),
    {
        ids::random_text()
    }
}

impl Default for UuidRequestId {
    fn default() -> (r: Self)
        ensures
            r == UuidRequestId,
    {
        UuidRequestId
    }
}

/// The identifier a request's log lines show: the one it carries, or a dash.
pub fn shown_request_id(carried: Option<&str>) -> (r: String)
    ensures
        r@ == match carried {
            Some(id) => id@,
            None => "-"@,
        },
{
    match carried {
        Some(id) => id.to_owned(),
        None => "-".to_owned(),
    }
}

/// What the environment says counts, and the configured directive only where it says
/// nothing.
pub proof fn the_environment_has_the_say(
    config: ObservabilityConfig,
    said: &str,
    heeded: String,
    fallback: String,
    carried: String,
    none: String,
)
    requires
        call_ensures(ObservabilityConfig::directive, (&config, Some(said)), heeded),
        call_ensures(ObservabilityConfig::directive, (&config, None::<&str>), fallback),
        call_ensures(shown_request_id, (Some(said),), carried),
        call_ensures(shown_request_id, (None::<&str>,), none),
    ensures
        said@.len() > 0 ==> heeded@ == said@,
        said@.len() == 0 ==> heeded@ == config.default_directive@,
        fallback@ == config.default_directive@,
        carried@ == said@,
        none@ == seq!['-'],
{
    reveal_strlit("-");
    assert("-"@ =~= seq!['-']);
}

} // verus!
