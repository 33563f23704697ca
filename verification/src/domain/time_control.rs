//! Time controls and the pace classes they fall into.

use vstd::prelude::*;

use crate::domain::error::DomainError;
use crate::text;
use crate::time::Duration;

verus! {

/// The broad pace category of a time control; ratings are kept per class.
#[derive(Debug, Clone, Copy, PartialEq, Eq, Hash, Structural)]
pub enum TimeClass {
    /// An estimated duration under [`BULLET_MAX_SECS`] seconds.
    Bullet,
    /// An estimated duration under [`BLITZ_MAX_SECS`] seconds.
    Blitz,
    /// An estimated duration under [`RAPID_MAX_SECS`] seconds.
    Rapid,
    /// An estimated duration of [`RAPID_MAX_SECS`] seconds or more.
    Classical,
    /// Untimed or days-per-move games.
    Correspondence,
}

/// Estimated seconds below which a game is bullet.
pub const BULLET_MAX_SECS: u64 = 179;

/// Estimated seconds below which a game is blitz.
pub const BLITZ_MAX_SECS: u64 = 479;

/// Estimated seconds below which a game is rapid; from here on it is classical.
pub const RAPID_MAX_SECS: u64 = 1499;

impl TimeClass {
    /// The lowercase spelling of the class.
    pub open spec fn name(self) -> Seq<char> {
        match self {
            TimeClass::Bullet => "bullet"@,
            TimeClass::Blitz => "blitz"@,
            TimeClass::Rapid => "rapid"@,
            TimeClass::Classical => "classical"@,
            TimeClass::Correspondence => "correspondence"@,
        }
    }

    /// The lowercase spelling used on the wire and as a storage key.
    #[must_use]
    pub fn as_str(self) -> (r: &'static str)
        ensures
            r@ == self.name(),
    {
        match self {
            TimeClass::Bullet => "bullet",
            TimeClass::Blitz => "blitz",
            TimeClass::Rapid => "rapid",
            TimeClass::Classical => "classical",
            TimeClass::Correspondence => "correspondence",
        }
    }

    /// Renders the class by its lowercase spelling.
    pub fn to_string(&self) -> (r: String)
        ensures
            r@ == self.name(),
    {
        self.as_str().to_owned()
    }

    /// The class spelled `s`, if there is one.
    pub open spec fn named(s: Seq<char>) -> Option<TimeClass> {
        if s == "bullet"@ {
            Some(TimeClass::Bullet)
        } else if s == "blitz"@ {
            Some(TimeClass::Blitz)
        } else if s == "rapid"@ {
            Some(TimeClass::Rapid)
        } else if s == "classical"@ {
            Some(TimeClass::Classical)
        } else if s == "correspondence"@ {
            Some(TimeClass::Correspondence)
        } else {
            None
        }
    }
}

impl std::str::FromStr for TimeClass {
    type Err = DomainError;

    /// Parses the lowercase spelling of a class; anything else is a validation
    /// error that quotes the input.
    fn from_str(s: &str) -> (r: Result<Self, DomainError>)
        ensures
            match TimeClass::named(s@) {
                Some(class) => r == Ok::<TimeClass, DomainError>(class),
                None => r matches Err(DomainError::Validation(m)) && m@ == "unknown time class: "@
                    + text::debug_quoted(s@),
            },
    {
        if text::str_eq(s, "bullet") {
            Ok(TimeClass::Bullet)
        } else if text::str_eq(s, "blitz") {
            Ok(TimeClass::Blitz)
        } else if text::str_eq(s, "rapid") {
            Ok(TimeClass::Rapid)
        } else if text::str_eq(s, "classical") {
            Ok(TimeClass::Classical)
        } else if text::str_eq(s, "correspondence") {
            Ok(TimeClass::Correspondence)
        } else {
            let quoted = text::quote_debug(s);
            Err(DomainError::Validation(text::join2("unknown time class: ", quoted.as_str())))
        }
    }
}

/// Parsing the spelling of a class gives the class back, and only that spelling
/// gives it.
pub proof fn time_class_round_trip(class: TimeClass, s: Seq<char>)
    ensures
        TimeClass::named(class.name()) == Some(class),
        TimeClass::named(s) == Some(class) ==> s == class.name(),
{
    reveal_strlit("bullet");
    reveal_strlit("blitz");
    reveal_strlit("rapid");
    reveal_strlit("classical");
    reveal_strlit("correspondence");
    assert("blitz"@[0] != "rapid"@[0]);
    assert("bullet"@.len() == 6 && "classical"@.len() == 9 && "correspondence"@.len() == 14);
    assert("blitz"@.len() == 5 && "rapid"@.len() == 5);
}

/// The timing rules that govern how quickly players must move.
#[derive(Debug, Clone, Copy, PartialEq, Eq, Structural)]
pub enum TimeControl {
    /// Each player has a draining budget; each move may add an increment.
    RealTime {
        /// Starting time on each player's clock.
        initial: Duration,
        /// Time added to the mover's clock after each move.
        increment: Duration,
    },
    /// Players have a number of days for every move.
    Correspondence {
        /// The most days a player may take per move.
        days_per_move: u32,
    },
    /// No time limit at all.
    Unlimited,
}

/// The class of a real-time game by its estimated seconds.
pub open spec fn class_of_estimate(seconds: nat) -> TimeClass {
    if seconds < BULLET_MAX_SECS {
        TimeClass::Bullet
    } else if seconds < BLITZ_MAX_SECS {
        TimeClass::Blitz
    } else if seconds < RAPID_MAX_SECS {
        TimeClass::Rapid
    } else {
        TimeClass::Classical
    }
}

impl TimeControl {
    /// Whether each side has a draining budget.
    #[must_use]
    pub fn is_real_time(&self) -> (r: bool)
        ensures
            r == (self is RealTime),
    {
        matches!(self, TimeControl::RealTime { .. })
    }

    /// Whether the game is played at a number of days per move.
    #[must_use]
    pub fn is_correspondence(&self) -> (r: bool)
        ensures
            r == (self is Correspondence),
    {
        matches!(self, TimeControl::Correspondence { .. })
    }

    /// Whether the game has no time limit.
    #[must_use]
    pub fn is_unlimited(&self) -> (r: bool)
        ensures
            r == (self is Unlimited),
    {
        matches!(self, TimeControl::Unlimited)
    }

    /// The expected length of a real-time game in seconds: the budget and forty
    /// increments, each counted in whole seconds.
    pub open spec fn estimated_secs(self) -> nat {
        match self {
            TimeControl::RealTime { initial, increment } => initial@ / 1_000_000_000 + 40 * (
            increment@ / 1_000_000_000),
            _ => 0,
        }
    }

    /// The pace class that keys ratings.
    pub open spec fn class(self) -> TimeClass {
        match self {
            TimeControl::RealTime { .. } => class_of_estimate(self.estimated_secs()),
            _ => TimeClass::Correspondence,
        }
    }

    /// Maps the time control onto its pace class: a real-time game by its
    /// estimated length, any other game to correspondence.
    #[must_use]
    pub fn time_class(&self) -> (r: TimeClass)
        ensures
            r == self.class(),
    {
        match self {
            TimeControl::RealTime { initial, increment } => {
                let estimated: u128 = initial.as_secs() as u128 + 40 * (increment.as_secs() as u128);
                if estimated < BULLET_MAX_SECS as u128 {
                    TimeClass::Bullet
                } else if estimated < BLITZ_MAX_SECS as u128 {
                    TimeClass::Blitz
                } else if estimated < RAPID_MAX_SECS as u128 {
                    TimeClass::Rapid
                } else {
                    TimeClass::Classical
                }
            },
            TimeControl::Correspondence { .. } => TimeClass::Correspondence,
            TimeControl::Unlimited => TimeClass::Correspondence,
        }
    }
}

/// The class of a real-time game goes by its estimated length, the budget and forty
/// increments in whole seconds: bullet under 179 seconds, blitz under 479, rapid under
/// 1499, and classical from there on. Every other game is a correspondence game.
pub proof fn classes_go_by_the_estimated_length(
    initial: Duration,
    increment: Duration,
    time_control: TimeControl,
    seconds: u64,
    added: u64,
    class: TimeClass,
    other: TimeClass,
)
    requires
        call_ensures(Duration::as_secs, (&initial,), seconds),
        call_ensures(Duration::as_secs, (&increment,), added),
        call_ensures(
            TimeControl::time_class,
            (&TimeControl::RealTime { initial, increment },),
            class,
        ),
        call_ensures(TimeControl::time_class, (&time_control,), other),
        !(time_control is RealTime),
    ensures
        class == TimeClass::Bullet <==> seconds + 40 * added <= 178,
        class == TimeClass::Blitz <==> 179 <= seconds + 40 * added <= 478,
        class == TimeClass::Rapid <==> 479 <= seconds + 40 * added <= 1498,
        class == TimeClass::Classical <==> 1499 <= seconds + 40 * added,
        class != TimeClass::Correspondence,
        other == TimeClass::Correspondence,
{
}

/// A time control is of exactly one kind, and is recognised as that.
pub proof fn kinds_are_recognised(tc: TimeControl, draining: bool, days: bool, open: bool)
    requires
        call_ensures(TimeControl::is_real_time, (&tc,), draining),
        call_ensures(TimeControl::is_correspondence, (&tc,), days),
        call_ensures(TimeControl::is_unlimited, (&tc,), open),
    ensures
        draining <==> tc is RealTime,
        days <==> tc is Correspondence,
        open <==> tc is Unlimited,
{
}

/// A class is shown by its name, which reads back as that class; different classes have
/// different names.
pub proof fn class_names_read_back(
    a: TimeClass,
    b: TimeClass,
    name_a: &'static str,
    name_b: &'static str,
    shown: String,
)
    requires
        call_ensures(TimeClass::as_str, (a,), name_a),
        call_ensures(TimeClass::as_str, (b,), name_b),
        call_ensures(TimeClass::to_string, (&a,), shown),
    ensures
        shown@ == name_a@,
        name_a@ == name_b@ <==> a == b,
        TimeClass::named(name_a@) == Some(a),
        name_a@ == match a {
            TimeClass::Bullet => "bullet"@,
            TimeClass::Blitz => "blitz"@,
            TimeClass::Rapid => "rapid"@,
            TimeClass::Classical => "classical"@,
            TimeClass::Correspondence => "correspondence"@,
        },
{
    time_class_round_trip(a, name_a@);
    time_class_round_trip(b, name_b@);
}

} // verus!
