//! Strongly typed identifiers.
//!
//! Each identifier is a UUID held as its 128-bit value, with a random
//! constructor, a rendering and a parser. Distinct types keep a user from being
//! taken for a game.

use vstd::prelude::*;

use crate::domain::error::DomainError;
use crate::text;

verus! {

/// The `i`-th hexadecimal digit of a UUID, most significant first.
pub open spec fn nibble(bits: u128, i: int) -> u128 {
    (bits >> ((124 - 4 * i) as u128)) & 15
}

/// The 32 hexadecimal digits of a UUID.
pub open spec fn simple(bits: u128) -> Seq<char> {
    Seq::new(32, |i: int| text::hex_digit(nibble(bits, i) as int))
}

/// The canonical text of a UUID: its digits in groups of 8, 4, 4, 4 and 12,
/// separated by hyphens.
pub open spec fn hyphenated(bits: u128) -> Seq<char> {
    let d = simple(bits);
    d.subrange(0, 8) + seq!['-'] + d.subrange(8, 12) + seq!['-'] + d.subrange(12, 16) + seq!['-']
        + d.subrange(16, 20) + seq!['-'] + d.subrange(20, 32)
}

/// Whether `s` is a text of the UUID `bits`: its digits alone, hyphenated, in
/// braces or as a URN, in either case.
pub open spec fn spells(s: Seq<char>, bits: u128) -> bool {
    let lower = text::ascii_lower(s);
    ||| lower == simple(bits)
    ||| lower == hyphenated(bits)
    ||| lower == seq!['{'] + hyphenated(bits) + seq!['}']
    ||| lower == "urn:uuid:"@ + hyphenated(bits)
}

/// Whether a UUID carries the marks of a random one: version 4, RFC variant.
pub open spec fn is_random(bits: u128) -> bool {
    (bits >> 76u128) & 15 == 4 && (bits >> 62u128) & 3 == 2
}

/// Calls `uuid::Uuid::new_v4`, which draws a random UUID and sets its version to
/// 4 and its variant to the RFC one. Which UUID comes is left to chance.
#[verifier::external_body]
fn draw_random() -> (r: u128)
    ensures
        is_random(r),
{
    uuid::Uuid::new_v4().as_u128()
}

/// Renders through `uuid::Uuid`'s `Display`, which writes the digits in lower
/// case in the hyphenated form.
#[verifier::external_body]
fn render(bits: u128) -> (r: String)
    ensures
        r@ == hyphenated(bits),
{
    uuid::Uuid::from_u128(bits).to_string()
}

/// Calls `uuid::Uuid::parse_str`, which accepts the digits alone, hyphenated, in
/// braces or as a URN, in either case, and nothing else.
#[verifier::external_body]
fn parse(s: &str) -> (r: Option<u128>)
    ensures
        match r {
            Some(bits) => spells(s@, bits),
            None => forall|bits: u128| !spells(s@, bits),
        },
{
    uuid::Uuid::parse_str(s).ok().map(|u| u.as_u128())
}

/// Draws a random UUID and renders it.
pub fn random_text() -> (r: String)
    ensures
        exists|bits: u128| is_random(bits) && r@ == #[trigger] hyphenated(bits),
{
    let bits: u128 = draw_random();
    render(bits)
}

/// Different UUIDs have different digits.
pub proof fn simple_injective(a: u128, b: u128)
    requires
        simple(a) == simple(b),
    ensures
        a == b,
{
    assert forall|i: int| 0 <= i < 32 implies nibble(a, i) == nibble(b, i) by {
        let x = nibble(a, i);
        let y = nibble(b, i);
        let s = (124 - 4 * i) as u128;
        assert((a >> s) & 15 < 16 && (b >> s) & 15 < 16) by (bit_vector);
        assert(simple(a)[i] == text::hex_digit(x as int));
        assert(simple(b)[i] == text::hex_digit(y as int));
        text::hex_digit_injective(x as int, y as int);
    }
    assert(nibble(a, 0) == nibble(b, 0));
    assert(nibble(a, 1) == nibble(b, 1));
    assert(nibble(a, 2) == nibble(b, 2));
    assert(nibble(a, 3) == nibble(b, 3));
    assert(nibble(a, 4) == nibble(b, 4));
    assert(nibble(a, 5) == nibble(b, 5));
    assert(nibble(a, 6) == nibble(b, 6));
    assert(nibble(a, 7) == nibble(b, 7));
    assert(nibble(a, 8) == nibble(b, 8));
    assert(nibble(a, 9) == nibble(b, 9));
    assert(nibble(a, 10) == nibble(b, 10));
    assert(nibble(a, 11) == nibble(b, 11));
    assert(nibble(a, 12) == nibble(b, 12));
    assert(nibble(a, 13) == nibble(b, 13));
    assert(nibble(a, 14) == nibble(b, 14));
    assert(nibble(a, 15) == nibble(b, 15));
    assert(nibble(a, 16) == nibble(b, 16));
    assert(nibble(a, 17) == nibble(b, 17));
    assert(nibble(a, 18) == nibble(b, 18));
    assert(nibble(a, 19) == nibble(b, 19));
    assert(nibble(a, 20) == nibble(b, 20));
    assert(nibble(a, 21) == nibble(b, 21));
    assert(nibble(a, 22) == nibble(b, 22));
    assert(nibble(a, 23) == nibble(b, 23));
    assert(nibble(a, 24) == nibble(b, 24));
    assert(nibble(a, 25) == nibble(b, 25));
    assert(nibble(a, 26) == nibble(b, 26));
    assert(nibble(a, 27) == nibble(b, 27));
    assert(nibble(a, 28) == nibble(b, 28));
    assert(nibble(a, 29) == nibble(b, 29));
    assert(nibble(a, 30) == nibble(b, 30));
    assert(nibble(a, 31) == nibble(b, 31));
    assert(a == b) by (bit_vector)
        requires
            (a >> 124u128) & 15 == (b >> 124u128) & 15,
            (a >> 120u128) & 15 == (b >> 120u128) & 15,
            (a >> 116u128) & 15 == (b >> 116u128) & 15,
            (a >> 112u128) & 15 == (b >> 112u128) & 15,
            (a >> 108u128) & 15 == (b >> 108u128) & 15,
            (a >> 104u128) & 15 == (b >> 104u128) & 15,
            (a >> 100u128) & 15 == (b >> 100u128) & 15,
            (a >> 96u128) & 15 == (b >> 96u128) & 15,
            (a >> 92u128) & 15 == (b >> 92u128) & 15,
            (a >> 88u128) & 15 == (b >> 88u128) & 15,
            (a >> 84u128) & 15 == (b >> 84u128) & 15,
            (a >> 80u128) & 15 == (b >> 80u128) & 15,
            (a >> 76u128) & 15 == (b >> 76u128) & 15,
            (a >> 72u128) & 15 == (b >> 72u128) & 15,
            (a >> 68u128) & 15 == (b >> 68u128) & 15,
            (a >> 64u128) & 15 == (b >> 64u128) & 15,
            (a >> 60u128) & 15 == (b >> 60u128) & 15,
            (a >> 56u128) & 15 == (b >> 56u128) & 15,
            (a >> 52u128) & 15 == (b >> 52u128) & 15,
            (a >> 48u128) & 15 == (b >> 48u128) & 15,
            (a >> 44u128) & 15 == (b >> 44u128) & 15,
            (a >> 40u128) & 15 == (b >> 40u128) & 15,
            (a >> 36u128) & 15 == (b >> 36u128) & 15,
            (a >> 32u128) & 15 == (b >> 32u128) & 15,
            (a >> 28u128) & 15 == (b >> 28u128) & 15,
            (a >> 24u128) & 15 == (b >> 24u128) & 15,
            (a >> 20u128) & 15 == (b >> 20u128) & 15,
            (a >> 16u128) & 15 == (b >> 16u128) & 15,
            (a >> 12u128) & 15 == (b >> 12u128) & 15,
            (a >> 8u128) & 15 == (b >> 8u128) & 15,
            (a >> 4u128) & 15 == (b >> 4u128) & 15,
            (a >> 0u128) & 15 == (b >> 0u128) & 15,
    ;
}

/// Different UUIDs have different canonical texts.
pub proof fn hyphenated_injective(a: u128, b: u128)
    requires
        hyphenated(a) == hyphenated(b),
    ensures
        a == b,
{
    let x = hyphenated(a);
    let y = hyphenated(b);
    assert(simple(a).subrange(0, 8) == x.subrange(0, 8));
    assert(simple(b).subrange(0, 8) == y.subrange(0, 8));
    assert(simple(a).subrange(8, 12) == x.subrange(9, 13));
    assert(simple(b).subrange(8, 12) == y.subrange(9, 13));
    assert(simple(a).subrange(12, 16) == x.subrange(14, 18));
    assert(simple(b).subrange(12, 16) == y.subrange(14, 18));
    assert(simple(a).subrange(16, 20) == x.subrange(19, 23));
    assert(simple(b).subrange(16, 20) == y.subrange(19, 23));
    assert(simple(a).subrange(20, 32) == x.subrange(24, 36));
    assert(simple(b).subrange(20, 32) == y.subrange(24, 36));
    assert(simple(a) == simple(a).subrange(0, 8) + simple(a).subrange(8, 12) + simple(a).subrange(
        12,
        16,
    ) + simple(a).subrange(16, 20) + simple(a).subrange(20, 32));
    assert(simple(b) == simple(b).subrange(0, 8) + simple(b).subrange(8, 12) + simple(b).subrange(
        12,
        16,
    ) + simple(b).subrange(16, 20) + simple(b).subrange(20, 32));
    simple_injective(a, b);
}

/// The canonical text of a UUID is already in lower case.
proof fn hyphenated_is_lower(bits: u128)
    ensures
        text::ascii_lower(hyphenated(bits)) == hyphenated(bits),
{
    let h = hyphenated(bits);
    assert forall|i: int| 0 <= i < 32 implies text::ascii_lower_char(#[trigger] simple(bits)[i])
        == simple(bits)[i] by {
        let s = (124 - 4 * i) as u128;
        assert((bits >> s) & 15 < 16) by (bit_vector);
    }
    assert forall|i: int| 0 <= i < h.len() implies text::ascii_lower_char(h[i]) == h[i] by {
        assert(h.len() == 36);
        assert(h[i] == '-' || (exists|k: int| 0 <= k < 32 && h[i] == #[trigger] simple(bits)[k]))
            by {
            if i < 8 {
                assert(h[i] == simple(bits)[i]);
            } else if 9 <= i < 13 {
                assert(h[i] == simple(bits)[i - 1]);
            } else if 14 <= i < 18 {
                assert(h[i] == simple(bits)[i - 2]);
            } else if 19 <= i < 23 {
                assert(h[i] == simple(bits)[i - 3]);
            } else if 24 <= i {
                assert(h[i] == simple(bits)[i - 4]);
            }
        }
    }
    assert(text::ascii_lower(h) =~= h);
}

/// A text spells at most one UUID, and the canonical text of a UUID spells it:
/// an identifier survives being rendered and parsed.
pub proof fn spelling_is_unambiguous(s: Seq<char>, a: u128, b: u128)
    ensures
        spells(s, a) && spells(s, b) ==> a == b,
        spells(hyphenated(a), a),
{
    hyphenated_is_lower(a);
    let lower = text::ascii_lower(s);
    reveal_strlit("urn:uuid:");
    assert(simple(a).len() == 32 && simple(b).len() == 32);
    assert(hyphenated(a).len() == 36 && hyphenated(b).len() == 36);
    assert("urn:uuid:"@.len() == 9);
    if spells(s, a) && spells(s, b) {
        if lower.len() == 32 {
            simple_injective(a, b);
        } else if lower.len() == 36 {
            hyphenated_injective(a, b);
        } else if lower.len() == 38 {
            assert(hyphenated(a) == lower.subrange(1, 37));
            assert(hyphenated(b) == lower.subrange(1, 37));
            hyphenated_injective(a, b);
        } else {
            assert(hyphenated(a) == lower.subrange(9, 45));
            assert(hyphenated(b) == lower.subrange(9, 45));
            hyphenated_injective(a, b);
        }
    }
}

/// Identifies a registered user.
#[derive(Debug, Clone, Copy, PartialEq, Eq, Hash, Structural)]
pub struct UserId(pub u128);

impl UserId {
    /// Draws a new random identifier.
    #[must_use]
    pub fn new() -> (r: Self)
        ensures
            is_random(r.0),
    {
        UserId(draw_random())
    }

    /// The underlying UUID.
    #[must_use]
    pub fn as_uuid(&self) -> (r: u128)
        ensures
            r == self.0,
    {
        self.0
    }

    /// Renders the identifier as a hyphenated UUID.
    pub fn to_string(&self) -> (r: String)
        ensures
            r@ == hyphenated(self.0),
    {
        render(self.0)
    }
}

impl Default for UserId {
    /// Draws a new random identifier.
    fn default() -> (r: Self)
        ensures
            is_random(r.0),
    {
        UserId::new()
    }
}

impl std::str::FromStr for UserId {
    type Err = DomainError;

    /// Parses any text of a UUID; anything else is an invalid identifier.
    fn from_str(s: &str) -> (r: Result<Self, DomainError>)
        ensures
            match r {
                Ok(id) => spells(s@, id.0),
                Err(e) => (forall|bits: u128| !spells(s@, bits)) && (e matches
                    DomainError::InvalidId(m) && m@ == s@),
            },
    {
        match parse(s) {
            Some(bits) => Ok(UserId(bits)),
            None => Err(DomainError::InvalidId(s.to_owned())),
        }
    }
}

/// Identifies a game.
#[derive(Debug, Clone, Copy, PartialEq, Eq, Hash, Structural)]
pub struct GameId(pub u128);

impl GameId {
    /// Draws a new random identifier.
    #[must_use]
    pub fn new() -> (r: Self)
        ensures
            is_random(r.0),
    {
        GameId(draw_random())
    }

    /// The underlying UUID.
    #[must_use]
    pub fn as_uuid(&self) -> (r: u128)
        ensures
            r == self.0,
    {
        self.0
    }

    /// Renders the identifier as a hyphenated UUID.
    pub fn to_string(&self) -> (r: String)
        ensures
            r@ == hyphenated(self.0),
    {
        render(self.0)
    }
}

impl Default for GameId {
    /// Draws a new random identifier.
    fn default() -> (r: Self)
        ensures
            is_random(r.0),
    {
        GameId::new()
    }
}

impl std::str::FromStr for GameId {
    type Err = DomainError;

    /// Parses any text of a UUID; anything else is an invalid identifier.
    fn from_str(s: &str) -> (r: Result<Self, DomainError>)
        ensures
            match r {
                Ok(id) => spells(s@, id.0),
                Err(e) => (forall|bits: u128| !spells(s@, bits)) && (e matches
                    DomainError::InvalidId(m) && m@ == s@),
            },
    {
        match parse(s) {
            Some(bits) => Ok(GameId(bits)),
            None => Err(DomainError::InvalidId(s.to_owned())),
        }
    }
}

/// Identifies a matchmaking seek.
#[derive(Debug, Clone, Copy, PartialEq, Eq, Hash, Structural)]
pub struct SeekId(pub u128);

impl SeekId {
    /// Draws a new random identifier.
    #[must_use]
    pub fn new() -> (r: Self)
        ensures
            is_random(r.0),
    {
        SeekId(draw_random())
    }

    /// The underlying UUID.
    #[must_use]
    pub fn as_uuid(&self) -> (r: u128)
        ensures
            r == self.0,
    {
        self.0
    }

    /// Renders the identifier as a hyphenated UUID.
    pub fn to_string(&self) -> (r: String)
        ensures
            r@ == hyphenated(self.0),
    {
        render(self.0)
    }
}

impl Default for SeekId {
    /// Draws a new random identifier.
    fn default() -> (r: Self)
        ensures
            is_random(r.0),
    {
        SeekId::new()
    }
}

impl std::str::FromStr for SeekId {
    type Err = DomainError;

    /// Parses any text of a UUID; anything else is an invalid identifier.
    fn from_str(s: &str) -> (r: Result<Self, DomainError>)
        ensures
            match r {
                Ok(id) => spells(s@, id.0),
                Err(e) => (forall|bits: u128| !spells(s@, bits)) && (e matches
                    DomainError::InvalidId(m) && m@ == s@),
            },
    {
        match parse(s) {
            Some(bits) => Ok(SeekId(bits)),
            None => Err(DomainError::InvalidId(s.to_owned())),
        }
    }
}

/// Identifies a challenge.
#[derive(Debug, Clone, Copy, PartialEq, Eq, Hash, Structural)]
pub struct ChallengeId(pub u128);

impl ChallengeId {
    /// Draws a new random identifier.
    #[must_use]
    pub fn new() -> (r: Self)
        ensures
            is_random(r.0),
    {
        ChallengeId(draw_random())
    }

    /// The underlying UUID.
    #[must_use]
    pub fn as_uuid(&self) -> (r: u128)
        ensures
            r == self.0,
    {
        self.0
    }

    /// Renders the identifier as a hyphenated UUID.
    pub fn to_string(&self) -> (r: String)
        ensures
            r@ == hyphenated(self.0),
    {
        render(self.0)
    }
}

impl Default for ChallengeId {
    /// Draws a new random identifier.
    fn default() -> (r: Self)
        ensures
            is_random(r.0),
    {
        ChallengeId::new()
    }
}

impl std::str::FromStr for ChallengeId {
    type Err = DomainError;

    /// Parses any text of a UUID; anything else is an invalid identifier.
    fn from_str(s: &str) -> (r: Result<Self, DomainError>)
        ensures
            match r {
                Ok(id) => spells(s@, id.0),
                Err(e) => (forall|bits: u128| !spells(s@, bits)) && (e matches
                    DomainError::InvalidId(m) && m@ == s@),
            },
    {
        match parse(s) {
            Some(bits) => Ok(ChallengeId(bits)),
            None => Err(DomainError::InvalidId(s.to_owned())),
        }
    }
}

} // verus!
