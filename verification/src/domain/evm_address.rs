//! Ethereum addresses.

use vstd::prelude::*;

use crate::domain::error::DomainError;
use crate::text;

verus! {

/// Whether `c` is an ASCII hexadecimal digit.
pub open spec fn is_hex(c: char) -> bool {
    ('0' <= c <= '9') || ('a' <= c <= 'f') || ('A' <= c <= 'F')
}

/// Whether `s` is an address: `0x` or `0X` and 40 hexadecimal digits, in either
/// case.
pub open spec fn is_address(s: Seq<char>) -> bool {
    &&& s.len() == 42
    &&& s[0] == '0'
    &&& s[1] == 'x' || s[1] == 'X'
    &&& forall|i: int| 2 <= i < 42 ==> is_hex(#[trigger] s[i])
}

/// An Ethereum address in lower case with its `0x` prefix. Only the format is
/// checked; a mixed-case checksum is accepted and dropped.
#[derive(Debug, PartialEq, Eq, Hash)]
pub struct EvmAddress {
    text: String,
}

fn hex_lower(c: char) -> (r: Option<char>)
    ensures
        r == if is_hex(c) {
            Some(text::ascii_lower_char(c))
        } else {
            None
        },
{
    match c {
        'A' => Some('a'),
        'B' => Some('b'),
        'C' => Some('c'),
        'D' => Some('d'),
        'E' => Some('e'),
        'F' => Some('f'),
        _ => if ('0' <= c && c <= '9') || ('a' <= c && c <= 'f') {
            Some(c)
        } else {
            None
        },
    }
}

impl EvmAddress {
    /// The text of the address.
    pub closed spec fn view(self) -> Seq<char> {
        self.text@
    }

    #[verifier::type_invariant]
    spec fn normal(self) -> bool {
        is_address(self.text@) && text::ascii_lower(self.text@) == self.text@
    }

    /// The text of the address: `0x` and 40 lowercase hexadecimal digits.
    #[must_use]
    pub fn as_str(&self) -> (r: &str)
        ensures
            r@ == self@,
            is_address(r@),
            text::ascii_lower(r@) == r@,
    {
        proof {
            use_type_invariant(self);
        }
        self.text.as_str()
    }

    /// Renders the address.
    pub fn to_string(&self) -> (r: String)
        ensures
            r@ == self@,
    {
        self.text.clone()
    }

    /// Parses an address and puts it in lower case; anything that is no address
    /// is an error that holds the input.
    pub fn parse(s: &str) -> (r: Result<Self, DomainError>)
        ensures
            match r {
                Ok(address) => is_address(s@) && address@ == text::ascii_lower(s@),
                Err(e) => !is_address(s@) && (e matches DomainError::InvalidAddress(m) && m@ == s@),
            },
    {
        let chars: Vec<char> = text::chars_of(s);
        if chars.len() != 42 || chars[0] != '0' || (chars[1] != 'x' && chars[1] != 'X') {
            return Err(DomainError::InvalidAddress(s.to_owned()));
        }
        let mut out = String::new();
        out.push('0');
        out.push('x');
        let mut i: usize = 2;
        assert(out@ =~= text::ascii_lower(s@.take(2)));
        while i < 42
            invariant
                2 <= i <= 42,
                chars@ == s@,
                s@.len() == 42,
                out@ == text::ascii_lower(s@.take(i as int)),
                forall|j: int| 2 <= j < i ==> is_hex(#[trigger] s@[j]),
            decreases 42 - i,
        {
            match hex_lower(chars[i]) {
                Some(c) => {
                    out.push(c);
                    i = i + 1;
                    assert(out@ =~= text::ascii_lower(s@.take(i as int)));
                },
                None => {
                    assert(!is_hex(s@[i as int]));
                    return Err(DomainError::InvalidAddress(s.to_owned()));
                },
            }
        }
        assert(s@.take(42) == s@);
        proof {
            lower_case_is_normal(s@);
        }
        Ok(EvmAddress { text: out })
    }
}

impl Clone for EvmAddress {
    fn clone(&self) -> (r: Self)
        ensures
            r == *self,
    {
        proof {
            use_type_invariant(self);
        }
        EvmAddress { text: self.text.clone() }
    }
}

impl std::str::FromStr for EvmAddress {
    type Err = DomainError;

    fn from_str(s: &str) -> (r: Result<Self, DomainError>)
        ensures
            match r {
                Ok(address) => is_address(s@) && address@ == text::ascii_lower(s@),
                Err(e) => !is_address(s@) && (e matches DomainError::InvalidAddress(m) && m@ == s@),
            },
    {
        EvmAddress::parse(s)
    }
}

impl TryFrom<&str> for EvmAddress {
    type Error = DomainError;

    fn try_from(s: &str) -> (r: Result<Self, DomainError>)
        ensures
            match r {
                Ok(address) => is_address(s@) && address@ == text::ascii_lower(s@),
                Err(e) => !is_address(s@) && (e matches DomainError::InvalidAddress(m) && m@ == s@),
            },
    {
        EvmAddress::parse(s)
    }
}

impl vstd::std_specs::convert::TryFromSpecImpl<&str> for EvmAddress {
    open spec fn obeys_try_from_spec() -> bool {
        false
    }

    open spec fn try_from_spec(v: &str) -> Result<Self, DomainError> {
        arbitrary()
    }
}

/// The lower case of an address is an address and its own lower case: parsing
/// the text of an address gives the same address again.
pub proof fn lower_case_is_normal(s: Seq<char>)
    requires
        is_address(s),
    ensures
        is_address(text::ascii_lower(s)),
        text::ascii_lower(text::ascii_lower(s)) == text::ascii_lower(s),
{
    let l = text::ascii_lower(s);
    assert(l[0] == text::ascii_lower_char(s[0]));
    assert(l[1] == text::ascii_lower_char(s[1]));
    assert forall|i: int| 2 <= i < 42 implies is_hex(#[trigger] l[i]) by {
        assert(is_hex(s[i]));
    }
    assert forall|i: int| 0 <= i < 42 implies text::ascii_lower_char(#[trigger] l[i]) == l[i] by {
        if i >= 2 {
            assert(is_hex(s[i]));
        }
    }
    assert(text::ascii_lower(l) =~= l);
}

/// Whether two characters are one letter or digit but for its case.
pub open spec fn same_but_for_case(a: char, b: char) -> bool {
    a == b || ('A' <= a <= 'Z' && b as int == a as int + 32) || ('A' <= b <= 'Z' && a as int
        == b as int + 32)
}

/// A parsed address is the text it was parsed from, in lower case: `0x` and forty digits,
/// each the one that was written, in whichever case. What is no such text is refused.
pub proof fn an_address_is_what_was_written(
    s: &str,
    r: Result<EvmAddress, DomainError>,
    text: &str,
    i: int,
)
    requires
        call_ensures(EvmAddress::parse, (s,), r),
        r is Ok ==> call_ensures(EvmAddress::as_str, (&r->Ok_0,), text),
    ensures
        r is Ok <==> {
            &&& s@.len() == 42
            &&& s@[0] == '0' && (s@[1] == 'x' || s@[1] == 'X')
            &&& forall|k: int|
                2 <= k < 42 ==> '0' <= #[trigger] s@[k] <= '9' || 'a' <= s@[k] <= 'f' || 'A' <= s@[k]
                    <= 'F'
        },
        r is Ok ==> text@.len() == 42,
        r is Ok && 0 <= i < 42 ==> same_but_for_case(text@[i], s@[i]) && !('A' <= text@[i] <= 'Z'),
        r matches Err(e) ==> (e matches DomainError::InvalidAddress(m) && m@ == s@),
{
    if r is Ok {
        assert(text@.len() == 42);
        if 0 <= i < 42 {
            assert(text@[i] == text::ascii_lower_char(s@[i]));
        }
    }
    if s@.len() == 42 && s@[0] == '0' && (s@[1] == 'x' || s@[1] == 'X') && (forall|k: int|
        2 <= k < 42 ==> '0' <= #[trigger] s@[k] <= '9' || 'a' <= s@[k] <= 'f' || 'A' <= s@[k]
            <= 'F') {
        assert forall|k: int| 2 <= k < 42 implies is_hex(#[trigger] s@[k]) by {}
        assert(is_address(s@));
    }
    if is_address(s@) {
        assert forall|k: int| 2 <= k < 42 implies '0' <= #[trigger] s@[k] <= '9' || 'a' <= s@[k]
            <= 'f' || 'A' <= s@[k] <= 'F' by {
            assert(is_hex(s@[k]));
        }
    }
}

/// Two texts are the same address exactly when they differ in nothing but case.
pub proof fn case_does_not_tell_addresses_apart(s: Seq<char>, t: Seq<char>)
    requires
        is_address(s),
        is_address(t),
    ensures
        text::ascii_lower(s) == text::ascii_lower(t) <==> forall|i: int|
            0 <= i < 42 ==> same_but_for_case(#[trigger] s[i], t[i]),
{
    let a = text::ascii_lower(s);
    let b = text::ascii_lower(t);
    if a == b {
        assert forall|i: int| 0 <= i < 42 implies same_but_for_case(#[trigger] s[i], t[i]) by {
            assert(a[i] == b[i]);
            assert(a[i] == text::ascii_lower_char(s[i]) && b[i] == text::ascii_lower_char(t[i]));
        }
    }
    if forall|i: int| 0 <= i < 42 ==> same_but_for_case(#[trigger] s[i], t[i]) {
        assert forall|i: int| 0 <= i < 42 implies a[i] == b[i] by {
            assert(same_but_for_case(s[i], t[i]));
            if i >= 2 {
                assert(is_hex(s[i]) && is_hex(t[i]));
            }
        }
        assert(a =~= b);
    }
}

} // verus!
