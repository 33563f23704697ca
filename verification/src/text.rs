//! Text helpers: ordering, slicing and rendering of strings.

use vstd::prelude::*;

verus! {

/// `String::push` appends the given character to the end of the string.
pub assume_specification[ String::push ](s: &mut String, ch: char)
    ensures
        final(s)@ == old(s)@.push(ch),
;

/// Whether a character has the Unicode `White_Space` property.
pub open spec fn white_space(c: char) -> bool {
    let n = c as int;
    ||| 0x09 <= n <= 0x0d
    ||| n == 0x20
    ||| n == 0x85
    ||| n == 0xa0
    ||| n == 0x1680
    ||| 0x2000 <= n <= 0x200a
    ||| n == 0x2028
    ||| n == 0x2029
    ||| n == 0x202f
    ||| n == 0x205f
    ||| n == 0x3000
}

/// `char::is_whitespace` tests a character for the `White_Space` property, whose
/// characters `white_space` lists.
pub assume_specification[ char::is_whitespace ](c: char) -> (r: bool)
    ensures
        r == white_space(c),
;

/// The quoted and escaped form in which the `{:?}` formatter writes a string.
pub uninterp spec fn debug_quoted(s: Seq<char>) -> Seq<char>;

/// Formats a string with the standard `Debug` implementation of `str`; the
/// text is a function of the string alone, named by `debug_quoted`.
#[verifier::external_body]
pub(crate) fn quote_debug(s: &str) -> (r: String)
    ensures
        r@ == debug_quoted(s@),
{
    format!("{s:?}")
}

/// Lexicographic order on character sequences: the order of strings.
pub open spec fn lex_le(a: Seq<char>, b: Seq<char>) -> bool
    decreases a.len(),
{
    if a.len() == 0 {
        true
    } else if b.len() == 0 {
        false
    } else if a[0] != b[0] {
        (a[0] as int) < (b[0] as int)
    } else {
        lex_le(a.drop_first(), b.drop_first())
    }
}

/// Every sequence is at most itself.
pub proof fn lex_le_reflexive(a: Seq<char>)
    ensures
        lex_le(a, a),
    decreases a.len(),
{
    if a.len() > 0 {
        lex_le_reflexive(a.drop_first());
    }
}

/// Two sequences that are at most each other are equal.
pub proof fn lex_le_antisymmetric(a: Seq<char>, b: Seq<char>)
    requires
        lex_le(a, b),
        lex_le(b, a),
    ensures
        a == b,
    decreases a.len(),
{
    if a.len() > 0 && b.len() > 0 {
        lex_le_antisymmetric(a.drop_first(), b.drop_first());
        assert(a == seq![a[0]] + a.drop_first());
        assert(b == seq![b[0]] + b.drop_first());
    } else {
        assert(a == b);
    }
}

/// The order is transitive.
pub proof fn lex_le_transitive(a: Seq<char>, b: Seq<char>, c: Seq<char>)
    requires
        lex_le(a, b),
        lex_le(b, c),
    ensures
        lex_le(a, c),
    decreases a.len(),
{
    if a.len() > 0 && b.len() > 0 && c.len() > 0 && a[0] == b[0] && b[0] == c[0] {
        lex_le_transitive(a.drop_first(), b.drop_first(), c.drop_first());
    }
}

/// Any two sequences are comparable.
pub proof fn lex_le_total(a: Seq<char>, b: Seq<char>)
    ensures
        lex_le(a, b) || lex_le(b, a),
    decreases a.len(),
{
    if a.len() > 0 && b.len() > 0 && a[0] == b[0] {
        lex_le_total(a.drop_first(), b.drop_first());
    }
}

/// The characters of `s`, in order.
pub fn chars_of(s: &str) -> (r: Vec<char>)
    ensures
        r@ == s@,
{
    let mut out: Vec<char> = Vec::new();
    for c in it: s.chars()
        invariant
            out@ == s@.take(it.index() as int),
            it.seq() == s@,
    {
        out.push(c);
    }
    assert(s@.take(s@.len() as int) == s@);
    out
}

/// The string made of the characters `chars[from..to]`.
pub fn string_of(chars: &Vec<char>, from: usize, to: usize) -> (r: String)
    requires
        from <= to <= chars@.len(),
    ensures
        r@ == chars@.subrange(from as int, to as int),
{
    let mut out = String::new();
    let mut i: usize = from;
    while i < to
        invariant
            from <= i <= to <= chars@.len(),
            out@ == chars@.subrange(from as int, i as int),
        decreases to - i,
    {
        out.push(chars[i]);
        assert(chars@.subrange(from as int, i as int).push(chars@[i as int]) == chars@.subrange(
            from as int,
            i + 1,
        ));
        i = i + 1;
    }
    out
}

/// Whether `c` has the smaller code point.
fn char_lt(c: char, d: char) -> (r: bool)
    ensures
        r == ((c as int) < (d as int)),
{
    (c as u32) < (d as u32)
}

/// Whether `a` comes before or equals `b` in string order.
pub fn str_le(a: &str, b: &str) -> (r: bool)
    ensures
        r == lex_le(a@, b@),
{
    let x: Vec<char> = chars_of(a);
    let y: Vec<char> = chars_of(b);
    let mut i: usize = 0;
    assert(x@.skip(0) == x@);
    assert(y@.skip(0) == y@);
    while i < x.len() && i < y.len() && x[i] == y[i]
        invariant
            i <= x@.len(),
            i <= y@.len(),
            x@ == a@,
            y@ == b@,
            lex_le(a@, b@) == lex_le(x@.skip(i as int), y@.skip(i as int)),
        decreases x@.len() - i,
    {
        assert(x@.skip(i as int).drop_first() == x@.skip(i + 1));
        assert(y@.skip(i as int).drop_first() == y@.skip(i + 1));
        i = i + 1;
    }
    if i == x.len() {
        true
    } else if i == y.len() {
        false
    } else {
        char_lt(x[i], y[i])
    }
}

/// Whether the two strings hold the same characters.
pub fn str_eq(a: &str, b: &str) -> (r: bool)
    ensures
        r == (a@ == b@),
{
    let x: Vec<char> = chars_of(a);
    let y: Vec<char> = chars_of(b);
    if x.len() != y.len() {
        return false;
    }
    let mut i: usize = 0;
    while i < x.len()
        invariant
            i <= x@.len(),
            x@.len() == y@.len(),
            x@ == a@,
            y@ == b@,
            forall|j: int| 0 <= j < i ==> x@[j] == y@[j],
        decreases x@.len() - i,
    {
        if x[i] != y[i] {
            return false;
        }
        i = i + 1;
    }
    assert(x@ =~= y@);
    true
}

/// The decimal digits of `n`, without leading zeros.
pub open spec fn decimal_digits(n: nat) -> Seq<char>
    decreases n,
{
    let last = (('0' as u32 + (n % 10) as u32) as u32) as char;
    if n < 10 {
        seq![last]
    } else {
        decimal_digits(n / 10).push(last)
    }
}

/// Numbers are written with at least one digit, and with digits only.
pub proof fn decimal_digits_are_digits(n: nat)
    ensures
        decimal_digits(n).len() > 0,
        forall|i: int|
            0 <= i < decimal_digits(n).len() ==> '0' <= #[trigger] decimal_digits(n)[i] <= '9',
    decreases n,
{
    if n >= 10 {
        decimal_digits_are_digits(n / 10);
    }
}

/// Different numbers have different digits.
pub proof fn decimal_digits_tell_numbers_apart(a: nat, b: nat)
    ensures
        decimal_digits(a) == decimal_digits(b) <==> a == b,
    decreases a,
{
    if decimal_digits(a) == decimal_digits(b) {
        let x = decimal_digits(a);
        let y = decimal_digits(b);
        assert(x.last() == y.last());
        assert(a % 10 == b % 10);
        if a >= 10 {
            decimal_digits_are_digits(a / 10);
            assert(x.len() > 1);
            assert(x.drop_last() =~= decimal_digits(a / 10));
            assert(b >= 10);
            assert(y.drop_last() =~= decimal_digits(b / 10));
            decimal_digits_tell_numbers_apart(a / 10, b / 10);
        } else if b >= 10 {
            decimal_digits_are_digits(b / 10);
        }
    }
}

fn digit_char(d: u64) -> (c: char)
    requires
        d < 10,
    ensures
        c == (('0' as u32 + d as u32) as u32) as char,
{
    match d {
        0 => '0',
        1 => '1',
        2 => '2',
        3 => '3',
        4 => '4',
        5 => '5',
        6 => '6',
        7 => '7',
        8 => '8',
        _ => '9',
    }
}

/// The lowercase hexadecimal digit of `d`.
pub open spec fn hex_digit(d: int) -> char {
    if d < 10 {
        (48 + d) as char
    } else {
        (87 + d) as char
    }
}

/// Different nibbles have different digits.
pub proof fn hex_digit_injective(a: int, b: int)
    requires
        0 <= a < 16,
        0 <= b < 16,
        hex_digit(a) == hex_digit(b),
    ensures
        a == b,
{
}

/// The lowercase hexadecimal digit of `d`.
pub fn hex_char(d: u8) -> (c: char)
    requires
        d < 16,
    ensures
        c == hex_digit(d as int),
{
    match d {
        0 => '0',
        1 => '1',
        2 => '2',
        3 => '3',
        4 => '4',
        5 => '5',
        6 => '6',
        7 => '7',
        8 => '8',
        9 => '9',
        10 => 'a',
        11 => 'b',
        12 => 'c',
        13 => 'd',
        14 => 'e',
        _ => 'f',
    }
}

/// `c` in lower case when it is an ASCII letter, otherwise `c`.
pub open spec fn ascii_lower_char(c: char) -> char {
    if 'A' <= c <= 'Z' {
        (c as int + 32) as char
    } else {
        c
    }
}

/// `s` with its ASCII letters in lower case.
pub open spec fn ascii_lower(s: Seq<char>) -> Seq<char> {
    Seq::new(s.len(), |i: int| ascii_lower_char(s[i]))
}

/// Renders `n` in decimal.
pub fn decimal(n: u64) -> (r: String)
    ensures
        r@ == decimal_digits(n as nat),
    decreases n,
{
    if n < 10 {
        let mut out = String::new();
        out.push(digit_char(n));
        assert(out@ =~= decimal_digits(n as nat));
        out
    } else {
        let mut out = decimal(n / 10);
        out.push(digit_char(n % 10));
        out
    }
}

/// What is left of `s` without its leading white space.
pub open spec fn trim_start_spec(s: Seq<char>) -> Seq<char>
    decreases s.len(),
{
    if s.len() > 0 && white_space(s[0]) {
        trim_start_spec(s.drop_first())
    } else {
        s
    }
}

/// What is left of `s` without its trailing white space.
pub open spec fn trim_end_spec(s: Seq<char>) -> Seq<char>
    decreases s.len(),
{
    if s.len() > 0 && white_space(s.last()) {
        trim_end_spec(s.drop_last())
    } else {
        s
    }
}

/// White space around a text that begins and ends with other characters is dropped,
/// and nothing else.
pub proof fn trimming_drops_padding(before: Seq<char>, s: Seq<char>, after: Seq<char>)
    requires
        forall|i: int| 0 <= i < before.len() ==> white_space(#[trigger] before[i]),
        forall|i: int| 0 <= i < after.len() ==> white_space(#[trigger] after[i]),
        s.len() > 0 ==> !white_space(s[0]) && !white_space(s.last()),
    ensures
        trim_end_spec(trim_start_spec(before + s + after)) == s,
    decreases before.len() + after.len(),
{
    let all = before + s + after;
    if before.len() > 0 {
        let rest = before.drop_first();
        assert forall|i: int| 0 <= i < rest.len() implies white_space(#[trigger] rest[i]) by {
            assert(rest[i] == before[i + 1]);
        }
        assert(all[0] == before[0]);
        assert(all.drop_first() =~= rest + s + after);
        trimming_drops_padding(rest, s, after);
    } else if s.len() == 0 {
        assert(all =~= after);
        if after.len() > 0 {
            let rest = after.drop_first();
            assert forall|i: int| 0 <= i < rest.len() implies white_space(#[trigger] rest[i]) by {
                assert(rest[i] == after[i + 1]);
            }
            assert(rest =~= before + s + rest);
            trimming_drops_padding(before, s, rest);
        }
    } else {
        assert(all =~= s + after);
        assert(all[0] == s[0]);
        padding_at_the_end_is_dropped(s, after);
    }
}

proof fn padding_at_the_end_is_dropped(s: Seq<char>, after: Seq<char>)
    requires
        forall|i: int| 0 <= i < after.len() ==> white_space(#[trigger] after[i]),
        s.len() > 0,
        !white_space(s.last()),
    ensures
        trim_end_spec(s + after) == s,
    decreases after.len(),
{
    if after.len() > 0 {
        let rest = after.drop_last();
        assert((s + after).last() == after[after.len() - 1]);
        assert((s + after).drop_last() =~= s + rest);
        padding_at_the_end_is_dropped(s, rest);
    } else {
        assert(s + after =~= s);
    }
}

/// `s` without leading and trailing white space.
pub fn trim(s: &str) -> (r: String)
    ensures
        r@ == trim_end_spec(trim_start_spec(s@)),
{
    let chars: Vec<char> = chars_of(s);
    let mut from: usize = 0;
    assert(chars@.skip(0) == chars@);
    while from < chars.len() && chars[from].is_whitespace()
        invariant
            from <= chars@.len(),
            chars@ == s@,
            trim_start_spec(s@) == trim_start_spec(chars@.skip(from as int)),
        decreases chars@.len() - from,
    {
        assert(chars@.skip(from as int).drop_first() == chars@.skip(from + 1));
        from = from + 1;
    }
    let ghost kept: Seq<char> = chars@.skip(from as int);
    let mut to: usize = chars.len();
    assert(chars@.subrange(from as int, to as int) == kept);
    while from < to && chars[to - 1].is_whitespace()
        invariant
            from <= to <= chars@.len(),
            trim_end_spec(kept) == trim_end_spec(chars@.subrange(from as int, to as int)),
        decreases to,
    {
        assert(chars@.subrange(from as int, to as int).drop_last() == chars@.subrange(
            from as int,
            to - 1,
        ));
        to = to - 1;
    }
    string_of(&chars, from, to)
}

/// `s` without the occurrences of `c` at its end.
pub open spec fn trim_end_char_spec(s: Seq<char>, c: char) -> Seq<char>
    decreases s.len(),
{
    if s.len() > 0 && s.last() == c {
        trim_end_char_spec(s.drop_last(), c)
    } else {
        s
    }
}

/// `s` without the occurrences of `c` at its end.
pub fn trim_end_char(s: &str, c: char) -> (r: String)
    ensures
        r@ == trim_end_char_spec(s@, c),
{
    let chars: Vec<char> = chars_of(s);
    let mut to: usize = chars.len();
    assert(chars@.subrange(0, to as int) == chars@);
    while 0 < to && chars[to - 1] == c
        invariant
            to <= chars@.len(),
            chars@ == s@,
            trim_end_char_spec(s@, c) == trim_end_char_spec(chars@.subrange(0, to as int), c),
        decreases to,
    {
        assert(chars@.subrange(0, to as int).drop_last() == chars@.subrange(0, to - 1));
        to = to - 1;
    }
    string_of(&chars, 0, to)
}

/// The first `n` characters of `s`, or all of them when there are fewer.
pub fn take_chars(s: &str, n: usize) -> (r: String)
    ensures
        r@ == (if n <= s@.len() {
            s@.take(n as int)
        } else {
            s@
        }),
{
    let chars: Vec<char> = chars_of(s);
    let to: usize = if n <= chars.len() {
        n
    } else {
        chars.len()
    };
    assert(chars@.subrange(0, chars@.len() as int) == chars@);
    string_of(&chars, 0, to)
}

/// What follows `prefix` in `s`, or `None` when `s` does not start with it.
pub open spec fn strip_prefix_spec(s: Seq<char>, prefix: Seq<char>) -> Option<Seq<char>> {
    if prefix.is_prefix_of(s) {
        Some(s.skip(prefix.len() as int))
    } else {
        None
    }
}

/// What follows `prefix` in `s`, or `None` when `s` does not start with it.
pub fn strip_prefix(s: &str, prefix: &str) -> (r: Option<String>)
    ensures
        strip_prefix_spec(s@, prefix@) is None ==> r is None,
        strip_prefix_spec(s@, prefix@) is Some ==> r is Some && r->0@ == strip_prefix_spec(
            s@,
            prefix@,
        )->0,
{
    let x: Vec<char> = chars_of(s);
    let p: Vec<char> = chars_of(prefix);
    if x.len() < p.len() {
        return None;
    }
    let mut i: usize = 0;
    while i < p.len()
        invariant
            i <= p@.len() <= x@.len(),
            x@ == s@,
            p@ == prefix@,
            forall|j: int| 0 <= j < i ==> x@[j] == p@[j],
        decreases p@.len() - i,
    {
        if x[i] != p[i] {
            assert(s@.subrange(0, prefix@.len() as int)[i as int] != prefix@[i as int]);
            return None;
        }
        i = i + 1;
    }
    assert(s@.subrange(0, prefix@.len() as int) =~= prefix@);
    assert(x@.subrange(i as int, x@.len() as int) == s@.skip(prefix@.len() as int));
    Some(string_of(&x, i, x.len()))
}

/// Two strings one after the other.
pub fn join2(a: &str, b: &str) -> (r: String)
    ensures
        r@ == a@ + b@,
{
    a.to_owned().concat(b)
}

/// Three strings one after the other.
pub fn join3(a: &str, b: &str, c: &str) -> (r: String)
    ensures
        r@ == a@ + b@ + c@,
{
    a.to_owned().concat(b).concat(c)
}

/// The copy of an optional string.
pub fn clone_opt(s: &Option<String>) -> (r: Option<String>)
    ensures
        r == *s,
{
    match s {
        Some(x) => Some(x.clone()),
        None => None,
    }
}

/// Texts are ordered as in a dictionary: a text comes before those it begins, and
/// otherwise the first characters that differ decide.
pub proof fn the_first_difference_decides(
    head: Seq<char>,
    c: char,
    d: char,
    x: Seq<char>,
    y: Seq<char>,
)
    ensures
        lex_le(head, head + x),
        x.len() > 0 ==> !lex_le(head + x, head),
        c != d ==> (lex_le(head + seq![c] + x, head + seq![d] + y) <==> c < d),
    decreases head.len(),
{
    let a = head + seq![c] + x;
    let b = head + seq![d] + y;
    if head.len() > 0 {
        let rest = head.drop_first();
        the_first_difference_decides(rest, c, d, x, y);
        assert((head + x).drop_first() =~= rest + x);
        assert(a.drop_first() =~= rest + seq![c] + x);
        assert(b.drop_first() =~= rest + seq![d] + y);
    }
}

/// Comparing strings compares their texts: they are equal when every character is, and
/// ordered as their texts are.
pub proof fn strings_compare_as_their_texts(a: &str, b: &str, same: bool, before: bool)
    requires
        call_ensures(str_eq, (a, b), same),
        call_ensures(str_le, (a, b), before),
    ensures
        same <==> a@.len() == b@.len() && forall|i: int| 0 <= i < a@.len() ==> a@[i] == b@[i],
        before <==> lex_le(a@, b@),
{
    if a@.len() == b@.len() && (forall|i: int| 0 <= i < a@.len() ==> a@[i] == b@[i]) {
        assert(a@ =~= b@);
    }
}

/// The number that decimal digits stand for.
pub open spec fn value_of(digits: Seq<char>) -> int
    decreases digits.len(),
{
    if digits.len() == 0 {
        0
    } else {
        10 * value_of(digits.drop_last()) + (digits.last() as int - '0' as int)
    }
}

/// A number is written with the digits that stand for it, and without leading zeros.
pub proof fn digits_stand_for_their_number(n: u64, r: String)
    requires
        call_ensures(decimal, (n,), r),
    ensures
        value_of(r@) == n,
        r@.len() > 1 ==> r@[0] != '0',
{
    digits_have_their_value(n as nat);
}

pub(crate) proof fn digits_have_their_value(n: nat)
    ensures
        value_of(decimal_digits(n)) == n,
        decimal_digits(n).len() > 0,
        n > 0 ==> decimal_digits(n)[0] != '0',
        n == 0 ==> decimal_digits(n).len() == 1,
    decreases n,
{
    let d = decimal_digits(n);
    if n < 10 {
        assert(d.drop_last() =~= Seq::<char>::empty());
        reveal_with_fuel(value_of, 2);
    } else {
        digits_have_their_value(n / 10);
        assert(d.drop_last() =~= decimal_digits(n / 10));
    }
}

/// Trimming takes white space off both ends and nothing else: what is left neither begins
/// nor ends with white space, and stands in the text with nothing but white space around
/// it.
pub proof fn trimming_leaves_the_middle(s: &str, r: String)
    requires
        call_ensures(trim, (s,), r),
    ensures
        r@.len() > 0 ==> !white_space(r@[0]) && !white_space(r@.last()),
        exists|from: int|
            {
                &&& 0 <= from <= from + r@.len() <= s@.len()
                &&& #[trigger] s@.subrange(from, from + r@.len()) == r@
                &&& forall|i: int| 0 <= i < from ==> white_space(#[trigger] s@[i])
                &&& forall|i: int|
                    from + r@.len() <= i < s@.len() ==> white_space(#[trigger] s@[i])
            },
{
    let a = trim_start_spec(s@);
    start_is_trimmed(s@);
    end_is_trimmed(a);
    let from = s@.len() - a.len();
    assert(a == s@.skip(from));
    assert(s@.subrange(from, from + r@.len()) =~= r@);
    assert forall|i: int| from + r@.len() <= i < s@.len() implies white_space(#[trigger] s@[i]) by {
        assert(a[i - from] == s@[i]);
    }
}

proof fn start_is_trimmed(s: Seq<char>)
    ensures
        ({
            let a = trim_start_spec(s);
            &&& a.len() <= s.len()
            &&& a == s.skip(s.len() - a.len())
            &&& forall|i: int| 0 <= i < s.len() - a.len() ==> white_space(#[trigger] s[i])
            &&& a.len() > 0 ==> !white_space(a[0])
        }),
    decreases s.len(),
{
    if s.len() > 0 && white_space(s[0]) {
        let rest = s.drop_first();
        start_is_trimmed(rest);
        let a = trim_start_spec(s);
        assert(rest.skip(rest.len() - a.len()) =~= s.skip(s.len() - a.len()));
        assert forall|i: int| 0 <= i < s.len() - a.len() implies white_space(#[trigger] s[i]) by {
            if i > 0 {
                assert(rest[i - 1] == s[i]);
            }
        }
    } else {
        assert(s.skip(0) =~= s);
    }
}

proof fn end_is_trimmed(s: Seq<char>)
    ensures
        ({
            let a = trim_end_spec(s);
            &&& a.len() <= s.len()
            &&& a == s.take(a.len() as int)
            &&& forall|i: int| a.len() <= i < s.len() ==> white_space(#[trigger] s[i])
            &&& a.len() > 0 ==> !white_space(a.last())
            &&& s.len() > 0 && !white_space(s[0]) ==> a.len() > 0 && a[0] == s[0]
        }),
    decreases s.len(),
{
    if s.len() > 0 && white_space(s.last()) {
        let rest = s.drop_last();
        end_is_trimmed(rest);
        let a = trim_end_spec(s);
        assert(rest.take(a.len() as int) =~= s.take(a.len() as int));
        assert forall|i: int| a.len() <= i < s.len() implies white_space(#[trigger] s[i]) by {
            if i < rest.len() {
                assert(rest[i] == s[i]);
            }
        }
    } else {
        assert(s.take(s.len() as int) =~= s);
    }
}

/// Taking a character off the end takes all of it and nothing else.
pub proof fn only_the_character_is_taken_off(s: &str, c: char, r: String)
    requires
        call_ensures(trim_end_char, (s, c), r),
    ensures
        r@.len() <= s@.len(),
        r@ == s@.take(r@.len() as int),
        r@.len() > 0 ==> r@.last() != c,
        forall|i: int| r@.len() <= i < s@.len() ==> #[trigger] s@[i] == c,
{
    end_char_is_taken_off(s@, c);
}

proof fn end_char_is_taken_off(s: Seq<char>, c: char)
    ensures
        ({
            let a = trim_end_char_spec(s, c);
            &&& a.len() <= s.len()
            &&& a == s.take(a.len() as int)
            &&& forall|i: int| a.len() <= i < s.len() ==> #[trigger] s[i] == c
            &&& a.len() > 0 ==> a.last() != c
        }),
    decreases s.len(),
{
    if s.len() > 0 && s.last() == c {
        let rest = s.drop_last();
        end_char_is_taken_off(rest, c);
        let a = trim_end_char_spec(s, c);
        assert(rest.take(a.len() as int) =~= s.take(a.len() as int));
        assert forall|i: int| a.len() <= i < s.len() implies #[trigger] s[i] == c by {
            if i < rest.len() {
                assert(rest[i] == s[i]);
            }
        }
    } else {
        assert(s.take(s.len() as int) =~= s);
    }
}

/// Strings put together and taken apart again: what follows a prefix is what was put
/// behind it, and only a text that begins with the prefix has such a rest.
pub proof fn prefixes_come_off_again(
    a: &str,
    b: &str,
    c: &str,
    two: String,
    three: String,
    s: &str,
    rest: Option<String>,
    n: usize,
    start: String,
)
    requires
        call_ensures(join2, (a, b), two),
        call_ensures(join3, (a, b, c), three),
        call_ensures(strip_prefix, (s, a), rest),
        call_ensures(take_chars, (s, n), start),
    ensures
        two@ == a@ + b@,
        three@ == a@ + b@ + c@,
        s@ == a@ + b@ ==> (rest matches Some(r) && r@ == b@),
        rest matches Some(r) ==> s@ == a@ + r@,
        start@.len() == if n <= s@.len() {
            n as nat
        } else {
            s@.len()
        },
        forall|i: int| 0 <= i < start@.len() ==> start@[i] == s@[i],
{
    if s@ == a@ + b@ {
        assert(a@.is_prefix_of(s@));
        assert(s@.skip(a@.len() as int) =~= b@);
    }
    if a@.is_prefix_of(s@) {
        assert(s@ =~= a@ + s@.skip(a@.len() as int));
    }
}

/// Lower case changes capital letters and nothing else.
pub proof fn lower_case_changes_capitals_only(c: char)
    ensures
        'A' <= c <= 'Z' ==> ascii_lower_char(c) as int - 'a' as int == c as int - 'A' as int,
        !('A' <= c <= 'Z') ==> ascii_lower_char(c) == c,
{
}

/// A hexadecimal digit is the one that stands for its value: the ten digits, then the
/// letters from `a` on.
pub proof fn hex_digits_stand_for_their_value(d: u8, c: char)
    requires
        d < 16,
        call_ensures(hex_char, (d,), c),
    ensures
        d < 10 ==> c as int == '0' as int + d,
        d >= 10 ==> c as int == 'a' as int + d - 10,
{
}

/// Whether `s` ends with all of `end`, behind something else.
pub open spec fn ends_in(s: Seq<char>, end: Seq<char>) -> bool {
    s.len() > end.len() && s.skip(s.len() - end.len()) == end
}

/// A text put behind another that is not empty ends the whole.
pub proof fn what_comes_last_ends_the_text(start: Seq<char>, end: Seq<char>)
    requires
        start.len() > 0,
    ensures
        ends_in(start + end, end),
{
    assert((start + end).skip(start.len() as int) =~= end);
}

} // verus!
