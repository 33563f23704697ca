//! A JSON value can be told from its compact text.

use vstd::prelude::*;

use crate::text;
use crate::variant::json;
use crate::variant::json::{Entry, JsonView};

verus! {

/// Whether a character stands in the texts of numbers.
pub open spec fn number_char(c: char) -> bool {
    '0' <= c <= '9' || c == '-' || c == '+' || c == '.' || c == 'e' || c == 'E'
}

/// Whether every number, at any depth, is written with characters of numbers.
pub open spec fn numbers_are_plain(v: JsonView) -> bool
    decreases v,
{
    match v {
        JsonView::Number(n) => n.len() > 0 && forall|i: int|
            0 <= i < n.len() ==> number_char(#[trigger] n[i]),
        JsonView::Array(items) => forall|i: int|
            0 <= i < items.len() ==> numbers_are_plain(#[trigger] items[i]),
        JsonView::Object(entries) => forall|i: int|
            0 <= i < entries.len() ==> numbers_are_plain((#[trigger] entries[i]).1),
        _ => true,
    }
}

// Whether a value can end before `rest`.
spec fn ends_value(rest: Seq<char>) -> bool {
    rest.len() == 0 || rest[0] == ',' || rest[0] == ']' || rest[0] == '}'
}

proof fn prefix_is_dropped(head: Seq<char>, x: Seq<char>, y: Seq<char>)
    requires
        head + x == head + y,
    ensures
        x == y,
{
    assert((head + x).skip(head.len() as int) =~= x);
    assert((head + y).skip(head.len() as int) =~= y);
}

proof fn escape_decides(c: char, d: char, x: Seq<char>, y: Seq<char>)
    requires
        json::escaped_char(c) + x == json::escaped_char(d) + y,
    ensures
        c == d,
        x == y,
{
    let a = json::escaped_char(c) + x;
    let b = json::escaped_char(d) + y;
    assert(a[0] == json::escaped_char(c)[0]);
    assert(b[0] == json::escaped_char(d)[0]);
    if a[0] == '\\' {
        assert(a[1] == json::escaped_char(c)[1]);
        assert(b[1] == json::escaped_char(d)[1]);
        if a[1] == 'u' {
            assert(a[4] == json::escaped_char(c)[4] && a[5] == json::escaped_char(c)[5]);
            assert(b[4] == json::escaped_char(d)[4] && b[5] == json::escaped_char(d)[5]);
            text::hex_digit_injective(c as int / 16, d as int / 16);
            text::hex_digit_injective(c as int % 16, d as int % 16);
        }
    }
    assert(c == d);
    prefix_is_dropped(json::escaped_char(c), x, y);
}

proof fn escapes_decide(s: Seq<char>, t: Seq<char>, x: Seq<char>, y: Seq<char>)
    requires
        json::escaped(s) + seq!['"'] + x == json::escaped(t) + seq!['"'] + y,
    ensures
        s == t,
        x == y,
    decreases s.len(),
{
    let a = json::escaped(s) + seq!['"'] + x;
    let b = json::escaped(t) + seq!['"'] + y;
    if s.len() == 0 || t.len() == 0 {
        if s.len() > 0 {
            assert(a[0] == json::escaped_char(s[0])[0]);
            assert(b[0] == '"');
        }
        if t.len() > 0 {
            assert(b[0] == json::escaped_char(t[0])[0]);
            assert(a[0] == '"');
        }
        assert(s =~= t);
        assert(a =~= seq!['"'] + x && b =~= seq!['"'] + y);
        prefix_is_dropped(seq!['"'], x, y);
    } else {
        let s1 = s.drop_first();
        let t1 = t.drop_first();
        let x1 = json::escaped(s1) + seq!['"'] + x;
        let y1 = json::escaped(t1) + seq!['"'] + y;
        assert(a =~= json::escaped_char(s[0]) + x1);
        assert(b =~= json::escaped_char(t[0]) + y1);
        escape_decides(s[0], t[0], x1, y1);
        escapes_decide(s1, t1, x, y);
        assert(s =~= seq![s[0]] + s1);
        assert(t =~= seq![t[0]] + t1);
    }
}

/// A string can be told from its quoted text, whatever follows it.
pub proof fn quoted_text_decides(s: Seq<char>, t: Seq<char>, x: Seq<char>, y: Seq<char>)
    requires
        json::json_quoted(s) + x == json::json_quoted(t) + y,
    ensures
        s == t,
        x == y,
{
    let x1 = json::escaped(s) + seq!['"'] + x;
    let y1 = json::escaped(t) + seq!['"'] + y;
    assert(json::json_quoted(s) + x =~= seq!['"'] + x1);
    assert(json::json_quoted(t) + y =~= seq!['"'] + y1);
    prefix_is_dropped(seq!['"'], x1, y1);
    escapes_decide(s, t, x, y);
}

// The text of a number goes on to the first character that stands in no number.
proof fn numbers_decide(m: Seq<char>, n: Seq<char>, x: Seq<char>, y: Seq<char>)
    requires
        forall|i: int| 0 <= i < m.len() ==> number_char(#[trigger] m[i]),
        forall|i: int| 0 <= i < n.len() ==> number_char(#[trigger] n[i]),
        ends_value(x),
        ends_value(y),
        m + x == n + y,
    ensures
        m == n,
        x == y,
{
    let a = m + x;
    let b = n + y;
    if m.len() < n.len() {
        let k = m.len() as int;
        assert(b[k] == n[k]);
        assert(a[k] == x[0]);
    }
    if n.len() < m.len() {
        let k = n.len() as int;
        assert(a[k] == m[k]);
        assert(b[k] == y[0]);
    }
    assert forall|i: int| 0 <= i < m.len() implies m[i] == n[i] by {
        assert(a[i] == m[i] && b[i] == n[i]);
    }
    assert(m =~= n);
    prefix_is_dropped(m, x, y);
}

// Which character the text of a value begins with.
spec fn opening(v: JsonView) -> char {
    match v {
        JsonView::Null => 'n',
        JsonView::Bool(b) => if b {
            't'
        } else {
            'f'
        },
        JsonView::Number(n) => n[0],
        JsonView::Str(_) => '"',
        JsonView::Array(_) => '[',
        JsonView::Object(_) => '{',
    }
}

proof fn texts_open(v: JsonView)
    requires
        numbers_are_plain(v),
    ensures
        v.text().len() > 0,
        v.text()[0] == opening(v),
{
    reveal_strlit("null");
    reveal_strlit("true");
    reveal_strlit("false");
}

proof fn joined_from_the_front(parts: Seq<Seq<char>>)
    requires
        parts.len() > 1,
    ensures
        json::comma_joined(parts) == parts[0] + seq![','] + json::comma_joined(parts.drop_first()),
    decreases parts.len(),
{
    let rest = parts.drop_first();
    let init = parts.drop_last();
    if parts.len() == 2 {
        assert(json::comma_joined(init) == parts[0]);
        assert(json::comma_joined(rest) == parts[1]);
    } else {
        joined_from_the_front(init);
        assert(init.drop_first() =~= rest.drop_last());
        assert(json::comma_joined(parts) =~= parts[0] + seq![','] + json::comma_joined(rest));
    }
}

proof fn item_texts_pointwise(items: Seq<JsonView>)
    ensures
        json::item_texts(items).len() == items.len(),
        forall|i: int|
            0 <= i < items.len() ==> #[trigger] json::item_texts(items)[i] == items[i].text(),
    decreases items.len(),
{
    if items.len() > 0 {
        item_texts_pointwise(items.drop_last());
    }
}

proof fn entry_texts_pointwise(entries: Seq<Entry>)
    ensures
        json::entry_texts(entries).len() == entries.len(),
        forall|i: int|
            0 <= i < entries.len() ==> #[trigger] json::entry_texts(entries)[i]
                == json::json_quoted(entries[i].0) + seq![':'] + entries[i].1.text(),
    decreases entries.len(),
{
    if entries.len() > 0 {
        entry_texts_pointwise(entries.drop_last());
    }
}

// The list that is left once the first part has been read, with what ends it.
spec fn after_first(parts: Seq<Seq<char>>, end: Seq<char>) -> Seq<char> {
    if parts.len() == 1 {
        end
    } else {
        seq![','] + (json::comma_joined(parts.drop_first()) + end)
    }
}

proof fn first_part_comes_first(parts: Seq<Seq<char>>, end: Seq<char>)
    requires
        parts.len() > 0,
    ensures
        json::comma_joined(parts) + end == parts[0] + after_first(parts, end),
{
    if parts.len() > 1 {
        joined_from_the_front(parts);
        assert(json::comma_joined(parts) + end =~= parts[0] + after_first(parts, end));
    }
}

proof fn items_decide(a: Seq<JsonView>, b: Seq<JsonView>, x: Seq<char>, y: Seq<char>)
    requires
        forall|i: int| 0 <= i < a.len() ==> numbers_are_plain(#[trigger] a[i]),
        forall|i: int| 0 <= i < b.len() ==> numbers_are_plain(#[trigger] b[i]),
        json::comma_joined(json::item_texts(a)) + (seq![']'] + x) == json::comma_joined(
            json::item_texts(b),
        ) + (seq![']'] + y),
    ensures
        a == b,
        x == y,
    decreases a,
{
    let p = json::item_texts(a);
    let q = json::item_texts(b);
    let ex = seq![']'] + x;
    let ey = seq![']'] + y;
    let l = json::comma_joined(p) + ex;
    let r = json::comma_joined(q) + ey;
    item_texts_pointwise(a);
    item_texts_pointwise(b);
    if a.len() == 0 || b.len() == 0 {
        if a.len() > 0 {
            first_part_comes_first(p, ex);
            texts_open(a[0]);
            assert(l[0] == opening(a[0]));
            assert(r[0] == ']');
        }
        if b.len() > 0 {
            first_part_comes_first(q, ey);
            texts_open(b[0]);
            assert(r[0] == opening(b[0]));
            assert(l[0] == ']');
        }
        assert(a =~= b);
        assert(l =~= ex && r =~= ey);
        prefix_is_dropped(seq![']'], x, y);
    } else {
        first_part_comes_first(p, ex);
        first_part_comes_first(q, ey);
        let u = after_first(p, ex);
        let w = after_first(q, ey);
        text_decides(a[0], b[0], u, w);
        let a1 = a.drop_first();
        let b1 = b.drop_first();
        if a.len() == 1 {
            assert(u[0] == ']');
            if b.len() > 1 {
                assert(w[0] == ',');
            }
            assert(a =~= b);
            prefix_is_dropped(seq![']'], x, y);
        } else {
            assert(u[0] == ',');
            if b.len() == 1 {
                assert(w[0] == ']');
            }
            item_texts_pointwise(a1);
            item_texts_pointwise(b1);
            assert(p.drop_first() =~= json::item_texts(a1));
            assert(q.drop_first() =~= json::item_texts(b1));
            prefix_is_dropped(
                seq![','],
                json::comma_joined(p.drop_first()) + ex,
                json::comma_joined(q.drop_first()) + ey,
            );
            items_decide(a1, b1, x, y);
            assert(a =~= seq![a[0]] + a1);
            assert(b =~= seq![b[0]] + b1);
        }
    }
}

proof fn entries_decide(a: Seq<Entry>, b: Seq<Entry>, x: Seq<char>, y: Seq<char>)
    requires
        forall|i: int| 0 <= i < a.len() ==> numbers_are_plain((#[trigger] a[i]).1),
        forall|i: int| 0 <= i < b.len() ==> numbers_are_plain((#[trigger] b[i]).1),
        json::comma_joined(json::entry_texts(a)) + (seq!['}'] + x) == json::comma_joined(
            json::entry_texts(b),
        ) + (seq!['}'] + y),
    ensures
        a == b,
        x == y,
    decreases a,
{
    let p = json::entry_texts(a);
    let q = json::entry_texts(b);
    let ex = seq!['}'] + x;
    let ey = seq!['}'] + y;
    let l = json::comma_joined(p) + ex;
    let r = json::comma_joined(q) + ey;
    entry_texts_pointwise(a);
    entry_texts_pointwise(b);
    if a.len() == 0 || b.len() == 0 {
        if a.len() > 0 {
            first_part_comes_first(p, ex);
            assert(l[0] == '"');
            assert(r[0] == '}');
        }
        if b.len() > 0 {
            first_part_comes_first(q, ey);
            assert(r[0] == '"');
            assert(l[0] == '}');
        }
        assert(a =~= b);
        assert(l =~= ex && r =~= ey);
        prefix_is_dropped(seq!['}'], x, y);
    } else {
        first_part_comes_first(p, ex);
        first_part_comes_first(q, ey);
        let u = after_first(p, ex);
        let w = after_first(q, ey);
        let ux = seq![':'] + (a[0].1.text() + u);
        let wy = seq![':'] + (b[0].1.text() + w);
        assert(p[0] + u =~= json::json_quoted(a[0].0) + ux);
        assert(q[0] + w =~= json::json_quoted(b[0].0) + wy);
        quoted_text_decides(a[0].0, b[0].0, ux, wy);
        prefix_is_dropped(seq![':'], a[0].1.text() + u, b[0].1.text() + w);
        text_decides(a[0].1, b[0].1, u, w);
        let a1 = a.drop_first();
        let b1 = b.drop_first();
        if a.len() == 1 {
            assert(u[0] == '}');
            if b.len() > 1 {
                assert(w[0] == ',');
            }
            assert(a =~= b);
            prefix_is_dropped(seq!['}'], x, y);
        } else {
            assert(u[0] == ',');
            if b.len() == 1 {
                assert(w[0] == '}');
            }
            entry_texts_pointwise(a1);
            entry_texts_pointwise(b1);
            assert(p.drop_first() =~= json::entry_texts(a1));
            assert(q.drop_first() =~= json::entry_texts(b1));
            prefix_is_dropped(
                seq![','],
                json::comma_joined(p.drop_first()) + ex,
                json::comma_joined(q.drop_first()) + ey,
            );
            entries_decide(a1, b1, x, y);
            assert(a =~= seq![a[0]] + a1);
            assert(b =~= seq![b[0]] + b1);
        }
    }
}

proof fn text_decides(a: JsonView, b: JsonView, x: Seq<char>, y: Seq<char>)
    requires
        numbers_are_plain(a),
        numbers_are_plain(b),
        ends_value(x),
        ends_value(y),
        a.text() + x == b.text() + y,
    ensures
        a == b,
        x == y,
    decreases a,
{
    let l = a.text() + x;
    let r = b.text() + y;
    texts_open(a);
    texts_open(b);
    assert(l[0] == opening(a) && r[0] == opening(b));
    match (a, b) {
        (JsonView::Number(m), JsonView::Number(n)) => {
            numbers_decide(m, n, x, y);
        },
        (JsonView::Str(s), JsonView::Str(t)) => {
            quoted_text_decides(s, t, x, y);
        },
        (JsonView::Array(s), JsonView::Array(t)) => {
            let p = json::comma_joined(json::item_texts(s));
            let q = json::comma_joined(json::item_texts(t));
            assert(l =~= seq!['['] + (p + (seq![']'] + x)));
            assert(r =~= seq!['['] + (q + (seq![']'] + y)));
            prefix_is_dropped(seq!['['], p + (seq![']'] + x), q + (seq![']'] + y));
            items_decide(s, t, x, y);
        },
        (JsonView::Object(s), JsonView::Object(t)) => {
            let p = json::comma_joined(json::entry_texts(s));
            let q = json::comma_joined(json::entry_texts(t));
            assert(l =~= seq!['{'] + (p + (seq!['}'] + x)));
            assert(r =~= seq!['{'] + (q + (seq!['}'] + y)));
            prefix_is_dropped(seq!['{'], p + (seq!['}'] + x), q + (seq!['}'] + y));
            entries_decide(s, t, x, y);
        },
        _ => {
            assert(a == b);
            prefix_is_dropped(a.text(), x, y);
        },
    }
}

/// Different values have different texts.
pub proof fn text_tells_values_apart(a: JsonView, b: JsonView)
    requires
        numbers_are_plain(a),
        numbers_are_plain(b),
    ensures
        a.text() == b.text() <==> a == b,
{
    if a.text() == b.text() {
        assert(a.text() + Seq::<char>::empty() =~= a.text());
        assert(b.text() + Seq::<char>::empty() =~= b.text());
        text_decides(a, b, seq![], seq![]);
    }
}

/// The canonical form has the numbers of the value.
pub proof fn canonical_numbers_stay_plain(v: JsonView)
    requires
        numbers_are_plain(v),
    ensures
        numbers_are_plain(v.canonical()),
    decreases v,
{
    match v {
        JsonView::Array(items) => {
            json::canonical_items_pointwise(items);
            let c = json::canonical_items(items);
            assert forall|i: int| 0 <= i < c.len() implies numbers_are_plain(#[trigger] c[i]) by {
                canonical_numbers_stay_plain(items[i]);
            }
        },
        JsonView::Object(entries) => {
            json::canonical_entries_pointwise(entries);
            let p = json::canonical_entries(entries);
            let c = json::in_order(p);
            json::in_order_sorts(p);
            assert forall|i: int| 0 <= i < c.len() implies numbers_are_plain(
                (#[trigger] c[i]).1,
            ) by {
                assert(c.contains(c[i]));
                assert(p.contains(c[i]));
                let k = choose|k: int| 0 <= k < p.len() && p[k] == c[i];
                canonical_numbers_stay_plain(entries[k].1);
            }
        },
        _ => {},
    }
}

} // verus!
