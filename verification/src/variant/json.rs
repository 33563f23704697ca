//! JSON values, their canonical form and their compact text.

use vstd::prelude::*;

use crate::text;

verus! {

/// A JSON value. A number is held as the text it is written with. Values that
/// differ only in the order in which objects list their keys are equal.
#[derive(Debug)]
pub enum Json {
    /// `null`.
    Null,
    /// `true` or `false`.
    Bool(bool),
    /// A number, by its text.
    Number(String),
    /// A string.
    Str(String),
    /// A list of values.
    Array(Vec<Json>),
    /// Keys with their values.
    Object(Vec<(String, Json)>),
}

/// The mathematical model of a [`Json`].
pub enum JsonView {
    /// `null`.
    Null,
    /// `true` or `false`.
    Bool(bool),
    /// A number, by its text.
    Number(Seq<char>),
    /// A string.
    Str(Seq<char>),
    /// A list of values.
    Array(Seq<JsonView>),
    /// Keys with their values.
    Object(Seq<(Seq<char>, JsonView)>),
}

impl Json {
    /// The model of the value.
    pub open spec fn view(self) -> JsonView
        decreases self,
    {
        match self {
            Json::Null => JsonView::Null,
            Json::Bool(b) => JsonView::Bool(b),
            Json::Number(n) => JsonView::Number(n@),
            Json::Str(s) => JsonView::Str(s@),
            Json::Array(items) => JsonView::Array(
                Seq::new(
                    items@.len(),
                    |i: int|
                        if 0 <= i < items@.len() {
                            items@[i].view()
                        } else {
                            JsonView::Null
                        },
                ),
            ),
            Json::Object(entries) => JsonView::Object(
                Seq::new(
                    entries@.len(),
                    |i: int|
                        if 0 <= i < entries@.len() {
                            (entries@[i].0@, entries@[i].1.view())
                        } else {
                            (seq![], JsonView::Null)
                        },
                ),
            ),
        }
    }

    fn duplicate(&self) -> (r: Json)
        ensures
            r@ == self@,
        decreases self,
    {
        match self {
            Json::Null => Json::Null,
            Json::Bool(b) => Json::Bool(*b),
            Json::Number(n) => Json::Number(n.clone()),
            Json::Str(s) => Json::Str(s.clone()),
            Json::Array(items) => {
                let mut out: Vec<Json> = Vec::new();
                let mut i: usize = 0;
                while i < items.len()
                    invariant
                        i <= items@.len(),
                        out@.len() == i,
                        forall|j: int| 0 <= j < i ==> (#[trigger] out@[j])@ == items@[j]@,
                        decreases_to!(self => items),
                    decreases items@.len() - i,
                {
                    out.push(items[i].duplicate());
                    i = i + 1;
                }
                let r = Json::Array(out);
                assert(r@->Array_0 =~= self@->Array_0);
                r
            },
            Json::Object(entries) => {
                let mut out: Vec<(String, Json)> = Vec::new();
                let mut i: usize = 0;
                while i < entries.len()
                    invariant
                        i <= entries@.len(),
                        out@.len() == i,
                        forall|j: int|
                            0 <= j < i ==> (#[trigger] out@[j]).1@ == entries@[j].1@ && out@[j].0@
                                == entries@[j].0@,
                        decreases_to!(self => entries),
                    decreases entries@.len() - i,
                {
                    out.push((entries[i].0.clone(), entries[i].1.duplicate()));
                    i = i + 1;
                }
                let r = Json::Object(out);
                assert(r@->Object_0 =~= self@->Object_0);
                r
            },
        }
    }
}

impl Clone for Json {
    fn clone(&self) -> (r: Self)
        ensures
            r@ == self@,
    {
        self.duplicate()
    }
}

/// An object's key with its value.
pub type Entry = (Seq<char>, JsonView);

/// How a character is written inside a JSON string: a quote, a backslash and the
/// control characters are escaped, any other stands for itself.
pub open spec fn escaped_char(c: char) -> Seq<char> {
    if c == '"' || c == '\\' {
        seq!['\\', c]
    } else if c == '\u{8}' {
        seq!['\\', 'b']
    } else if c == '\t' {
        seq!['\\', 't']
    } else if c == '\n' {
        seq!['\\', 'n']
    } else if c == '\u{c}' {
        seq!['\\', 'f']
    } else if c == '\r' {
        seq!['\\', 'r']
    } else if ' ' > c {
        seq![
            '\\',
            'u',
            '0',
            '0',
            text::hex_digit(c as int / 16),
            text::hex_digit(c as int % 16),
        ]
    } else {
        seq![c]
    }
}

/// How a string is written between the quotes.
pub open spec fn escaped(s: Seq<char>) -> Seq<char>
    decreases s.len(),
{
    if s.len() == 0 {
        seq![]
    } else {
        escaped_char(s[0]) + escaped(s.drop_first())
    }
}

/// The text of a JSON string: quoted and escaped.
pub open spec fn json_quoted(s: Seq<char>) -> Seq<char> {
    seq!['"'] + escaped(s) + seq!['"']
}

/// Calls `serde_json::to_string` on a string, which writes it between quotes with a
/// backslash before quotes and backslashes, `\b`, `\t`, `\n`, `\f` and `\r` for the
/// control characters that have such a form and `\u00` with two lowercase
/// hexadecimal digits for the others below the space. It fails only when a
/// `Serialize` implementation fails or a map has keys that are no strings; a string
/// can do neither.
#[verifier::external_body]
fn quote(s: &str) -> (r: String)
    ensures
        r@ == json_quoted(s@),
{
    serde_json::to_string(s).unwrap_or_default()
}

/// The parts with commas between them.
pub open spec fn comma_joined(parts: Seq<Seq<char>>) -> Seq<char>
    decreases parts.len(),
{
    if parts.len() == 0 {
        seq![]
    } else if parts.len() == 1 {
        parts[0]
    } else {
        comma_joined(parts.drop_last()) + seq![','] + parts.last()
    }
}

/// The value under `key`, of the first entry that has it.
pub open spec fn value_under(entries: Seq<Entry>, key: Seq<char>) -> Option<JsonView>
    decreases entries.len(),
{
    if entries.len() == 0 {
        None
    } else if entries[0].0 == key {
        Some(entries[0].1)
    } else {
        value_under(entries.drop_first(), key)
    }
}

/// The sorted `entries` with `entry` put in behind every key that is not
/// greater.
pub open spec fn put_in_order(entries: Seq<Entry>, entry: Entry) -> Seq<Entry>
    decreases entries.len(),
{
    if entries.len() == 0 || text::lex_le(entries.last().0, entry.0) {
        entries.push(entry)
    } else {
        put_in_order(entries.drop_last(), entry).push(entries.last())
    }
}

/// The entries in the order of their keys.
pub open spec fn in_order(entries: Seq<Entry>) -> Seq<Entry>
    decreases entries.len(),
{
    if entries.len() == 0 {
        entries
    } else {
        put_in_order(in_order(entries.drop_last()), entries.last())
    }
}

/// Whether no key occurs twice.
pub open spec fn keys_distinct(entries: Seq<Entry>) -> bool {
    forall|i: int, j: int|
        0 <= i < j < entries.len() ==> #[trigger] entries[i].0 != #[trigger] entries[j].0
}

/// Whether the keys come in ascending order.
pub open spec fn keys_ascend(entries: Seq<Entry>) -> bool {
    forall|i: int, j: int|
        0 <= i < j < entries.len() ==> text::lex_le(
            #[trigger] entries[i].0,
            #[trigger] entries[j].0,
        )
}

impl JsonView {
    /// The value under `key` when the value is an object that has it.
    pub open spec fn get(self, key: Seq<char>) -> Option<JsonView> {
        match self {
            JsonView::Object(entries) => value_under(entries, key),
            _ => None,
        }
    }

    /// The value with the keys of every object in ascending order.
    pub open spec fn canonical(self) -> JsonView
        decreases self,
    {
        match self {
            JsonView::Array(items) => JsonView::Array(canonical_items(items)),
            JsonView::Object(entries) => JsonView::Object(in_order(canonical_entries(entries))),
            _ => self,
        }
    }

    /// The compact JSON text of the value.
    pub open spec fn text(self) -> Seq<char>
        decreases self,
    {
        match self {
            JsonView::Null => "null"@,
            JsonView::Bool(b) => if b {
                "true"@
            } else {
                "false"@
            },
            JsonView::Number(n) => n,
            JsonView::Str(s) => json_quoted(s),
            JsonView::Array(items) => seq!['['] + comma_joined(item_texts(items)) + seq![']'],
            JsonView::Object(entries) => seq!['{'] + comma_joined(entry_texts(entries)) + seq!['}'],
        }
    }

    /// Whether no object, at any depth, has a key twice.
    pub open spec fn well_formed(self) -> bool
        decreases self,
    {
        match self {
            JsonView::Array(items) => forall|i: int|
                0 <= i < items.len() ==> (#[trigger] items[i]).well_formed(),
            JsonView::Object(entries) => keys_distinct(entries) && forall|i: int|
                0 <= i < entries.len() ==> (#[trigger] entries[i]).1.well_formed(),
            _ => true,
        }
    }

    /// Whether `other` is the same value but for the order in which the objects
    /// in it list their keys.
    pub open spec fn same_but_for_order(self, other: JsonView) -> bool
        decreases self,
    {
        match (self, other) {
            (JsonView::Array(a), JsonView::Array(b)) => a.len() == b.len() && forall|i: int|
                0 <= i < a.len() ==> (#[trigger] a[i]).same_but_for_order(b[i]),
            (JsonView::Object(a), JsonView::Object(b)) => a.len() == b.len() && forall|i: int|
                0 <= i < a.len() ==> exists|j: int|
                    0 <= j < b.len() && (#[trigger] a[i]).0 == (#[trigger] b[j]).0
                        && a[i].1.same_but_for_order(b[j].1),
            (JsonView::Array(_), _) => false,
            (JsonView::Object(_), _) => false,
            _ => self == other,
        }
    }
}

/// The canonical form of every item.
pub open spec fn canonical_items(items: Seq<JsonView>) -> Seq<JsonView>
    decreases items,
{
    if items.len() == 0 {
        seq![]
    } else {
        canonical_items(items.drop_last()).push(items.last().canonical())
    }
}

/// The entries with the canonical form of every value.
pub open spec fn canonical_entries(entries: Seq<Entry>) -> Seq<Entry>
    decreases entries,
{
    if entries.len() == 0 {
        seq![]
    } else {
        canonical_entries(entries.drop_last()).push(
            (entries.last().0, entries.last().1.canonical()),
        )
    }
}

/// The text of every item.
pub open spec fn item_texts(items: Seq<JsonView>) -> Seq<Seq<char>>
    decreases items,
{
    if items.len() == 0 {
        seq![]
    } else {
        item_texts(items.drop_last()).push(items.last().text())
    }
}

/// The text of every entry: its key, a colon and its value.
pub open spec fn entry_texts(entries: Seq<Entry>) -> Seq<Seq<char>>
    decreases entries,
{
    if entries.len() == 0 {
        seq![]
    } else {
        entry_texts(entries.drop_last()).push(
            json_quoted(entries.last().0) + seq![':'] + entries.last().1.text(),
        )
    }
}

pub(crate) proof fn canonical_entries_pointwise(entries: Seq<Entry>)
    ensures
        canonical_entries(entries).len() == entries.len(),
        forall|i: int|
            0 <= i < entries.len() ==> #[trigger] canonical_entries(entries)[i] == (
                entries[i].0,
                entries[i].1.canonical(),
            ),
    decreases entries.len(),
{
    if entries.len() > 0 {
        canonical_entries_pointwise(entries.drop_last());
    }
}

pub(crate) proof fn canonical_items_pointwise(items: Seq<JsonView>)
    ensures
        canonical_items(items).len() == items.len(),
        forall|i: int|
            0 <= i < items.len() ==> #[trigger] canonical_items(items)[i] == items[i].canonical(),
    decreases items.len(),
{
    if items.len() > 0 {
        canonical_items_pointwise(items.drop_last());
    }
}

/// The model of a list of entries.
pub open spec fn entries_view(entries: Seq<(String, Json)>) -> Seq<Entry> {
    Seq::new(entries.len(), |i: int| (entries[i].0@, entries[i].1@))
}

/// The model of a list of values.
pub open spec fn items_view(items: Seq<Json>) -> Seq<JsonView> {
    Seq::new(items.len(), |i: int| items[i]@)
}

/// The model of an array is the list of its items' models.
pub proof fn view_of_array(items: Vec<Json>)
    ensures
        Json::Array(items)@ == JsonView::Array(items_view(items@)),
{
    assert(Json::Array(items)@->Array_0 =~= items_view(items@));
}

/// The model of an object is the list of its entries' models.
pub proof fn view_of_object(entries: Vec<(String, Json)>)
    ensures
        Json::Object(entries)@ == JsonView::Object(entries_view(entries@)),
{
    assert(Json::Object(entries)@->Object_0 =~= entries_view(entries@));
}

/// An object with one key.
pub fn tagged(tag: &str, value: Json) -> (r: Json)
    ensures
        r@ == JsonView::Object(seq![(tag@, value@)]),
{
    let mut entries: Vec<(String, Json)> = Vec::new();
    entries.push((tag.to_owned(), value));
    proof {
        view_of_object(entries);
        assert(entries_view(entries@) =~= seq![(tag@, value@)]);
    }
    Json::Object(entries)
}

proof fn put_in_order_is_insert(entries: Seq<Entry>, entry: Entry, at: int)
    requires
        0 <= at <= entries.len(),
        at > 0 ==> text::lex_le(entries[at - 1].0, entry.0),
        forall|k: int| at <= k < entries.len() ==> !text::lex_le(#[trigger] entries[k].0, entry.0),
    ensures
        put_in_order(entries, entry) == entries.insert(at, entry),
    decreases entries.len(),
{
    if entries.len() == at {
        assert(entries.insert(at, entry) == entries.push(entry));
    } else {
        let init = entries.drop_last();
        assert(!text::lex_le(entries[entries.len() - 1].0, entry.0));
        assert forall|k: int| at <= k < init.len() implies !text::lex_le(
            #[trigger] init[k].0,
            entry.0,
        ) by {
            assert(init[k] == entries[k]);
        }
        put_in_order_is_insert(init, entry, at);
        assert(entries.insert(at, entry) =~= init.insert(at, entry).push(entries.last()));
    }
}

impl Json {
    /// The value under `key` when the value is an object that has it.
    #[must_use]
    pub fn get(&self, key: &str) -> (r: Option<&Json>)
        ensures
            match r {
                Some(v) => self@.get(key@) == Some(v@),
                None => self@.get(key@) is None,
            },
    {
        match self {
            Json::Object(entries) => {
                proof {
                    view_of_object(*entries);
                }
                let ghost all: Seq<Entry> = entries_view(entries@);
                let mut i: usize = 0;
                assert(all.skip(0) == all);
                while i < entries.len()
                    invariant
                        i <= entries@.len(),
                        all == entries_view(entries@),
                        self@ == JsonView::Object(all),
                        value_under(all, key@) == value_under(all.skip(i as int), key@),
                    decreases entries@.len() - i,
                {
                    assert(all.skip(i as int)[0] == all[i as int]);
                    if text::str_eq(entries[i].0.as_str(), key) {
                        assert(self@.get(key@) == Some(entries@[i as int].1@));
                        return Some(&entries[i].1);
                    }
                    assert(all.skip(i as int).drop_first() == all.skip(i + 1));
                    i = i + 1;
                }
                None
            },
            _ => None,
        }
    }

    /// The string, when the value is one.
    #[must_use]
    pub fn as_str(&self) -> (r: Option<&str>)
        ensures
            match self@ {
                JsonView::Str(s) => r is Some && r->0@ == s,
                _ => r is None,
            },
    {
        match self {
            Json::Str(s) => Some(s.as_str()),
            _ => None,
        }
    }

    /// Whether the value is `null`.
    #[must_use]
    pub fn is_null(&self) -> (r: bool)
        ensures
            r == (self@ is Null),
    {
        matches!(self, Json::Null)
    }

    /// The value with the keys of every object in ascending order, so that equal
    /// values have equal texts whatever order their keys came in.
    #[must_use]
    pub fn canonicalize(&self) -> (r: Json)
        ensures
            r@ == self@.canonical(),
        decreases self,
    {
        match self {
            Json::Array(items) => {
                let ghost all: Seq<JsonView> = items_view(items@);
                let mut out: Vec<Json> = Vec::new();
                let mut i: usize = 0;
                assert(items_view(out@) =~= canonical_items(all.take(0)));
                while i < items.len()
                    invariant
                        i <= items@.len(),
                        all == items_view(items@),
                        items_view(out@) == canonical_items(all.take(i as int)),
                        decreases_to!(self => items),
                    decreases items@.len() - i,
                {
                    let ghost before: Seq<JsonView> = items_view(out@);
                    out.push(items[i].canonicalize());
                    i = i + 1;
                    proof {
                        assert(all.take(i as int).drop_last() =~= all.take(i - 1));
                        assert(items_view(out@) =~= before.push(all[i - 1].canonical()));
                    }
                }
                proof {
                    view_of_array(*items);
                    view_of_array(out);
                    assert(all.take(all.len() as int) =~= all);
                }
                Json::Array(out)
            },
            Json::Object(entries) => {
                let ghost all: Seq<Entry> = entries_view(entries@);
                let mut out: Vec<(String, Json)> = Vec::new();
                let mut i: usize = 0;
                assert(entries_view(out@) =~= in_order(canonical_entries(all.take(0))));
                while i < entries.len()
                    invariant
                        i <= entries@.len(),
                        all == entries_view(entries@),
                        entries_view(out@) == in_order(canonical_entries(all.take(i as int))),
                        decreases_to!(self => entries),
                    decreases entries@.len() - i,
                {
                    let key = entries[i].0.clone();
                    let value = entries[i].1.canonicalize();
                    let ghost before: Seq<Entry> = entries_view(out@);
                    let ghost entry: Entry = (all[i as int].0, all[i as int].1.canonical());
                    let mut at: usize = out.len();
                    while at > 0 && !text::str_le(out[at - 1].0.as_str(), key.as_str())
                        invariant
                            at <= out@.len(),
                            before == entries_view(out@),
                            key@ == entry.0,
                            forall|k: int|
                                at <= k < before.len() ==> !text::lex_le(
                                    #[trigger] before[k].0,
                                    entry.0,
                                ),
                        decreases at,
                    {
                        at = at - 1;
                    }
                    proof {
                        put_in_order_is_insert(before, entry, at as int);
                        let now = canonical_entries(all.take(i + 1));
                        assert(all.take(i + 1).drop_last() =~= all.take(i as int));
                        assert(now == canonical_entries(all.take(i as int)).push(entry));
                        assert(now.drop_last() =~= canonical_entries(all.take(i as int)));
                    }
                    out.insert(at, (key, value));
                    assert(entries_view(out@) =~= before.insert(at as int, entry));
                    i = i + 1;
                }
                proof {
                    view_of_object(*entries);
                    view_of_object(out);
                    assert(all.take(all.len() as int) =~= all);
                }
                Json::Object(out)
            },
            _ => self.duplicate(),
        }
    }

    /// The compact JSON text of the value.
    pub fn to_text(&self) -> (r: String)
        ensures
            r@ == self@.text(),
        decreases self,
    {
        match self {
            Json::Null => "null".to_owned(),
            Json::Bool(b) => if *b {
                "true".to_owned()
            } else {
                "false".to_owned()
            },
            Json::Number(n) => n.clone(),
            Json::Str(s) => quote(s.as_str()),
            Json::Array(items) => {
                let ghost all: Seq<JsonView> = items_view(items@);
                let mut out = String::new();
                out.push('[');
                let mut i: usize = 0;
                assert(out@ =~= seq!['['] + comma_joined(item_texts(all.take(0))));
                while i < items.len()
                    invariant
                        i <= items@.len(),
                        all == items_view(items@),
                        item_texts(all.take(i as int)).len() == i,
                        out@ == seq!['['] + comma_joined(item_texts(all.take(i as int))),
                        decreases_to!(self => items),
                    decreases items@.len() - i,
                {
                    let part = items[i].to_text();
                    proof {
                        let now = item_texts(all.take(i + 1));
                        assert(all.take(i + 1).drop_last() =~= all.take(i as int));
                        assert(now.drop_last() =~= item_texts(all.take(i as int)));
                        assert(now.last() == part@);
                    }
                    if i > 0 {
                        out.push(',');
                    }
                    out = out.concat(part.as_str());
                    i = i + 1;
                    assert(out@ =~= seq!['['] + comma_joined(item_texts(all.take(i as int))));
                }
                out.push(']');
                proof {
                    view_of_array(*items);
                    assert(all.take(all.len() as int) =~= all);
                    assert(out@ =~= seq!['['] + comma_joined(item_texts(all)) + seq![']']);
                }
                out
            },
            Json::Object(entries) => {
                let ghost all: Seq<Entry> = entries_view(entries@);
                let mut out = String::new();
                out.push('{');
                let mut i: usize = 0;
                assert(out@ =~= seq!['{'] + comma_joined(entry_texts(all.take(0))));
                while i < entries.len()
                    invariant
                        i <= entries@.len(),
                        all == entries_view(entries@),
                        entry_texts(all.take(i as int)).len() == i,
                        out@ == seq!['{'] + comma_joined(entry_texts(all.take(i as int))),
                        decreases_to!(self => entries),
                    decreases entries@.len() - i,
                {
                    let key = quote(entries[i].0.as_str());
                    let value = entries[i].1.to_text();
                    proof {
                        let now = entry_texts(all.take(i + 1));
                        assert(all.take(i + 1).drop_last() =~= all.take(i as int));
                        assert(now.drop_last() =~= entry_texts(all.take(i as int)));
                        assert(now.last() == key@ + seq![':'] + value@);
                    }
                    if i > 0 {
                        out.push(',');
                    }
                    out = out.concat(key.as_str());
                    out.push(':');
                    out = out.concat(value.as_str());
                    i = i + 1;
                    assert(out@ =~= seq!['{'] + comma_joined(entry_texts(all.take(i as int))));
                }
                out.push('}');
                proof {
                    view_of_object(*entries);
                    assert(all.take(all.len() as int) =~= all);
                    assert(out@ =~= seq!['{'] + comma_joined(entry_texts(all)) + seq!['}']);
                }
                out
            },
        }
    }
}

fn same_view(a: &Json, b: &Json) -> (r: bool)
    ensures
        r == (a@ == b@),
    decreases a,
{
    match (a, b) {
        (Json::Null, Json::Null) => true,
        (Json::Bool(x), Json::Bool(y)) => *x == *y,
        (Json::Number(x), Json::Number(y)) => text::str_eq(x.as_str(), y.as_str()),
        (Json::Str(x), Json::Str(y)) => text::str_eq(x.as_str(), y.as_str()),
        (Json::Array(x), Json::Array(y)) => {
            proof {
                view_of_array(*x);
                view_of_array(*y);
            }
            if x.len() != y.len() {
                assert(items_view(x@).len() != items_view(y@).len());
                return false;
            }
            let mut i: usize = 0;
            while i < x.len()
                invariant
                    i <= x@.len(),
                    x@.len() == y@.len(),
                    forall|j: int| 0 <= j < i ==> (#[trigger] x@[j])@ == y@[j]@,
                    a@ == JsonView::Array(items_view(x@)),
                    b@ == JsonView::Array(items_view(y@)),
                    decreases_to!(a => x),
                decreases x@.len() - i,
            {
                if !same_view(&x[i], &y[i]) {
                    assert(items_view(x@)[i as int] != items_view(y@)[i as int]);
                    return false;
                }
                i = i + 1;
            }
            assert(items_view(x@) =~= items_view(y@));
            true
        },
        (Json::Object(x), Json::Object(y)) => {
            proof {
                view_of_object(*x);
                view_of_object(*y);
            }
            if x.len() != y.len() {
                assert(entries_view(x@).len() != entries_view(y@).len());
                return false;
            }
            let mut i: usize = 0;
            while i < x.len()
                invariant
                    i <= x@.len(),
                    x@.len() == y@.len(),
                    forall|j: int|
                        0 <= j < i ==> (#[trigger] x@[j]).0@ == y@[j].0@ && x@[j].1@ == y@[j].1@,
                    a@ == JsonView::Object(entries_view(x@)),
                    b@ == JsonView::Object(entries_view(y@)),
                    decreases_to!(a => x),
                decreases x@.len() - i,
            {
                if !text::str_eq(x[i].0.as_str(), y[i].0.as_str()) || !same_view(
                    &x[i].1,
                    &y[i].1,
                ) {
                    assert(entries_view(x@)[i as int] != entries_view(y@)[i as int]);
                    return false;
                }
                i = i + 1;
            }
            assert(entries_view(x@) =~= entries_view(y@));
            true
        },
        _ => false,
    }
}

impl PartialEq for Json {
    /// Whether the values are the same but for the order of keys.
    fn eq(&self, other: &Self) -> (r: bool) {
        same_view(&self.canonicalize(), &other.canonicalize())
    }
}

impl vstd::std_specs::cmp::PartialEqSpecImpl for Json {
    open spec fn obeys_eq_spec() -> bool {
        true
    }

    open spec fn eq_spec(&self, other: &Self) -> bool {
        self@.canonical() == other@.canonical()
    }
}

impl Eq for Json {

}

proof fn put_in_order_keeps(entries: Seq<Entry>, entry: Entry)
    ensures
        put_in_order(entries, entry).len() == entries.len() + 1,
        forall|e: Entry|
            #![trigger put_in_order(entries, entry).contains(e)]
            #![trigger entries.contains(e)]
            put_in_order(entries, entry).contains(e) <==> entries.contains(e) || e == entry,
        keys_ascend(entries) ==> keys_ascend(put_in_order(entries, entry)),
        (keys_distinct(entries) && forall|i: int|
            0 <= i < entries.len() ==> #[trigger] entries[i].0 != entry.0) ==> keys_distinct(
            put_in_order(entries, entry),
        ),
    decreases entries.len(),
{
    let all = put_in_order(entries, entry);
    if entries.len() == 0 || text::lex_le(entries.last().0, entry.0) {
        assert forall|e: Entry|
            #![trigger all.contains(e)]
            #![trigger entries.contains(e)]
            all.contains(e) <==> entries.contains(e) || e == entry by {
            vstd::seq_lib::lemma_seq_contains_after_push(entries, entry, e);
        }
        if keys_ascend(entries) {
            assert forall|i: int, j: int| 0 <= i < j < all.len() implies text::lex_le(
                #[trigger] all[i].0,
                #[trigger] all[j].0,
            ) by {
                assert(all[i] == entries[i]);
                if j < entries.len() {
                    assert(all[j] == entries[j]);
                } else if i < entries.len() - 1 {
                    assert(text::lex_le(entries[i].0, entries[entries.len() - 1].0));
                    text::lex_le_transitive(entries[i].0, entries.last().0, entry.0);
                }
            }
        }
    } else {
        let init = entries.drop_last();
        let last = entries.last();
        let part = put_in_order(init, entry);
        put_in_order_keeps(init, entry);
        assert(entries == init.push(last));
        assert forall|e: Entry|
            #![trigger all.contains(e)]
            #![trigger entries.contains(e)]
            all.contains(e) <==> entries.contains(e) || e == entry by {
            vstd::seq_lib::lemma_seq_contains_after_push(init, last, e);
            vstd::seq_lib::lemma_seq_contains_after_push(part, last, e);
        }
        if keys_ascend(entries) {
            assert forall|i: int, j: int| 0 <= i < j < init.len() implies text::lex_le(
                #[trigger] init[i].0,
                #[trigger] init[j].0,
            ) by {
                assert(init[i] == entries[i] && init[j] == entries[j]);
            }
            assert forall|i: int, j: int| 0 <= i < j < all.len() implies text::lex_le(
                #[trigger] all[i].0,
                #[trigger] all[j].0,
            ) by {
                assert(all[i] == part[i]);
                if j < part.len() {
                    assert(all[j] == part[j]);
                } else {
                    assert(part.contains(part[i]));
                    if part[i] == entry {
                        text::lex_le_total(last.0, entry.0);
                    } else {
                        assert(init.contains(part[i]));
                        let k = choose|k: int| 0 <= k < init.len() && init[k] == part[i];
                        assert(entries[k] == part[i]);
                        assert(text::lex_le(entries[k].0, entries[entries.len() - 1].0));
                    }
                }
            }
        }
        if keys_distinct(entries) && forall|i: int|
            0 <= i < entries.len() ==> #[trigger] entries[i].0 != entry.0 {
            assert forall|i: int, j: int| 0 <= i < j < init.len() implies #[trigger] init[i].0
                != #[trigger] init[j].0 by {
                assert(init[i] == entries[i] && init[j] == entries[j]);
            }
            assert forall|i: int| 0 <= i < init.len() implies #[trigger] init[i].0 != entry.0 by {
                assert(init[i] == entries[i]);
            }
            assert forall|i: int, j: int| 0 <= i < j < all.len() implies #[trigger] all[i].0
                != #[trigger] all[j].0 by {
                assert(all[i] == part[i]);
                if j < part.len() {
                    assert(all[j] == part[j]);
                } else {
                    assert(part.contains(part[i]));
                    assert(entries[entries.len() - 1].0 != entry.0);
                    if part[i] != entry {
                        assert(init.contains(part[i]));
                        let k = choose|k: int| 0 <= k < init.len() && init[k] == part[i];
                        assert(entries[k] == part[i]);
                        assert(entries[k].0 != entries[entries.len() - 1].0);
                    }
                }
            }
        }
    }
}

/// Sorting keeps the entries and puts their keys in ascending order.
pub proof fn in_order_sorts(entries: Seq<Entry>)
    ensures
        in_order(entries).len() == entries.len(),
        forall|e: Entry|
            #![trigger in_order(entries).contains(e)]
            #![trigger entries.contains(e)]
            in_order(entries).contains(e) <==> entries.contains(e),
        keys_ascend(in_order(entries)),
        keys_distinct(entries) ==> keys_distinct(in_order(entries)),
    decreases entries.len(),
{
    if entries.len() > 0 {
        let init = entries.drop_last();
        let last = entries.last();
        let part = in_order(init);
        in_order_sorts(init);
        put_in_order_keeps(part, last);
        assert(entries == init.push(last));
        assert forall|e: Entry|
            #![trigger in_order(entries).contains(e)]
            #![trigger entries.contains(e)]
            in_order(entries).contains(e) <==> entries.contains(e) by {
            vstd::seq_lib::lemma_seq_contains_after_push(init, last, e);
            assert(part.contains(e) <==> init.contains(e));
        }
        if keys_distinct(entries) {
            assert forall|i: int, j: int| 0 <= i < j < init.len() implies #[trigger] init[i].0
                != #[trigger] init[j].0 by {
                assert(init[i] == entries[i] && init[j] == entries[j]);
            }
            assert forall|i: int| 0 <= i < part.len() implies #[trigger] part[i].0 != last.0 by {
                assert(part.contains(part[i]));
                assert(init.contains(part[i]));
                let k = choose|k: int| 0 <= k < init.len() && init[k] == part[i];
                assert(entries[k] == part[i]);
                assert(entries[k].0 != entries[entries.len() - 1].0);
            }
        }
    }
}

proof fn sorted_lists_of_one_set_agree(a: Seq<Entry>, b: Seq<Entry>)
    requires
        a.len() == b.len(),
        keys_ascend(a),
        keys_ascend(b),
        keys_distinct(a),
        keys_distinct(b),
        forall|e: Entry| #[trigger] a.contains(e) ==> b.contains(e),
    ensures
        a == b,
    decreases a.len(),
{
    if a.len() > 0 {
        let n = a.len() - 1;
        let x = a.last();
        let y = b.last();
        assert(a.contains(x));
        let k = choose|k: int| 0 <= k < b.len() && b[k] == x;
        if k != n {
            // Some entry of `a` other than the last is the last of `b`, or `a`
            // without its last entry is too long for what `b` has left.
            assert(text::lex_le(b[k].0, b[n].0));
            assert(b[k].0 != b[n].0);
            assert forall|i: int| 0 <= i < a.len() implies #[trigger] a[i] != y by {
                if a[i] == y {
                    if i < n {
                        assert(text::lex_le(a[i].0, a[n].0));
                    }
                    text::lex_le_antisymmetric(x.0, y.0);
                }
            }
            let short = b.drop_last();
            assert forall|e: Entry| #[trigger] a.contains(e) implies short.contains(e) by {
                let i = choose|i: int| 0 <= i < a.len() && a[i] == e;
                assert(b.contains(e));
                let j = choose|j: int| 0 <= j < b.len() && b[j] == e;
                assert(j != n);
                assert(short[j] == e);
            }
            distinct_entries_need_room(a, short);
        }
        let a1 = a.drop_last();
        let b1 = b.drop_last();
        assert forall|i: int, j: int| 0 <= i < j < a1.len() implies #[trigger] a1[i].0
            != #[trigger] a1[j].0 && text::lex_le(a1[i].0, a1[j].0) by {
            assert(a1[i] == a[i] && a1[j] == a[j]);
        }
        assert forall|i: int, j: int| 0 <= i < j < b1.len() implies #[trigger] b1[i].0
            != #[trigger] b1[j].0 && text::lex_le(b1[i].0, b1[j].0) by {
            assert(b1[i] == b[i] && b1[j] == b[j]);
        }
        assert forall|e: Entry| #[trigger] a1.contains(e) implies b1.contains(e) by {
            let i = choose|i: int| 0 <= i < a1.len() && a1[i] == e;
            assert(a[i] == e);
            assert(a.contains(e));
            let j = choose|j: int| 0 <= j < b.len() && b[j] == e;
            assert(a[i].0 != a[n].0);
            assert(j != n);
            assert(b1[j] == e);
        }
        sorted_lists_of_one_set_agree(a1, b1);
        assert(a == a1.push(x) && b == b1.push(y));
    } else {
        assert(a =~= b);
    }
}

proof fn distinct_entries_need_room(a: Seq<Entry>, b: Seq<Entry>)
    requires
        keys_distinct(a),
        forall|e: Entry| #[trigger] a.contains(e) ==> b.contains(e),
    ensures
        a.len() <= b.len(),
    decreases a.len(),
{
    if a.len() > 0 {
        let x = a.last();
        assert(a.contains(x));
        let k = choose|k: int| 0 <= k < b.len() && b[k] == x;
        let a1 = a.drop_last();
        let b1 = b.remove(k);
        assert forall|i: int, j: int| 0 <= i < j < a1.len() implies #[trigger] a1[i].0
            != #[trigger] a1[j].0 by {
            assert(a1[i] == a[i] && a1[j] == a[j]);
        }
        assert forall|e: Entry| #[trigger] a1.contains(e) implies b1.contains(e) by {
            let i = choose|i: int| 0 <= i < a1.len() && a1[i] == e;
            assert(a[i] == e);
            assert(a.contains(e));
            let j = choose|j: int| 0 <= j < b.len() && b[j] == e;
            assert(a[i].0 != a[a.len() - 1].0);
            assert(j != k);
            if j < k {
                assert(b1[j] == e);
            } else {
                assert(b1[j - 1] == e);
            }
        }
        distinct_entries_need_room(a1, b1);
    }
}

/// Two values that differ only in the order in which objects list their keys
/// have the same canonical form, and so the same canonical text.
pub proof fn canonical_form_ignores_key_order(a: JsonView, b: JsonView)
    requires
        a.well_formed(),
        b.well_formed(),
        a.same_but_for_order(b),
    ensures
        a.canonical() == b.canonical(),
    decreases a,
{
    match (a, b) {
        (JsonView::Array(x), JsonView::Array(y)) => {
            assert forall|i: int| 0 <= i < x.len() implies (#[trigger] x[i]).canonical()
                == y[i].canonical() by {
                assert(x[i].same_but_for_order(y[i]));
                canonical_form_ignores_key_order(x[i], y[i]);
            }
            canonical_items_pointwise(x);
            canonical_items_pointwise(y);
            assert(canonical_items(x) =~= canonical_items(y));
        },
        (JsonView::Object(x), JsonView::Object(y)) => {
            let p = canonical_entries(x);
            let q = canonical_entries(y);
            canonical_entries_pointwise(x);
            canonical_entries_pointwise(y);
            assert forall|i: int, j: int| 0 <= i < j < p.len() implies #[trigger] p[i].0
                != #[trigger] p[j].0 by {
                assert(x[i].0 != x[j].0);
            }
            assert forall|i: int, j: int| 0 <= i < j < q.len() implies #[trigger] q[i].0
                != #[trigger] q[j].0 by {
                assert(y[i].0 != y[j].0);
            }
            assert forall|e: Entry| #[trigger] p.contains(e) implies q.contains(e) by {
                let i = choose|i: int| 0 <= i < p.len() && p[i] == e;
                assert(x[i].1.well_formed());
                let j = choose|j: int|
                    0 <= j < y.len() && (#[trigger] x[i]).0 == (#[trigger] y[j]).0
                        && x[i].1.same_but_for_order(y[j].1);
                assert(y[j].1.well_formed());
                canonical_form_ignores_key_order(x[i].1, y[j].1);
                assert(q[j] == e);
            }
            in_order_sorts(p);
            in_order_sorts(q);
            assert forall|e: Entry| #[trigger] in_order(p).contains(e) implies in_order(
                q,
            ).contains(e) by {
                assert(p.contains(e));
                assert(q.contains(e));
            }
            sorted_lists_of_one_set_agree(in_order(p), in_order(q));
        },
        _ => {},
    }
}

/// Two values have the same canonical form only when they differ in nothing but the
/// order in which objects list their keys.
pub proof fn one_canonical_form_means_one_value(a: JsonView, b: JsonView)
    requires
        a.well_formed(),
        b.well_formed(),
    ensures
        a.canonical() == b.canonical() <==> a.same_but_for_order(b),
    decreases a,
{
    if a.same_but_for_order(b) {
        canonical_form_ignores_key_order(a, b);
    }
    if a.canonical() == b.canonical() {
        match (a, b) {
            (JsonView::Array(x), JsonView::Array(y)) => {
                canonical_items_pointwise(x);
                canonical_items_pointwise(y);
                assert(x.len() == y.len());
                assert forall|i: int| 0 <= i < x.len() implies (
                #[trigger] x[i]).same_but_for_order(y[i]) by {
                    assert(canonical_items(x)[i] == canonical_items(y)[i]);
                    one_canonical_form_means_one_value(x[i], y[i]);
                }
            },
            (JsonView::Object(x), JsonView::Object(y)) => {
                let p = canonical_entries(x);
                let q = canonical_entries(y);
                canonical_entries_pointwise(x);
                canonical_entries_pointwise(y);
                in_order_sorts(p);
                in_order_sorts(q);
                assert forall|i: int| 0 <= i < x.len() implies exists|j: int|
                    0 <= j < y.len() && (#[trigger] x[i]).0 == (#[trigger] y[j]).0
                        && x[i].1.same_but_for_order(y[j].1) by {
                    assert(p.contains(p[i]));
                    assert(in_order(q).contains(p[i]));
                    assert(q.contains(p[i]));
                    let j = choose|j: int| 0 <= j < q.len() && q[j] == p[i];
                    assert(x[i].1.well_formed() && y[j].1.well_formed());
                    one_canonical_form_means_one_value(x[i].1, y[j].1);
                    assert(x[i].0 == y[j].0);
                }
            },
            _ => {},
        }
    }
}

/// Whether every object, at any depth, lists its keys in ascending order.
pub open spec fn ascending_throughout(v: JsonView) -> bool
    decreases v,
{
    match v {
        JsonView::Array(items) => forall|i: int|
            0 <= i < items.len() ==> ascending_throughout(#[trigger] items[i]),
        JsonView::Object(entries) => keys_ascend(entries) && forall|i: int|
            0 <= i < entries.len() ==> ascending_throughout((#[trigger] entries[i]).1),
        _ => true,
    }
}

/// The canonical form is the value itself with the keys of every object, at any
/// depth, in ascending order.
pub proof fn canonical_form_is_the_value_in_order(v: JsonView)
    requires
        v.well_formed(),
    ensures
        v.same_but_for_order(v.canonical()),
        v.canonical().well_formed(),
        ascending_throughout(v.canonical()),
{
    canonical_form_is_ordered(v);
    canonical_form_is_stable(v);
    one_canonical_form_means_one_value(v, v.canonical());
}

proof fn canonical_form_is_ordered(v: JsonView)
    requires
        v.well_formed(),
    ensures
        v.canonical().well_formed(),
        ascending_throughout(v.canonical()),
    decreases v,
{
    match v {
        JsonView::Array(items) => {
            let c = canonical_items(items);
            canonical_items_pointwise(items);
            assert forall|i: int| 0 <= i < c.len() implies (#[trigger] c[i]).well_formed()
                && ascending_throughout(c[i]) by {
                canonical_form_is_ordered(items[i]);
            }
        },
        JsonView::Object(entries) => {
            let p = canonical_entries(entries);
            let c = in_order(p);
            canonical_entries_pointwise(entries);
            in_order_sorts(p);
            assert forall|i: int, j: int| 0 <= i < j < p.len() implies #[trigger] p[i].0
                != #[trigger] p[j].0 by {
                assert(entries[i].0 != entries[j].0);
            }
            assert forall|i: int| 0 <= i < c.len() implies (#[trigger] c[i]).1.well_formed()
                && ascending_throughout(c[i].1) by {
                assert(c.contains(c[i]));
                assert(p.contains(c[i]));
                let k = choose|k: int| 0 <= k < p.len() && p[k] == c[i];
                canonical_form_is_ordered(entries[k].1);
            }
        },
        _ => {},
    }
}

proof fn ascending_entries_stay(entries: Seq<Entry>)
    requires
        keys_ascend(entries),
    ensures
        in_order(entries) == entries,
    decreases entries.len(),
{
    if entries.len() > 0 {
        let init = entries.drop_last();
        assert forall|i: int, j: int| 0 <= i < j < init.len() implies text::lex_le(
            #[trigger] init[i].0,
            #[trigger] init[j].0,
        ) by {
            assert(init[i] == entries[i] && init[j] == entries[j]);
        }
        ascending_entries_stay(init);
        if init.len() > 0 {
            assert(text::lex_le(entries[init.len() - 1].0, entries[init.len() as int].0));
        }
        assert(entries == init.push(entries.last()));
    }
}

/// The canonical form is its own canonical form.
pub proof fn canonical_form_is_stable(v: JsonView)
    ensures
        v.canonical().canonical() == v.canonical(),
    decreases v,
{
    match v {
        JsonView::Array(items) => {
            let c = canonical_items(items);
            canonical_items_pointwise(items);
            canonical_items_pointwise(c);
            assert forall|i: int| 0 <= i < items.len() implies (#[trigger] c[i]).canonical()
                == c[i] by {
                canonical_form_is_stable(items[i]);
            }
            assert(canonical_items(c) =~= c);
        },
        JsonView::Object(entries) => {
            let p = canonical_entries(entries);
            let c = in_order(p);
            canonical_entries_pointwise(entries);
            canonical_entries_pointwise(c);
            in_order_sorts(p);
            assert forall|i: int| 0 <= i < c.len() implies (#[trigger] c[i]).1.canonical()
                == c[i].1 by {
                assert(c.contains(c[i]));
                assert(p.contains(c[i]));
                let k = choose|k: int| 0 <= k < p.len() && p[k] == c[i];
                canonical_form_is_stable(entries[k].1);
            }
            assert(canonical_entries(c) =~= c);
            ascending_entries_stay(c);
        },
        _ => {},
    }
}

/// A lookup finds the first entry with the key, and nothing where no entry has it or the
/// value is no object.
pub proof fn lookups_find_the_first_entry(
    value: Json,
    entries: Vec<(String, Json)>,
    key: &str,
    i: int,
    r: Option<&Json>,
)
    requires
        call_ensures(Json::get, (&value, key), r),
    ensures
        value == Json::Object(entries) && 0 <= i < entries@.len() && entries@[i].0@ == key@ && (
        forall|j: int| 0 <= j < i ==> (#[trigger] entries@[j]).0@ != key@) ==> (r matches Some(v)
            && v@ == entries@[i].1@),
        value == Json::Object(entries) && (forall|j: int|
            0 <= j < entries@.len() ==> (#[trigger] entries@[j]).0@ != key@) ==> r is None,
        !(value is Object) ==> r is None,
{
    if value == Json::Object(entries) {
        let all = entries_view(entries@);
        view_of_object(entries);
        first_listed(all, key@, i);
        if forall|j: int| 0 <= j < entries@.len() ==> (#[trigger] entries@[j]).0@ != key@ {
            assert forall|j: int| 0 <= j < all.len() implies (#[trigger] all[j]).0 != key@ by {
                assert(entries@[j].0@ != key@);
            }
        }
        if 0 <= i < entries@.len() && entries@[i].0@ == key@ && (forall|j: int|
            0 <= j < i ==> (#[trigger] entries@[j]).0@ != key@) {
            assert forall|j: int| 0 <= j < i implies (#[trigger] all[j]).0 != key@ by {
                assert(entries@[j].0@ != key@);
            }
        }
    }
}

proof fn first_listed(entries: Seq<Entry>, key: Seq<char>, i: int)
    ensures
        0 <= i < entries.len() && entries[i].0 == key && (forall|j: int|
            0 <= j < i ==> (#[trigger] entries[j]).0 != key) ==> value_under(entries, key) == Some(
            entries[i].1,
        ),
        (forall|j: int| 0 <= j < entries.len() ==> (#[trigger] entries[j]).0 != key) ==> value_under(
            entries,
            key,
        ) is None,
    decreases entries.len(),
{
    if entries.len() > 0 && entries[0].0 != key {
        let rest = entries.drop_first();
        first_listed(rest, key, i - 1);
        assert forall|j: int| 0 <= j < rest.len() implies (#[trigger] rest[j]) == entries[j + 1] by {}
        if 0 <= i < entries.len() && entries[i].0 == key && (forall|j: int|
            0 <= j < i ==> (#[trigger] entries[j]).0 != key) {
            assert forall|j: int| 0 <= j < i - 1 implies (#[trigger] rest[j]).0 != key by {
                assert(entries[j + 1].0 != key);
            }
        }
        if forall|j: int| 0 <= j < entries.len() ==> (#[trigger] entries[j]).0 != key {
            assert forall|j: int| 0 <= j < rest.len() implies (#[trigger] rest[j]).0 != key by {
                assert(entries[j + 1].0 != key);
            }
        }
    }
}

/// Where every key occurs once, each entry is found under its key.
pub proof fn every_entry_is_found_under_its_key(entries: Seq<Entry>, i: int)
    requires
        keys_distinct(entries),
        0 <= i < entries.len(),
    ensures
        value_under(entries, entries[i].0) == Some(entries[i].1),
{
    assert forall|j: int| 0 <= j < i implies (#[trigger] entries[j]).0 != entries[i].0 by {
        assert(entries[j].0 != entries[i].0);
    }
    first_listed(entries, entries[i].0, i);
}

/// The text of a list is its items' texts between brackets, with commas between them, and
/// the text of an object its entries' likewise, each a quoted key, a colon and a value.
pub proof fn texts_are_put_together(
    items: Seq<JsonView>,
    item: JsonView,
    entries: Seq<Entry>,
    entry: Entry,
)
    ensures
        JsonView::Array(seq![]).text() == seq!['[', ']'],
        JsonView::Array(seq![item]).text() == seq!['['] + item.text() + seq![']'],
        items.len() > 0 ==> JsonView::Array(items.push(item)).text() == JsonView::Array(
            items,
        ).text().drop_last() + seq![','] + item.text() + seq![']'],
        JsonView::Object(seq![]).text() == seq!['{', '}'],
        JsonView::Object(seq![entry]).text() == seq!['{'] + JsonView::Str(entry.0).text()
            + seq![':'] + entry.1.text() + seq!['}'],
        entries.len() > 0 ==> JsonView::Object(entries.push(entry)).text() == JsonView::Object(
            entries,
        ).text().drop_last() + seq![','] + JsonView::Str(entry.0).text() + seq![':']
            + entry.1.text() + seq!['}'],
{
    reveal_with_fuel(item_texts, 2);
    reveal_with_fuel(entry_texts, 2);
    reveal_with_fuel(comma_joined, 2);
    assert(JsonView::Array(seq![]).text() =~= seq!['[', ']']);
    assert(JsonView::Object(seq![]).text() =~= seq!['{', '}']);
    assert(seq![item].drop_last() =~= Seq::<JsonView>::empty());
    assert(seq![entry].drop_last() =~= Seq::<Entry>::empty());
    assert(item_texts(seq![item]) =~= seq![item.text()]);
    let e = json_quoted(entry.0) + seq![':'] + entry.1.text();
    assert(entry_texts(seq![entry]) =~= seq![e]);
    assert(JsonView::Array(seq![item]).text() =~= seq!['['] + item.text() + seq![']']);
    assert(JsonView::Object(seq![entry]).text() =~= seq!['{'] + JsonView::Str(entry.0).text()
        + seq![':'] + entry.1.text() + seq!['}']);
    assert(items.push(item).drop_last() =~= items);
    assert(entries.push(entry).drop_last() =~= entries);
    if items.len() > 0 {
        let p = item_texts(items.push(item));
        assert(p.drop_last() =~= item_texts(items));
        assert(p.len() == item_texts(items).len() + 1);
        assert(item_texts(items).len() > 0);
        assert(JsonView::Array(items.push(item)).text() =~= JsonView::Array(
            items,
        ).text().drop_last() + seq![','] + item.text() + seq![']']);
    }
    if entries.len() > 0 {
        let p = entry_texts(entries.push(entry));
        assert(p.drop_last() =~= entry_texts(entries));
        assert(entry_texts(entries).len() > 0);
        assert(JsonView::Object(entries.push(entry)).text() =~= JsonView::Object(
            entries,
        ).text().drop_last() + seq![','] + JsonView::Str(entry.0).text() + seq![':']
            + entry.1.text() + seq!['}']);
    }
}

/// What is written of a value is the text of the value, a string is read as itself, and
/// equal values are those that differ only in the order of keys.
pub proof fn values_are_read_and_compared_as_they_are(
    a: Json,
    b: Json,
    text: String,
    read: Option<&str>,
    null: bool,
    s: Seq<char>,
    equal: bool,
)
    requires
        call_ensures(Json::to_text, (&a,), text),
        call_ensures(Json::as_str, (&a,), read),
        call_ensures(Json::is_null, (&a,), null),
        call_ensures(Json::eq, (&a, &b), equal),
        a@.well_formed(),
        b@.well_formed(),
    ensures
        text@ == a@.text(),
        a@ == JsonView::Str(s) ==> (read matches Some(r) && r@ == s),
        !(a@ is Str) ==> read is None,
        null <==> a@ is Null,
        equal <==> a@.same_but_for_order(b@),
{
    one_canonical_form_means_one_value(a@, b@);
}

} // verus!
