//! A small table of values under fixed names.

use vstd::prelude::*;

use crate::text;

verus! {

/// The value under `key` in a list of rows.
pub open spec fn value_at<T>(rows: Seq<(&'static str, T)>, key: Seq<char>) -> Option<T>
    decreases rows.len(),
{
    if rows.len() == 0 {
        None
    } else if rows[0].0@ == key {
        Some(rows[0].1)
    } else {
        value_at(rows.drop_first(), key)
    }
}

/// Whether no two rows have the same key.
pub open spec fn distinct_keys<T>(rows: Seq<(&'static str, T)>) -> bool {
    forall|i: int, j: int|
        0 <= i < j < rows.len() ==> (#[trigger] rows[i]).0@ != (#[trigger] rows[j]).0@
}

/// Values under names, at most one under each.
pub struct Table<T> {
    rows: Vec<(&'static str, T)>,
}

impl<T> Table<T> {
    #[verifier::type_invariant]
    spec fn one_row_per_key(self) -> bool {
        distinct_keys(self.rows@)
    }

    /// The value under `key`.
    pub closed spec fn at(self, key: Seq<char>) -> Option<T> {
        value_at(self.rows@, key)
    }

    /// An empty table.
    pub fn new() -> (r: Self)
        ensures
            forall|key: Seq<char>| r.at(key) is None,
    {
        Table { rows: Vec::new() }
    }

    fn position(&self, key: &str) -> (r: Option<usize>)
        ensures
            match r {
                Some(i) => i < self.rows@.len() && self.rows@[i as int].0@ == key@ && self.at(key@)
                    == Some(self.rows@[i as int].1),
                None => self.at(key@) is None && forall|i: int|
                    0 <= i < self.rows@.len() ==> (#[trigger] self.rows@[i]).0@ != key@,
            },
    {
        let mut i: usize = 0;
        assert(self.rows@.skip(0) == self.rows@);
        while i < self.rows.len()
            invariant
                i <= self.rows@.len(),
                forall|j: int| 0 <= j < i ==> (#[trigger] self.rows@[j]).0@ != key@,
                value_at(self.rows@, key@) == value_at(self.rows@.skip(i as int), key@),
            decreases self.rows@.len() - i,
        {
            assert(self.rows@.skip(i as int)[0] == self.rows@[i as int]);
            if text::str_eq(self.rows[i].0, key) {
                return Some(i);
            }
            assert(self.rows@.skip(i as int).drop_first() == self.rows@.skip(i + 1));
            i = i + 1;
        }
        None
    }

    /// The value under `key`, if there is one.
    pub fn find(&self, key: &str) -> (r: Option<&T>)
        ensures
            match r {
                Some(v) => self.at(key@) == Some(*v),
                None => self.at(key@) is None,
            },
    {
        match self.position(key) {
            Some(i) => Some(&self.rows[i].1),
            None => None,
        }
    }

    /// All keys, each once.
    pub fn keys(&self) -> (r: Vec<&'static str>)
        ensures
            forall|key: Seq<char>|
                #[trigger] self.at(key) is Some <==> exists|i: int|
                    0 <= i < r@.len() && (#[trigger] r@[i])@ == key,
            forall|i: int, j: int|
                0 <= i < j < r@.len() ==> (#[trigger] r@[i])@ != (#[trigger] r@[j])@,
    {
        proof {
            use_type_invariant(self);
        }
        let mut out: Vec<&'static str> = Vec::new();
        let mut i: usize = 0;
        while i < self.rows.len()
            invariant
                i <= self.rows@.len(),
                out@.len() == i,
                forall|j: int| 0 <= j < i ==> #[trigger] out@[j] == self.rows@[j].0,
            decreases self.rows@.len() - i,
        {
            out.push(self.rows[i].0);
            i = i + 1;
        }
        proof {
            assert forall|key: Seq<char>| #[trigger] self.at(key) is Some <==> exists|i: int|
                0 <= i < out@.len() && (#[trigger] out@[i])@ == key by {
                found_iff_listed(self.rows@, key);
                if self.at(key) is Some {
                    let i = choose|i: int|
                        0 <= i < self.rows@.len() && (#[trigger] self.rows@[i]).0@ == key;
                    assert(out@[i]@ == key);
                }
                if exists|i: int| 0 <= i < out@.len() && (#[trigger] out@[i])@ == key {
                    let i = choose|i: int| 0 <= i < out@.len() && (#[trigger] out@[i])@ == key;
                    assert(self.rows@[i].0@ == key);
                }
            }
            assert forall|i: int, j: int| 0 <= i < j < out@.len() implies (#[trigger] out@[i])@ != (
            #[trigger] out@[j])@ by {
                assert(self.rows@[i].0@ != self.rows@[j].0@);
            }
        }
        out
    }
}

/// Puts `value` under `key` and hands back what was there before.
pub fn put<T>(value: T, key: &'static str, table: &mut Table<T>) -> (r: Option<T>)
    ensures
        r == old(table).at(key@),
        forall|k: Seq<char>|
            #[trigger] final(table).at(k) == if k == key@ {
                Some(value)
            } else {
                old(table).at(k)
            },
{
    proof {
        use_type_invariant(&*table);
    }
    let ghost before: Seq<(&'static str, T)> = table.rows@;
    let at = table.position(key);
    let mut rows: Vec<(&'static str, T)> = Vec::new();
    std::mem::swap(&mut rows, &mut table.rows);
    let ghost row: (&'static str, T) = (key, value);
    let replaced = match at {
        Some(i) => {
            let old_row = rows.remove(i);
            assert(old_row == before[i as int]);
            rows.insert(i, (key, value));
            proof {
                assert(rows@ =~= before.update(i as int, row));
                replacing_is_local(before, i as int, row, key@);
                assert forall|k: Seq<char>|
                    #[trigger] value_at(rows@, k) == if k == key@ {
                        Some(value)
                    } else {
                        value_at(before, k)
                    } by {
                    replacing_is_local(before, i as int, row, k);
                }
            }
            Some(old_row.1)
        },
        None => {
            rows.push((key, value));
            proof {
                assert forall|k: Seq<char>|
                    #[trigger] value_at(rows@, k) == if k == key@ {
                        Some(value)
                    } else {
                        value_at(before, k)
                    } by {
                    adding_is_local(before, row, k);
                }
            }
            None
        },
    };
    table.rows = rows;
    replaced
}

proof fn found_iff_listed<T>(rows: Seq<(&'static str, T)>, key: Seq<char>)
    ensures
        value_at(rows, key) is Some <==> exists|i: int|
            0 <= i < rows.len() && (#[trigger] rows[i]).0@ == key,
    decreases rows.len(),
{
    if rows.len() > 0 {
        let rest = rows.drop_first();
        found_iff_listed(rest, key);
        if rows[0].0@ != key {
            if exists|i: int| 0 <= i < rows.len() && (#[trigger] rows[i]).0@ == key {
                let i = choose|i: int| 0 <= i < rows.len() && (#[trigger] rows[i]).0@ == key;
                assert(rest[i - 1].0@ == key);
            }
            if exists|i: int| 0 <= i < rest.len() && (#[trigger] rest[i]).0@ == key {
                let i = choose|i: int| 0 <= i < rest.len() && (#[trigger] rest[i]).0@ == key;
                assert(rows[i + 1].0@ == key);
            }
        }
    }
}

proof fn adding_is_local<T>(rows: Seq<(&'static str, T)>, row: (&'static str, T), key: Seq<char>)
    requires
        forall|i: int| 0 <= i < rows.len() ==> (#[trigger] rows[i]).0@ != row.0@,
    ensures
        value_at(rows.push(row), key) == if key == row.0@ {
            Some(row.1)
        } else {
            value_at(rows, key)
        },
    decreases rows.len(),
{
    let longer = rows.push(row);
    if rows.len() == 0 {
        assert(longer.drop_first().len() == 0);
    } else {
        let rest = rows.drop_first();
        assert(longer.drop_first() =~= rest.push(row));
        assert(longer[0] == rows[0]);
        assert forall|i: int| 0 <= i < rest.len() implies (#[trigger] rest[i]).0@ != row.0@ by {
            assert(rest[i] == rows[i + 1]);
        }
        adding_is_local(rest, row, key);
    }
}

proof fn replacing_is_local<T>(
    rows: Seq<(&'static str, T)>,
    at: int,
    row: (&'static str, T),
    key: Seq<char>,
)
    requires
        distinct_keys(rows),
        0 <= at < rows.len(),
        rows[at].0@ == row.0@,
    ensures
        value_at(rows.update(at, row), key) == if key == row.0@ {
            Some(row.1)
        } else {
            value_at(rows, key)
        },
        distinct_keys(rows.update(at, row)),
    decreases rows.len(),
{
    let changed = rows.update(at, row);
    let rest = rows.drop_first();
    if at == 0 {
        assert(changed.drop_first() =~= rest);
    } else {
        assert(changed.drop_first() =~= rest.update(at - 1, row));
        assert(rows[0].0@ != rows[at].0@);
        assert forall|i: int, j: int| 0 <= i < j < rest.len() implies (#[trigger] rest[i]).0@ != (
        #[trigger] rest[j]).0@ by {
            assert(rest[i] == rows[i + 1] && rest[j] == rows[j + 1]);
        }
        replacing_is_local(rest, at - 1, row, key);
    }
    assert forall|i: int, j: int| 0 <= i < j < changed.len() implies (#[trigger] changed[i]).0@ != (
    #[trigger] changed[j]).0@ by {
        assert(rows[i].0@ != rows[j].0@);
    }
}

/// A value that was put under a name is found there, in place of any that was there
/// before, which is handed back; what is under other names stays.
pub proof fn the_last_value_put_is_found<T>(
    table: &mut Table<T>,
    before: Table<T>,
    after: Table<T>,
    value: T,
    key: &'static str,
    replaced: Option<T>,
    name: &str,
    found: Option<&T>,
    earlier: Option<&T>,
)
    requires
        before == *old(table),
        after == *final(table),
        call_ensures(put::<T>, (value, key, table), replaced),
        call_ensures(Table::<T>::find, (&after, name), found),
        call_ensures(Table::<T>::find, (&before, name), earlier),
    ensures
        name@ == key@ ==> found is Some && *found->0 == value,
        name@ == key@ ==> (replaced is Some <==> earlier is Some),
        name@ == key@ && earlier is Some ==> replaced->0 == *earlier->0,
        name@ != key@ ==> (found is Some <==> earlier is Some),
        name@ != key@ && found is Some ==> *found->0 == *earlier->0,
{
    assert(after.at(name@) == if name@ == key@ {
        Some(value)
    } else {
        before.at(name@)
    });
}

/// An empty table holds nothing.
pub proof fn an_empty_table_holds_nothing<T>(empty: Table<T>, name: &str, nothing: Option<&T>)
    requires
        call_ensures(Table::<T>::new, (), empty),
        call_ensures(Table::<T>::find, (&empty, name), nothing),
    ensures
        nothing is None,
{
    assert(empty.at(name@) is None);
}

} // verus!
