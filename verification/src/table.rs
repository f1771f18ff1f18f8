//! Tables of named values, as the script side hands them over and takes them
//! back.

use vstd::prelude::*;

verus! {

/// A key or a value of a script table.
#[derive(Debug)]
pub enum TableValue {
    /// A string.
    Text(String),
    /// A number, as the script side prints it.
    Number(String),
    /// A boolean.
    Flag(bool),
    /// Anything else.
    Other,
}

/// What a [`TableValue`] holds.
pub enum TableValueView {
    /// A string.
    Text(Seq<char>),
    /// A number, as the script side prints it.
    Number(Seq<char>),
    /// A boolean.
    Flag(bool),
    /// Anything else.
    Other,
}

impl View for TableValue {
    type V = TableValueView;

    open spec fn view(&self) -> TableValueView {
        match self {
            TableValue::Text(text) => TableValueView::Text(text@),
            TableValue::Number(text) => TableValueView::Number(text@),
            TableValue::Flag(flag) => TableValueView::Flag(*flag),
            TableValue::Other => TableValueView::Other,
        }
    }
}

/// The pairs of a table, each by its view.
pub open spec fn pairs_view<V: View>(table: Seq<(String, V)>) -> Seq<(Seq<char>, V::V)> {
    table.map_values(|pair: (String, V)| (pair.0@, pair.1@))
}

/// The raw entries of a script table, each by its view.
pub open spec fn entries_view(entries: Seq<(TableValue, TableValue)>) -> Seq<
    (TableValueView, TableValueView),
> {
    entries.map_values(|entry: (TableValue, TableValue)| (entry.0@, entry.1@))
}

/// Whether a table has a value under `key`.
pub open spec fn has_key<V>(table: Seq<(Seq<char>, V)>, key: Seq<char>) -> bool {
    exists|i: int| 0 <= i < table.len() && (#[trigger] table[i]).0 == key
}

/// No two pairs of a table have the same key.
pub open spec fn unique_keys<V>(table: Seq<(Seq<char>, V)>) -> bool {
    forall|i: int, j: int|
        0 <= i < j < table.len() ==> (#[trigger] table[i]).0 != (#[trigger] table[j]).0
}

/// The value of a table under `key`.
pub open spec fn value_under<V>(table: Seq<(Seq<char>, V)>, key: Seq<char>) -> V {
    table[choose|i: int| 0 <= i < table.len() && (#[trigger] table[i]).0 == key].1
}

/// A table as a map from keys to values.
pub open spec fn table_map<V>(table: Seq<(Seq<char>, V)>) -> Map<Seq<char>, V> {
    Map::new(|key: Seq<char>| has_key(table, key), |key: Seq<char>| value_under(table, key))
}

/// A table after `value` was put under `key`: in the place of the value that
/// was there, or else at the end.
pub open spec fn upserted<V>(
    table: Seq<(Seq<char>, V)>,
    key: Seq<char>,
    value: V,
) -> Seq<(Seq<char>, V)> {
    if has_key(table, key) {
        Seq::new(
            table.len(),
            |i: int|
                if table[i].0 == key {
                    (key, value)
                } else {
                    table[i]
                },
        )
    } else {
        table.push((key, value))
    }
}

/// The key that an entry has in the string table, if it has one: only strings
/// are keys.
pub open spec fn key_text(key: TableValueView) -> Option<Seq<char>> {
    match key {
        TableValueView::Text(text) => Some(text),
        _ => None,
    }
}

/// The text of a value in the string table, if it has one: strings, numbers
/// and booleans do.
pub open spec fn value_text(value: TableValueView) -> Option<Seq<char>> {
    match value {
        TableValueView::Text(text) => Some(text),
        TableValueView::Number(text) => Some(text),
        TableValueView::Flag(flag) => Some(
            if flag {
                "true"@
            } else {
                "false"@
            },
        ),
        TableValueView::Other => None,
    }
}

/// The string table that the entries of a script table make, read in order.
pub open spec fn string_table(entries: Seq<(TableValueView, TableValueView)>) -> Seq<
    (Seq<char>, Seq<char>),
>
    decreases entries.len(),
{
    if entries.len() == 0 {
        Seq::empty()
    } else {
        let table = string_table(entries.drop_last());
        match (key_text(entries.last().0), value_text(entries.last().1)) {
            (Some(key), Some(value)) => upserted(table, key, value),
            _ => table,
        }
    }
}

/// The same table as a map: each entry that has a key and a text is inserted.
pub open spec fn string_map(entries: Seq<(TableValueView, TableValueView)>) -> Map<
    Seq<char>,
    Seq<char>,
>
    decreases entries.len(),
{
    if entries.len() == 0 {
        Map::empty()
    } else {
        let map = string_map(entries.drop_last());
        match (key_text(entries.last().0), value_text(entries.last().1)) {
            (Some(key), Some(value)) => map.insert(key, value),
            _ => map,
        }
    }
}

/// Putting a value under a key keeps the keys apart, and is an insertion into
/// the map of the table.
pub proof fn law_upsert_is_insert<V>(table: Seq<(Seq<char>, V)>, key: Seq<char>, value: V)
    requires
        unique_keys(table),
    ensures
        unique_keys(upserted(table, key, value)),
        table_map(upserted(table, key, value)) == table_map(table).insert(key, value),
{
    let after = upserted(table, key, value);
    if has_key(table, key) {
        assert(forall|i: int| 0 <= i < table.len() ==> (#[trigger] after[i]).0 == table[i].0);
    }
    assert(unique_keys(after));
    assert forall|other: Seq<char>| #[trigger]
        has_key(after, other) == (other == key || has_key(table, other)) by {
        if has_key(table, key) {
            if has_key(table, other) {
                let i = choose|i: int| 0 <= i < table.len() && (#[trigger] table[i]).0 == other;
                assert(after[i].0 == other);
            }
            let i = choose|i: int| 0 <= i < table.len() && (#[trigger] table[i]).0 == key;
            assert(after[i].0 == key);
            if has_key(after, other) {
                let j = choose|j: int| 0 <= j < after.len() && (#[trigger] after[j]).0 == other;
                assert(table[j].0 == other);
            }
        } else {
            assert(after[table.len() as int].0 == key);
            if has_key(table, other) {
                let i = choose|i: int| 0 <= i < table.len() && (#[trigger] table[i]).0 == other;
                assert(after[i].0 == other);
            }
            if has_key(after, other) {
                let j = choose|j: int| 0 <= j < after.len() && (#[trigger] after[j]).0 == other;
                if j < table.len() {
                    assert(table[j].0 == other);
                }
            }
        }
    }
    assert forall|other: Seq<char>| has_key(after, other) implies #[trigger] value_under(
        after,
        other,
    ) == (if other == key {
        value
    } else {
        value_under(table, other)
    }) by {
        let j = choose|j: int| 0 <= j < after.len() && (#[trigger] after[j]).0 == other;
        if other != key {
            assert(has_key(table, other));
            let i = choose|i: int| 0 <= i < table.len() && (#[trigger] table[i]).0 == other;
            assert(table[j].0 == other);
            assert(i == j);
        }
    }
    assert(table_map(after) =~= table_map(table).insert(key, value));
}

/// The string table of a script table has each key once, and holds what the
/// entries insert, the last one winning.
pub proof fn law_string_table_is_map(entries: Seq<(TableValueView, TableValueView)>)
    ensures
        unique_keys(string_table(entries)),
        table_map(string_table(entries)) == string_map(entries),
    decreases entries.len(),
{
    if entries.len() == 0 {
        assert(table_map(string_table(entries)) =~= string_map(entries));
    } else {
        law_string_table_is_map(entries.drop_last());
        match (key_text(entries.last().0), value_text(entries.last().1)) {
            (Some(key), Some(value)) => {
                law_upsert_is_insert(string_table(entries.drop_last()), key, value);
            },
            _ => {},
        }
    }
}

/// Puts `value` under `key`.
pub(crate) fn upsert<V: View>(table: &mut Vec<(String, V)>, key: String, value: V)
    requires
        unique_keys(pairs_view(old(table)@)),
    ensures
        pairs_view(final(table)@) == upserted(pairs_view(old(table)@), key@, value@),
        unique_keys(pairs_view(final(table)@)),
{
    proof {
        law_upsert_is_insert(pairs_view(table@), key@, value@);
    }
    let ghost before = pairs_view(table@);
    let mut i: usize = 0;
    while i < table.len()
        invariant
            i <= table@.len(),
            *table == *old(table),
            before == pairs_view(old(table)@),
            unique_keys(before),
            unique_keys(upserted(before, key@, value@)),
            forall|j: int| 0 <= j < i ==> (#[trigger] before[j]).0 != key@,
        decreases table@.len() - i,
    {
        if table[i].0 == key {
            assert(before[i as int].0 == key@);
            table.set(i, (key, value));
            proof {
                assert(has_key(before, key@));
                assert(pairs_view(table@) =~= upserted(before, key@, value@));
            }
            return;
        }
        i += 1;
    }
    table.push((key, value));
    proof {
        assert(pairs_view(table@) =~= upserted(before, key@, value@));
    }
}

/// The string table of a script table: what has a string key and a string,
/// number or boolean value; of two values under one key the last one.
pub fn parse_string_table(entries: &Vec<(TableValue, TableValue)>) -> (table: Vec<
    (String, String),
>)
    ensures
        pairs_view(table@) == string_table(entries_view(entries@)),
        unique_keys(pairs_view(table@)),
        table_map(pairs_view(table@)) == string_map(entries_view(entries@)),
{
    let ghost all = entries_view(entries@);
    let mut table: Vec<(String, String)> = Vec::new();
    let mut i: usize = 0;
    assert(pairs_view(table@) =~= string_table(all.take(0)));
    while i < entries.len()
        invariant
            i <= entries@.len(),
            all == entries_view(entries@),
            pairs_view(table@) == string_table(all.take(i as int)),
            unique_keys(pairs_view(table@)),
        decreases entries@.len() - i,
    {
        proof {
            assert(all.take(i + 1).drop_last() =~= all.take(i as int));
            assert(all.take(i + 1).last() == (entries@[i as int].0@, entries@[i as int].1@));
        }
        let key: Option<String> = match &entries[i].0 {
            TableValue::Text(text) => Some(text.clone()),
            _ => None,
        };
        let value: Option<String> = match &entries[i].1 {
            TableValue::Text(text) => Some(text.clone()),
            TableValue::Number(text) => Some(text.clone()),
            TableValue::Flag(flag) => Some(
                if *flag {
                    "true".to_string()
                } else {
                    "false".to_string()
                },
            ),
            TableValue::Other => None,
        };
        if let (Some(key), Some(value)) = (key, value) {
            upsert(&mut table, key, value);
        }
        i += 1;
    }
    proof {
        assert(all.take(all.len() as int) =~= all);
        law_string_table_is_map(all);
    }
    table
}

/// The text of a value that a string table can hold: strings and numbers as they
/// are written, booleans by their names.
proof fn lemma_value_text(value: TableValueView)
    ensures
        value matches TableValueView::Text(text) ==> value_text(value) == Some(text),
        value matches TableValueView::Number(text) ==> value_text(value) == Some(text),
        value == TableValueView::Flag(true) ==> value_text(value) == Some("true"@),
        value == TableValueView::Flag(false) ==> value_text(value) == Some("false"@),
        value is Other <==> value_text(value) is None,
{
}

/// Whether an entry of a script table is for this key and has this text: the key
/// is a string, and the value is the string, the number or the boolean that the
/// text writes.
pub open spec fn entry_says(
    entry: (TableValueView, TableValueView),
    key: Seq<char>,
    text: Seq<char>,
) -> bool {
    &&& entry.0 == TableValueView::Text(key)
    &&& {
        ||| entry.1 == TableValueView::Text(text)
        ||| entry.1 == TableValueView::Number(text)
        ||| entry.1 == TableValueView::Flag(true) && text == "true"@
        ||| entry.1 == TableValueView::Flag(false) && text == "false"@
    }
}

/// The last entry with a string key and a value that has a text is in the string
/// table, whatever comes before it and whatever else comes after it.
pub proof fn law_last_entry_is_kept(
    entries: Seq<(TableValueView, TableValueView)>,
    at: int,
    key: Seq<char>,
    text: Seq<char>,
)
    requires
        0 <= at < entries.len(),
        entry_says(entries[at], key, text),
        forall|j: int|
            at < j < entries.len() ==> (#[trigger] entries[j]).0 != TableValueView::Text(key)
                || entries[j].1 is Other,
    ensures
        exists|k: int|
            0 <= k < string_table(entries).len() && #[trigger] string_table(entries)[k] == (
                key,
                text,
            ),
    decreases entries.len(),
{
    let rest = entries.drop_last();
    let last = entries.last();
    let table = string_table(rest);
    lemma_value_text(last.1);
    if at == entries.len() - 1 {
        assert(string_table(entries) == upserted(table, key, text));
        if has_key(table, key) {
            let k = choose|k: int| 0 <= k < table.len() && (#[trigger] table[k]).0 == key;
            assert(string_table(entries)[k] == (key, text));
        } else {
            assert(string_table(entries)[table.len() as int] == (key, text));
        }
    } else {
        assert forall|j: int| at < j < rest.len() implies (#[trigger] rest[j]).0
            != TableValueView::Text(key) || rest[j].1 is Other by {
            assert(rest[j] == entries[j]);
        }
        law_last_entry_is_kept(rest, at, key, text);
        let k = choose|k: int| 0 <= k < table.len() && #[trigger] table[k] == (key, text);
        assert(entries[entries.len() - 1] == last);
        assert(string_table(entries)[k] == (key, text));
    }
}

/// Nothing else is in the string table: each of its pairs is what some entry says,
/// and no key comes twice.
pub proof fn law_table_is_made_of_entries(entries: Seq<(TableValueView, TableValueView)>, k: int)
    requires
        0 <= k < string_table(entries).len(),
    ensures
        exists|i: int|
            0 <= i < entries.len() && entry_says(
                #[trigger] entries[i],
                string_table(entries)[k].0,
                string_table(entries)[k].1,
            ),
        forall|j: int|
            0 <= j < string_table(entries).len() && j != k ==> (#[trigger] string_table(
                entries,
            )[j]).0 != string_table(entries)[k].0,
    decreases entries.len(),
{
    law_string_table_is_map(entries);
    let rest = entries.drop_last();
    let last = entries.last();
    let table = string_table(rest);
    let pair = string_table(entries)[k];
    lemma_value_text(last.1);
    assert(entries[entries.len() - 1] == last);
    if k < table.len() && table[k] == pair {
        law_table_is_made_of_entries(rest, k);
        let i = choose|i: int|
            0 <= i < rest.len() && entry_says(#[trigger] rest[i], pair.0, pair.1);
        assert(entries[i] == rest[i]);
    } else {
        assert(entry_says(entries[entries.len() - 1], pair.0, pair.1));
    }
}

/// A table with each key once is the map of its pairs.
pub proof fn law_map_of_table<V>(table: Seq<(Seq<char>, V)>, key: Seq<char>)
    requires
        forall|i: int, j: int|
            0 <= i < j < table.len() ==> (#[trigger] table[i]).0 != (#[trigger] table[j]).0,
    ensures
        table_map(table).contains_key(key) <==> exists|i: int|
            0 <= i < table.len() && (#[trigger] table[i]).0 == key,
        forall|i: int|
            0 <= i < table.len() && (#[trigger] table[i]).0 == key ==> table_map(table)[key]
                == table[i].1,
{
}

/// The views of tables hold each pair and each entry as it is, in order.
pub proof fn law_views_of_tables<V: View>(
    table: Seq<(String, V)>,
    entries: Seq<(TableValue, TableValue)>,
)
    ensures
        pairs_view(table).len() == table.len(),
        forall|i: int|
            0 <= i < table.len() ==> #[trigger] pairs_view(table)[i] == (table[i].0@, table[i].1@),
        entries_view(entries).len() == entries.len(),
        forall|i: int|
            0 <= i < entries.len() ==> #[trigger] entries_view(entries)[i] == (
                entries[i].0@,
                entries[i].1@,
            ),
{
}

/// The view of a value is the value.
pub proof fn law_view_of_value(value: TableValue)
    ensures
        value matches TableValue::Text(text) ==> value@ == TableValueView::Text(text@),
        value matches TableValue::Number(text) ==> value@ == TableValueView::Number(text@),
        value matches TableValue::Flag(flag) ==> value@ == TableValueView::Flag(flag),
        value is Other ==> value@ == TableValueView::Other,
{
}

} // verus!
