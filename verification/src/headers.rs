//! Request and response headers.

use reqwest::header::{HeaderMap, HeaderName, HeaderValue};
use vstd::prelude::*;
use vstd::utf8::encode_utf8;

use crate::table::{has_key, pairs_view, table_map, unique_keys, upsert, upserted};

verus! {

/// `reqwest::header::HeaderValue`, the values that a header map holds.
#[verifier::external_type_specification]
#[verifier::external_body]
pub struct ExHeaderValue(HeaderValue);

/// `reqwest::header::HeaderMap`, a map from header names to one or more values
/// each.
#[verifier::external_type_specification]
#[verifier::external_body]
#[verifier::reject_recursive_types(T)]
pub struct ExHeaderMap<T>(HeaderMap<T>);

/// What a header map holds: under each name, in lower case, the bytes of its
/// values in the order in which they were added.
pub uninterp spec fn header_contents(map: HeaderMap<HeaderValue>) -> Map<Seq<char>, Seq<Seq<u8>>>;

/// The contents of a header map without headers.
pub open spec fn no_headers() -> Map<Seq<char>, Seq<Seq<u8>>> {
    Map::empty()
}

/// The longest header name.
pub const MAX_HEADER_NAME: usize = 65535;

/// A header map with no more names than this always takes another one.
pub const HEADER_MAP_ROOM: usize = 6553;

/// The characters of a token: of header names and of methods.
pub open spec fn is_token_char(c: char) -> bool {
    ||| '0' <= c <= '9'
    ||| 'A' <= c <= 'Z'
    ||| 'a' <= c <= 'z'
    ||| c == '!' || c == '#' || c == '$' || c == '%' || c == '&' || c == '\''
    ||| c == '*' || c == '+' || c == '-' || c == '.' || c == '^' || c == '_'
    ||| c == '`' || c == '|' || c == '~'
}

/// A name that a header can have.
pub open spec fn valid_header_name(name: Seq<char>) -> bool {
    &&& 0 < name.len() <= MAX_HEADER_NAME
    &&& forall|i: int| 0 <= i < name.len() ==> is_token_char(#[trigger] name[i])
}

/// A byte that can stand in a header value: no control byte but the tab.
pub open spec fn is_value_byte(b: u8) -> bool {
    b == 9 || (b >= 32 && b != 127)
}

/// The bytes of a value that a header can have.
pub open spec fn valid_header_value(value: Seq<u8>) -> bool {
    forall|i: int| 0 <= i < value.len() ==> is_value_byte(#[trigger] value[i])
}

/// A letter in lower case, as header names are kept.
pub open spec fn lower_char(c: char) -> char {
    if 'A' <= c <= 'Z' {
        ((c as u8) + 32) as char
    } else {
        c
    }
}

/// A header name in lower case.
pub open spec fn lowercase(name: Seq<char>) -> Seq<char> {
    name.map_values(|c: char| lower_char(c))
}

/// `HeaderName::from_bytes` takes a token of at most `MAX_HEADER_NAME` bytes
/// and turns it to lower case. What it says of any other name is its error's
/// message.
#[verifier::external_body]
pub(crate) fn header_name(name: &str) -> (result: Result<String, String>)
    ensures
        result is Ok <==> valid_header_name(name@),
        result matches Ok(lower) ==> lower@ == lowercase(name@),
        result matches Err(message) ==> message@ == "invalid HTTP header name"@,
{
    match HeaderName::from_bytes(name.as_bytes()) {
        Ok(lower) => Ok(lower.as_str().to_string()),
        Err(error) => Err(error.to_string()),
    }
}

/// `HeaderValue::from_str` takes a text without control characters (the tab is
/// none here) and keeps its bytes. What it says of any other text is its
/// error's message.
#[verifier::external_body]
pub(crate) fn header_value(value: &str) -> (result: Result<Vec<u8>, String>)
    ensures
        result is Ok <==> valid_header_value(encode_utf8(value@)),
        result matches Ok(bytes) ==> bytes@ == encode_utf8(value@),
        result matches Err(message) ==> message@ == "failed to parse header value"@,
{
    match HeaderValue::from_str(value) {
        Ok(bytes) => Ok(bytes.as_bytes().to_vec()),
        Err(error) => Err(error.to_string()),
    }
}

/// `HeaderMap::new` makes a map without headers.
pub assume_specification[ HeaderMap::new ]() -> (empty: HeaderMap<HeaderValue>)
    ensures
        header_contents(empty) == no_headers(),
;

/// `HeaderMap::try_insert` puts a single value under a name, in place of all
/// values that were there. It refuses, and changes nothing, where its table
/// cannot grow; with at most `HEADER_MAP_ROOM` names it always can. Whether it
/// can with more rests on how the names are hashed and is not stated.
#[verifier::external_body]
pub(crate) fn header_insert(map: &mut HeaderMap, name: &str, value: &Vec<u8>) -> (inserted: bool)
    requires
        valid_header_name(name@),
        valid_header_value(value@),
    ensures
        inserted ==> header_contents(*final(map)) == header_contents(*old(map)).insert(
            lowercase(name@),
            seq![value@],
        ),
        !inserted ==> header_contents(*final(map)) == header_contents(*old(map)),
        !inserted ==> header_contents(*final(map)).dom().len() > HEADER_MAP_ROOM,
{
    let name = HeaderName::from_bytes(name.as_bytes()).unwrap();
    let value = HeaderValue::from_bytes(value).unwrap();
    map.try_insert(name, value).is_ok()
}

/// `HeaderMap::contains_key` tells whether there is a value under a name, in
/// whatever case the name is written.
#[verifier::external_body]
pub(crate) fn header_contains(map: &HeaderMap, name: &str) -> (found: bool)
    requires
        valid_header_name(name@),
    ensures
        found == header_contents(*map).contains_key(lowercase(name@)),
{
    map.contains_key(name)
}

/// `HeaderMap::get` gives the first value under a name, in whatever case the
/// name is written.
#[verifier::external_body]
pub(crate) fn header_first(map: &HeaderMap, name: &str) -> (value: Option<Vec<u8>>)
    requires
        valid_header_name(name@),
    ensures
        value is Some <==> header_contents(*map).contains_key(lowercase(name@)),
        value matches Some(bytes) ==> bytes@ == header_contents(*map)[lowercase(name@)].first(),
{
    map.get(name).map(|value| value.as_bytes().to_vec())
}

/// The values that a list of headers has under `name`, in order.
pub open spec fn values_of(entries: Seq<(Seq<char>, Seq<u8>)>, name: Seq<char>) -> Seq<Seq<u8>>
    decreases entries.len(),
{
    if entries.len() == 0 {
        Seq::empty()
    } else if entries.last().0 == name {
        values_of(entries.drop_last(), name).push(entries.last().1)
    } else {
        values_of(entries.drop_last(), name)
    }
}

/// `HeaderMap::iter` lists every name with each of its values, those of one
/// name in their order; names come in lower case. The order of the names is not
/// stated.
#[verifier::external_body]
pub(crate) fn header_entries(map: &HeaderMap) -> (entries: Vec<(String, Vec<u8>)>)
    ensures
        forall|name: Seq<char>|
            header_contents(*map).contains_key(name) <==> #[trigger] has_key(
                pairs_view(entries@),
                name,
            ),
        forall|name: Seq<char>|
            header_contents(*map).contains_key(name) ==> #[trigger] values_of(
                pairs_view(entries@),
                name,
            ) == header_contents(*map)[name],
        forall|name: Seq<char>| #[trigger]
            has_key(pairs_view(entries@), name) ==> lowercase(name) == name,
{
    map.iter().map(|(name, value)| (name.as_str().to_string(), value.as_bytes().to_vec())).collect()
}

/// The headers as a table with one value per name: the last one.
pub open spec fn header_table(contents: Map<Seq<char>, Seq<Seq<u8>>>) -> Map<Seq<char>, Seq<u8>> {
    contents.map_values(|values: Seq<Seq<u8>>| values.last())
}

/// The table that a list of headers makes, read in order.
spec fn collapsed(entries: Seq<(Seq<char>, Seq<u8>)>) -> Seq<(Seq<char>, Seq<u8>)>
    decreases entries.len(),
{
    if entries.len() == 0 {
        Seq::empty()
    } else {
        upserted(collapsed(entries.drop_last()), entries.last().0, entries.last().1)
    }
}

proof fn lemma_collapsed(entries: Seq<(Seq<char>, Seq<u8>)>)
    ensures
        unique_keys(collapsed(entries)),
        forall|name: Seq<char>| #[trigger]
            has_key(collapsed(entries), name) <==> has_key(entries, name),
        forall|name: Seq<char>| #[trigger]
            has_key(entries, name) ==> values_of(entries, name).len() > 0 && table_map(
                collapsed(entries),
            )[name] == values_of(entries, name).last(),
    decreases entries.len(),
{
    if entries.len() > 0 {
        let rest = entries.drop_last();
        let last = entries.last();
        lemma_collapsed(rest);
        crate::table::law_upsert_is_insert(collapsed(rest), last.0, last.1);
        let before = table_map(collapsed(rest));
        let after = table_map(collapsed(entries));
        assert forall|name: Seq<char>| #[trigger]
            has_key(entries, name) == (name == last.0 || has_key(rest, name)) by {
            if has_key(rest, name) {
                let i = choose|i: int| 0 <= i < rest.len() && (#[trigger] rest[i]).0 == name;
                assert(entries[i].0 == name);
            }
            assert(entries[entries.len() - 1].0 == last.0);
            if has_key(entries, name) && name != last.0 {
                let i = choose|i: int| 0 <= i < entries.len() && (#[trigger] entries[i]).0 == name;
                assert(rest[i].0 == name);
            }
        }
        assert forall|name: Seq<char>| #[trigger]
            has_key(collapsed(entries), name) <==> has_key(entries, name) by {
            assert(after.contains_key(name) == has_key(collapsed(entries), name));
            assert(before.contains_key(name) == has_key(collapsed(rest), name));
        }
        assert forall|name: Seq<char>| #[trigger] has_key(entries, name) implies values_of(
            entries,
            name,
        ).len() > 0 && after[name] == values_of(entries, name).last() by {
            if name != last.0 {
                assert(has_key(rest, name));
            }
        }
    }
}

/// The headers of a response as a table for the script side: names in lower
/// case, and under each name one value, the last of several.
pub fn response_header_table(headers: &HeaderMap) -> (table: Vec<(String, Vec<u8>)>)
    ensures
        unique_keys(pairs_view(table@)),
        table_map(pairs_view(table@)) == header_table(header_contents(*headers)),
        forall|name: Seq<char>| #[trigger]
            has_key(pairs_view(table@), name) ==> lowercase(name) == name,
{
    let entries = header_entries(headers);
    let ghost all = pairs_view(entries@);
    let mut table: Vec<(String, Vec<u8>)> = Vec::new();
    let mut i: usize = 0;
    assert(pairs_view(table@) =~= collapsed(all.take(0)));
    while i < entries.len()
        invariant
            i <= entries@.len(),
            all == pairs_view(entries@),
            pairs_view(table@) == collapsed(all.take(i as int)),
            unique_keys(pairs_view(table@)),
        decreases entries@.len() - i,
    {
        proof {
            assert(all.take(i + 1).drop_last() =~= all.take(i as int));
            assert(all.take(i + 1).last() == (entries@[i as int].0@, entries@[i as int].1@));
        }
        upsert(&mut table, entries[i].0.clone(), entries[i].1.clone());
        i += 1;
    }
    proof {
        assert(all.take(all.len() as int) =~= all);
        lemma_collapsed(all);
        assert(table_map(pairs_view(table@)) =~= header_table(header_contents(*headers)));
    }
    table
}

/// The table of headers has a value under exactly the names that there are, and
/// under each the value that came last.
pub proof fn law_table_has_last_values(contents: Map<Seq<char>, Seq<Seq<u8>>>, name: Seq<char>)
    ensures
        header_table(contents).contains_key(name) == contents.contains_key(name),
        contents.contains_key(name) ==> header_table(contents)[name]
            == contents[name][contents[name].len() - 1],
{
}

/// In lower case the letters from `A` to `Z` are those from `a` to `z`, and any
/// other character is itself.
pub proof fn law_lower_case(name: Seq<char>)
    ensures
        lowercase(name).len() == name.len(),
        forall|i: int|
            0 <= i < name.len() ==> {
                let lower = #[trigger] lowercase(name)[i];
                &&& 'A' <= name[i] <= 'Z' ==> lower as int == name[i] as int - 'A' as int
                    + 'a' as int
                &&& !('A' <= name[i] <= 'Z') ==> lower == name[i]
            },
{
}

} // verus!
