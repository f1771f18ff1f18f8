//! URLs, query parameters and forms.

use reqwest::Url;
use vstd::prelude::*;
use vstd::utf8::{encode_scalar, encode_utf8};

use crate::table::pairs_view;

verus! {

/// The last position at which a part of a URL can start.
pub const MAX_URL: u64 = 4294967295;

/// What `Url::parse` makes of a text: the URL in its normal form, or what is
/// wrong with the text.
pub uninterp spec fn parsed_url(text: Seq<char>) -> Result<Seq<char>, Seq<char>>;

/// A result of texts, by its view.
pub open spec fn result_view(result: Result<String, String>) -> Result<Seq<char>, Seq<char>> {
    match result {
        Ok(text) => Ok(text@),
        Err(message) => Err(message@),
    }
}

/// `Url::parse` parses a URL and writes it in its normal form, by the rules of
/// the URL standard.
#[verifier::external_body]
pub(crate) fn parse_url(text: &str) -> (result: Result<String, String>)
    ensures
        result_view(result) == parsed_url(text@),
{
    match Url::parse(text) {
        Ok(url) => Ok(url.to_string()),
        Err(error) => Err(error.to_string()),
    }
}

/// An upper case hexadecimal digit.
pub open spec fn hex_digit(value: int) -> char {
    if value < 10 {
        (48 + value) as char
    } else {
        (55 + value) as char
    }
}

/// A byte in a form: letters, digits and four signs stand for themselves, a
/// plus sign for the space, and the code in two hexadecimal digits for the
/// rest.
pub open spec fn form_byte(b: u8) -> Seq<char> {
    if 48 <= b <= 57 || 65 <= b <= 90 || 97 <= b <= 122 || b == 42 || b == 45 || b == 46 || b
        == 95 {
        seq![b as char]
    } else if b == 32 {
        seq!['+']
    } else {
        seq!['%', hex_digit(b as int / 16), hex_digit(b as int % 16)]
    }
}

/// Bytes in a form.
pub open spec fn form_bytes(bytes: Seq<u8>) -> Seq<char>
    decreases bytes.len(),
{
    if bytes.len() == 0 {
        Seq::empty()
    } else {
        form_bytes(bytes.drop_last()) + form_byte(bytes.last())
    }
}

/// A named value in a form.
pub open spec fn form_pair(pair: (Seq<char>, Seq<char>)) -> Seq<char> {
    form_bytes(encode_utf8(pair.0)) + seq!['='] + form_bytes(encode_utf8(pair.1))
}

/// A form: its named values, with an ampersand between each two.
pub open spec fn form_text(pairs: Seq<(Seq<char>, Seq<char>)>) -> Seq<char>
    decreases pairs.len(),
{
    if pairs.len() == 0 {
        Seq::empty()
    } else if pairs.len() == 1 {
        form_pair(pairs[0])
    } else {
        form_text(pairs.drop_last()) + seq!['&'] + form_pair(pairs.last())
    }
}

/// `serde_urlencoded::to_string` writes named texts as a form, in their order.
/// Its errors are for values of other types, so that pairs of texts never give
/// one.
#[verifier::external_body]
pub(crate) fn encode_form(pairs: &Vec<(String, String)>) -> (result: Result<String, String>)
    ensures
        result is Ok,
        result->Ok_0@ == form_text(pairs_view(pairs@)),
{
    match serde_urlencoded::to_string(pairs) {
        Ok(text) => Ok(text),
        Err(error) => Err(error.to_string()),
    }
}

/// Where the first `mark` stands in a sequence, or its length.
pub open spec fn first_mark<T>(items: Seq<T>, mark: T) -> int
    decreases items.len(),
{
    if items.len() == 0 || items[0] == mark {
        0
    } else {
        1 + first_mark(items.skip(1), mark)
    }
}

/// The part of a URL in normal form before its fragment.
pub open spec fn before_fragment(url: Seq<char>) -> Seq<char> {
    url.take(first_mark(url, '#'))
}

/// Whether there is a query in a URL without fragment.
pub open spec fn has_query(head: Seq<char>) -> bool {
    first_mark(head, '?') < head.len()
}

/// What comes between a URL without fragment and the named values at the end of
/// its query: a query is opened where there is none.
pub open spec fn separator(head: Seq<char>, pairs: Seq<(Seq<char>, Seq<char>)>) -> Seq<char> {
    if !has_query(head) {
        seq!['?']
    } else if first_mark(head, '?') + 1 == head.len() || pairs.len() == 0 {
        Seq::empty()
    } else {
        seq!['&']
    }
}

/// A URL without fragment with named values at the end of its query.
pub open spec fn head_with_query(head: Seq<char>, pairs: Seq<(Seq<char>, Seq<char>)>) -> Seq<char> {
    head + separator(head, pairs) + form_text(pairs)
}

/// A URL in normal form with named values at the end of its query; a fragment
/// stays behind it.
pub open spec fn with_query(url: Seq<char>, pairs: Seq<(Seq<char>, Seq<char>)>) -> Seq<char> {
    head_with_query(before_fragment(url), pairs) + url.skip(first_mark(url, '#'))
}

proof fn lemma_first_mark<T>(items: Seq<T>, mark: T)
    ensures
        0 <= first_mark(items, mark) <= items.len(),
        forall|i: int| 0 <= i < first_mark(items, mark) ==> #[trigger] items[i] != mark,
        first_mark(items, mark) < items.len() ==> items[first_mark(items, mark)] == mark,
    decreases items.len(),
{
    if items.len() > 0 && items[0] != mark {
        let rest = items.skip(1);
        lemma_first_mark(rest, mark);
        assert forall|i: int| 0 <= i < first_mark(items, mark) implies #[trigger] items[i]
            != mark by {
            if i > 0 {
                assert(items[i] == rest[i - 1]);
            }
        }
    }
}

proof fn lemma_first_mark_is_first<T>(items: Seq<T>, mark: T, at: int)
    requires
        0 <= at <= items.len(),
        forall|i: int| 0 <= i < at ==> #[trigger] items[i] != mark,
        at < items.len() ==> items[at] == mark,
    ensures
        first_mark(items, mark) == at,
{
    lemma_first_mark(items, mark);
    let first = first_mark(items, mark);
    if first < at {
        assert(items[first] != mark);
    }
}

/// Two texts in a row are encoded one after the other.
proof fn lemma_encode_concat(a: Seq<char>, b: Seq<char>)
    ensures
        encode_utf8(a + b) == encode_utf8(a) + encode_utf8(b),
    decreases a.len(),
{
    if a.len() == 0 {
        assert(a + b =~= b);
        assert(encode_utf8(a) + encode_utf8(b) =~= encode_utf8(b));
    } else {
        lemma_encode_concat(a.drop_first(), b);
        assert((a + b).drop_first() =~= a.drop_first() + b);
        assert(encode_utf8(a + b) =~= encode_utf8(a) + encode_utf8(b));
    }
}

/// A character of one byte is encoded as itself, and its byte does not occur in
/// the encoding of any other character.
proof fn lemma_encode_char(c: char, mark: char)
    requires
        mark <= '\u{7f}',
    ensures
        encode_scalar(c as u32).len() > 0,
        c == mark ==> encode_scalar(c as u32) == seq![mark as u8],
        c != mark ==> forall|i: int|
            0 <= i < encode_scalar(c as u32).len() ==> #[trigger] encode_scalar(c as u32)[i]
                != mark as u8,
{
    let v = c as u32;
    if v <= 0x7f {
        assert((v & 0x7f) as u8 == v as u8) by (bit_vector)
            requires
                v <= 0x7f,
        ;
        assert(encode_scalar(v) =~= seq![v as u8]);
    } else {
        assert((0x80u8 | (v & 0x3f) as u8) >= 0x80) by (bit_vector);
        assert((0x80u8 | ((v >> 6) & 0x3f) as u8) >= 0x80) by (bit_vector);
        assert((0x80u8 | ((v >> 12) & 0x3f) as u8) >= 0x80) by (bit_vector);
        assert((0xc0u8 | ((v >> 6) & 0x1f) as u8) >= 0x80) by (bit_vector);
        assert((0xe0u8 | ((v >> 12) & 0x0f) as u8) >= 0x80) by (bit_vector);
        assert((0xf0u8 | ((v >> 18) & 0x7) as u8) >= 0x80) by (bit_vector);
    }
}

/// The byte of a mark stands where the encoding of the text before it ends.
proof fn lemma_mark_in_bytes(text: Seq<char>, mark: char)
    requires
        mark <= '\u{7f}',
    ensures
        ({
            let at = first_mark(text, mark);
            let bytes = encode_utf8(text);
            let byte_at = first_mark(bytes, mark as u8);
            &&& byte_at == encode_utf8(text.take(at)).len()
            &&& bytes.take(byte_at) == encode_utf8(text.take(at))
            &&& (at < text.len() <==> byte_at < bytes.len())
            &&& (at + 1 == text.len() <==> byte_at + 1 == bytes.len())
        }),
{
    let at = first_mark(text, mark);
    let bytes = encode_utf8(text);
    let before = encode_utf8(text.take(at));
    lemma_first_mark(text, mark);
    lemma_no_mark_in_bytes(text.take(at), mark);
    lemma_encode_concat(text.take(at), text.skip(at));
    assert(text.take(at) + text.skip(at) =~= text);
    assert(bytes == before + encode_utf8(text.skip(at)));
    if at < text.len() {
        let rest = text.skip(at);
        lemma_encode_char(rest[0], mark);
        assert(rest.drop_first() =~= text.skip(at + 1));
        assert(bytes[before.len() as int] == mark as u8);
        assert(bytes.len() == before.len() + 1 + encode_utf8(rest.drop_first()).len());
        if at + 1 < text.len() {
            lemma_encode_char(rest.drop_first()[0], mark);
            assert(encode_utf8(rest.drop_first()).len() > 0);
        } else {
            assert(encode_utf8(rest.drop_first()).len() == 0);
        }
    }
    assert forall|i: int| 0 <= i < before.len() implies #[trigger] bytes[i] != mark as u8 by {
        assert(bytes[i] == before[i]);
    }
    lemma_first_mark_is_first(bytes, mark as u8, before.len() as int);
    assert(bytes.take(before.len() as int) =~= before);
}

proof fn lemma_no_mark_in_bytes(text: Seq<char>, mark: char)
    requires
        mark <= '\u{7f}',
        forall|i: int| 0 <= i < text.len() ==> #[trigger] text[i] != mark,
    ensures
        forall|i: int| 0 <= i < encode_utf8(text).len() ==> #[trigger] encode_utf8(text)[i] != mark
            as u8,
    decreases text.len(),
{
    if text.len() > 0 {
        let rest = text.drop_first();
        assert forall|i: int| 0 <= i < rest.len() implies #[trigger] rest[i] != mark by {
            assert(rest[i] == text[i + 1]);
        }
        lemma_no_mark_in_bytes(rest, mark);
        lemma_encode_char(text[0], mark);
        let first = encode_scalar(text[0] as u32);
        assert forall|i: int| 0 <= i < encode_utf8(text).len() implies #[trigger] encode_utf8(
            text,
        )[i] != mark as u8 by {
            if i < first.len() {
                assert(encode_utf8(text)[i] == first[i]);
            } else {
                assert(encode_utf8(text)[i] == encode_utf8(rest)[i - first.len()]);
            }
        }
    }
}

/// Adding to the query keeps what stands before the fragment, and the fragment.
pub proof fn law_query_keeps_url(url: Seq<char>, pairs: Seq<(Seq<char>, Seq<char>)>)
    ensures
        url.take(first_mark(url, '#')).is_prefix_of(with_query(url, pairs)),
        url.skip(first_mark(url, '#')).is_suffix_of(with_query(url, pairs)),
        with_query(url, pairs).len() >= url.len() + form_text(pairs).len(),
{
    lemma_first_mark(url, '#');
    let cut = first_mark(url, '#');
    let all = with_query(url, pairs);
    assert(all.subrange(0, cut) =~= url.take(cut));
    assert(all.subrange(all.len() - (url.len() - cut), all.len() as int) =~= url.skip(cut));
}

/// Whether the parts of a URL with these values start early enough: a query that
/// is opened, and a fragment that stays behind the query, start at positions of
/// 32 bits.
pub open spec fn query_fits(url: Seq<char>, pairs: Seq<(Seq<char>, Seq<char>)>) -> bool {
    let head = before_fragment(url);
    &&& !has_query(head) ==> encode_utf8(head).len() <= MAX_URL
    &&& first_mark(url, '#') < url.len() ==> encode_utf8(head_with_query(head, pairs)).len()
        <= MAX_URL
}

/// `Url::parse_with_params` parses a URL as `Url::parse` does and then adds
/// named values to its query.
#[verifier::external_body]
fn parse_url_with_params(text: &str, pairs: &Vec<(String, String)>) -> (result: Result<
    String,
    String,
>)
    requires
        parsed_url(text@) matches Ok(url) ==> query_fits(url, pairs_view(pairs@)),
    ensures
        result_view(result) == (match parsed_url(text@) {
            Ok(url) => Ok(with_query(url, pairs_view(pairs@))),
            Err(message) => Err(message),
        }),
{
    match Url::parse_with_params(text, pairs) {
        Ok(url) => Ok(url.to_string()),
        Err(error) => Err(error.to_string()),
    }
}

/// The URL that a text and named values make, if the text parses and the result
/// fits into a URL.
pub open spec fn query_url(
    text: Seq<char>,
    pairs: Seq<(Seq<char>, Seq<char>)>,
) -> Option<Seq<char>> {
    match parsed_url(text) {
        Ok(url) => if query_fits(url, pairs) {
            Some(with_query(url, pairs))
        } else {
            None
        },
        Err(_) => None,
    }
}

/// An optional text, by its view.
pub open spec fn option_view(text: Option<String>) -> Option<Seq<char>> {
    match text {
        Some(text) => Some(text@),
        None => None,
    }
}

/// Where a byte first stands among the first `end` bytes, or `end`.
fn find_byte(bytes: &[u8], end: usize, mark: u8) -> (at: usize)
    requires
        end <= bytes@.len(),
    ensures
        at == first_mark(bytes@.take(end as int), mark),
        at <= end,
{
    let ghost part = bytes@.take(end as int);
    let mut at: usize = 0;
    while at < end
        invariant
            at <= end <= bytes@.len(),
            part == bytes@.take(end as int),
            forall|i: int| 0 <= i < at ==> #[trigger] part[i] != mark,
        decreases end - at,
    {
        if bytes[at] == mark {
            proof {
                lemma_first_mark_is_first(part, mark, at as int);
            }
            return at;
        }
        at += 1;
    }
    proof {
        lemma_first_mark_is_first(part, mark, at as int);
    }
    end
}

/// Whether a URL with these values, which make this form, fits.
fn fits(url: &str, form: &str, pairs: &Vec<(String, String)>) -> (fitting: bool)
    requires
        form@ == form_text(pairs_view(pairs@)),
    ensures
        fitting == query_fits(url@, pairs_view(pairs@)),
{
    let bytes = url.as_bytes();
    let size: usize = bytes.len();
    let head_size: usize = find_byte(bytes, size, 35);
    let query_at: usize = find_byte(bytes, head_size, 63);
    let ghost head = before_fragment(url@);
    proof {
        assert(bytes@.take(size as int) =~= bytes@);
        lemma_mark_in_bytes(url@, '#');
        lemma_mark_in_bytes(head, '?');
        lemma_encode_concat(head, separator(head, pairs_view(pairs@)));
        lemma_encode_concat(head + separator(head, pairs_view(pairs@)), form@);
        lemma_encode_char('?', '?');
        lemma_encode_char('&', '&');
        assert(encode_utf8(Seq::<char>::empty()).len() == 0);
        assert(seq!['?'].drop_first() =~= Seq::<char>::empty());
        assert(seq!['&'].drop_first() =~= Seq::<char>::empty());
        assert(encode_utf8(seq!['?']).len() == 1);
        assert(encode_utf8(seq!['&']).len() == 1);
    }
    if query_at == head_size && head_size as u128 > MAX_URL as u128 {
        return false;
    }
    let separator_size: u128 = if query_at == head_size {
        1
    } else if query_at + 1 == head_size || pairs.len() == 0 {
        0
    } else {
        1
    };
    let form_size: usize = form.as_bytes().len();
    head_size == size || head_size as u128 + separator_size + form_size as u128 <= MAX_URL as u128
}

/// Adds named values to the query of a URL; `None` if the text is no URL or the
/// values do not fit.
pub fn add_query(text: &str, pairs: &Vec<(String, String)>) -> (url: Option<String>)
    ensures
        option_view(url) == query_url(text@, pairs_view(pairs@)),
{
    let base = match parse_url(text) {
        Ok(base) => base,
        Err(_) => return None,
    };
    let form = match encode_form(pairs) {
        Ok(form) => form,
        Err(_) => return None,
    };
    if !fits(base.as_str(), form.as_str(), pairs) {
        return None;
    }
    match parse_url_with_params(text, pairs) {
        Ok(url) => Some(url),
        Err(_) => None,
    }
}

/// Letters, digits and the signs `*`, `-`, `.` and `_` stand for themselves in a
/// form, a space is a plus sign, and any other byte is a percent sign and two
/// digits from which the byte can be read.
pub proof fn law_bytes_in_a_form(b: u8)
    ensures
        ({
            let plain = 'a' <= b as char <= 'z' || 'A' <= b as char <= 'Z' || '0' <= b as char <= '9'
                || b as char == '*' || b as char == '-' || b as char == '.' || b as char == '_';
            &&& plain ==> form_byte(b) == seq![b as char]
            &&& b as char == ' ' ==> form_byte(b) == seq!['+']
            &&& !plain && b as char != ' ' ==> {
                &&& form_byte(b).len() == 3
                &&& form_byte(b)[0] == '%'
                &&& hex_value(form_byte(b)[1]) * 16 + hex_value(form_byte(b)[2]) == b
                &&& hex_value(form_byte(b)[1]) < 16
                &&& 0 <= hex_value(form_byte(b)[2]) < 16
            }
        }),
{
}

/// The value of an upper case hexadecimal digit.
pub open spec fn hex_value(digit: char) -> int {
    if '0' <= digit <= '9' {
        digit as int - '0' as int
    } else if 'A' <= digit <= 'F' {
        digit as int - 'A' as int + 10
    } else {
        -1
    }
}

/// Bytes are written in a form one by one, in order.
pub proof fn law_form_is_written_in_order(a: Seq<u8>, b: Seq<u8>)
    ensures
        form_bytes(Seq::empty()) == Seq::<char>::empty(),
        forall|byte: u8| #[trigger] form_bytes(seq![byte]) == form_byte(byte),
        form_bytes(a + b) == form_bytes(a) + form_bytes(b),
    decreases b.len(),
{
    assert forall|byte: u8| #[trigger] form_bytes(seq![byte]) == form_byte(byte) by {
        reveal_with_fuel(form_bytes, 2);
        assert(seq![byte].drop_last() =~= Seq::<u8>::empty());
        assert(form_bytes(seq![byte]) =~= form_byte(byte));
    }
    if b.len() == 0 {
        assert(a + b =~= a);
        assert(form_bytes(a) + form_bytes(b) =~= form_bytes(a));
    } else {
        law_form_is_written_in_order(a, b.drop_last());
        assert((a + b).drop_last() =~= a + b.drop_last());
        assert(form_bytes(a + b) =~= form_bytes(a) + form_bytes(b));
    }
}

/// A form has every named value: its name, an equals sign and its value, with an
/// ampersand between each two, in order. An empty form is empty.
pub proof fn law_form_has_every_pair(
    pairs: Seq<(Seq<char>, Seq<char>)>,
    name: Seq<char>,
    value: Seq<char>,
)
    ensures
        form_text(Seq::empty()) == Seq::<char>::empty(),
        ({
            let written = form_bytes(encode_utf8(name)) + seq!['='] + form_bytes(
                encode_utf8(value),
            );
            form_text(pairs.push((name, value))) == (if pairs.len() == 0 {
                written
            } else {
                form_text(pairs) + seq!['&'] + written
            })
        }),
{
    assert(pairs.push((name, value)).drop_last() =~= pairs);
}

/// Named values are added at the end of the query and before the fragment: a query
/// is opened where there is none, and an ampersand comes between what the query
/// has and what is added.
pub proof fn law_values_end_the_query(
    path: Seq<char>,
    query: Seq<char>,
    fragment: Seq<char>,
    pairs: Seq<(Seq<char>, Seq<char>)>,
)
    requires
        forall|i: int| 0 <= i < path.len() ==> #[trigger] path[i] != '?' && path[i] != '#',
        forall|i: int| 0 <= i < query.len() ==> #[trigger] query[i] != '#',
        fragment.len() > 0 ==> fragment[0] == '#',
    ensures
        with_query(path + fragment, pairs) == path + seq!['?'] + form_text(pairs) + fragment,
        with_query(path + seq!['?'] + query + fragment, pairs) == (if query.len() == 0 {
            path + seq!['?'] + form_text(pairs) + fragment
        } else if pairs.len() == 0 {
            path + seq!['?'] + query + fragment
        } else {
            path + seq!['?'] + query + seq!['&'] + form_text(pairs) + fragment
        }),
{
    let plain = path + fragment;
    let cut = path.len() as int;
    if fragment.len() > 0 {
        assert(plain[cut] == fragment[0]);
    }
    assert forall|i: int| 0 <= i < cut implies #[trigger] plain[i] != '#' by {
        assert(plain[i] == path[i]);
    }
    lemma_first_mark_is_first(plain, '#', cut);
    assert(plain.take(cut) =~= path);
    assert(plain.skip(cut) =~= fragment);
    lemma_first_mark_is_first(path, '?', cut);
    assert(with_query(plain, pairs) =~= path + seq!['?'] + form_text(pairs) + fragment);

    let head = path + seq!['?'] + query;
    let full = head + fragment;
    let end = head.len() as int;
    if fragment.len() > 0 {
        assert(full[end] == fragment[0]);
    }
    assert forall|i: int| 0 <= i < end implies #[trigger] full[i] != '#' by {
        if i < cut {
            assert(full[i] == path[i]);
        } else if i > cut {
            assert(full[i] == query[i - cut - 1]);
        } else {
            assert(full[i] == '?');
        }
    }
    lemma_first_mark_is_first(full, '#', end);
    assert(full.take(end) =~= head);
    assert(full.skip(end) =~= fragment);
    assert forall|i: int| 0 <= i < cut implies #[trigger] head[i] != '?' by {
        assert(head[i] == path[i]);
    }
    assert(head[cut] == '?');
    lemma_first_mark_is_first(head, '?', cut);
    if query.len() == 0 {
        assert(head =~= path + seq!['?']);
        assert(with_query(full, pairs) =~= path + seq!['?'] + form_text(pairs) + fragment);
    } else if pairs.len() == 0 {
        assert(form_text(pairs) =~= Seq::<char>::empty());
        assert(with_query(full, pairs) =~= path + seq!['?'] + query + fragment);
    } else {
        assert(with_query(full, pairs) =~= path + seq!['?'] + query + seq!['&'] + form_text(pairs)
            + fragment);
    }
}

/// Named values fit into every URL that stays within four gigabytes, and into every
/// URL that has a query and no fragment.
pub proof fn law_values_fit(url: Seq<char>, pairs: Seq<(Seq<char>, Seq<char>)>)
    ensures
        encode_utf8(url).len() + encode_utf8(form_text(pairs)).len() + 1 <= 4_294_967_295
            ==> query_fits(url, pairs),
        !url.contains('#') && url.contains('?') ==> query_fits(url, pairs),
{
    lemma_first_mark(url, '#');
    let cut = first_mark(url, '#');
    let head = before_fragment(url);
    lemma_first_mark(head, '?');
    assert(url.take(cut) + url.skip(cut) =~= url);
    lemma_encode_concat(url.take(cut), url.skip(cut));
    lemma_encode_concat(head, separator(head, pairs));
    lemma_encode_concat(head + separator(head, pairs), form_text(pairs));
    lemma_encode_char('?', '?');
    lemma_encode_char('&', '&');
    assert(seq!['?'].drop_first() =~= Seq::<char>::empty());
    assert(seq!['&'].drop_first() =~= Seq::<char>::empty());
    assert(encode_utf8(Seq::<char>::empty()).len() == 0);
    assert(encode_utf8(seq!['?']).len() == 1);
    assert(encode_utf8(seq!['&']).len() == 1);
    if !url.contains('#') && url.contains('?') {
        assert(cut == url.len()) by {
            if cut < url.len() {
                assert(url[cut] == '#');
            }
        }
        assert(head =~= url);
        let i = choose|i: int| 0 <= i < url.len() && url[i] == '?';
        if first_mark(head, '?') == head.len() {
            assert(head[i] != '?');
        }
    }
}

/// A URL with named values is the URL that its text parses to, with the values in
/// its query; there is none exactly where the text is no URL or the values do not
/// fit.
pub proof fn law_url_of_text_and_values(text: Seq<char>, pairs: Seq<(Seq<char>, Seq<char>)>)
    ensures
        query_url(text, pairs) matches Some(url) ==> parsed_url(text) is Ok && url == with_query(
            parsed_url(text)->Ok_0,
            pairs,
        ),
        query_url(text, pairs) is None <==> parsed_url(text) is Err || !query_fits(
            parsed_url(text)->Ok_0,
            pairs,
        ),
{
}

/// The views of texts that may be missing hold the texts.
pub proof fn law_views_of_texts(text: String)
    ensures
        option_view(Some(text)) == Some(text@),
        option_view(None) is None,
        result_view(Ok(text)) == Ok::<Seq<char>, Seq<char>>(text@),
        result_view(Err(text)) == Err::<Seq<char>, Seq<char>>(text@),
{
}

} // verus!
