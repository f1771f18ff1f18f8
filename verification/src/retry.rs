//! When a request is tried again, and after what pause.

use reqwest::header::HeaderMap;
use vstd::arithmetic::power2::pow2;
use vstd::prelude::*;

use crate::headers::{header_contents, header_first, lowercase, valid_header_name};
use crate::limits::{
    DEFAULT_RETRIES, DEFAULT_RETRY_DELAY_NANOS, MAX_RETRIES, MAX_RETRY_DELAY_NANOS,
    MAX_RETRY_DELAY_SECS, MIN_RETRY_DELAY_NANOS, NANOS_PER_SEC,
};
use crate::method::Method;

verus! {

/// The methods that may be sent twice with the effect of once.
pub open spec fn idempotent(method: Seq<char>) -> bool {
    ||| method == "GET"@
    ||| method == "HEAD"@
    ||| method == "PUT"@
    ||| method == "DELETE"@
    ||| method == "OPTIONS"@
}

/// The retries of a request that does not ask for a number.
pub fn default_retries(method: &Method) -> (retries: usize)
    ensures
        idempotent(method@) ==> retries == DEFAULT_RETRIES,
        !idempotent(method@) ==> retries == 0,
{
    if method.is("GET") || method.is("HEAD") || method.is("PUT") || method.is("DELETE")
        || method.is("OPTIONS") {
        DEFAULT_RETRIES
    } else {
        0
    }
}

/// The retries of a request that asks for `wanted`, or for nothing.
pub open spec fn retries_granted(wanted: Option<i64>, method: Seq<char>) -> int {
    match wanted {
        Some(number) => if number < 0 {
            0
        } else if number > MAX_RETRIES {
            MAX_RETRIES as int
        } else {
            number as int
        },
        None => if idempotent(method) {
            DEFAULT_RETRIES as int
        } else {
            0
        },
    }
}

/// How often a request is tried again at most: what it asks for, between none
/// and `MAX_RETRIES`, or the default of its method.
pub fn retry_limit(wanted: Option<i64>, method: &Method) -> (retries: usize)
    ensures
        retries == retries_granted(wanted, method@),
        retries <= MAX_RETRIES,
{
    match wanted {
        Some(number) => {
            if number < 0 {
                0
            } else if number > MAX_RETRIES as i64 {
                MAX_RETRIES
            } else {
                number as usize
            }
        },
        None => default_retries(method),
    }
}

/// The statuses that speak of a passing trouble.
pub open spec fn is_transient(status: u16) -> bool {
    status == 408 || status == 429 || status == 500 || status == 502 || status == 503 || status
        == 504
}

/// Whether a response of this status is a reason to try again.
pub fn retryable_status(status: u16) -> (retryable: bool)
    ensures
        retryable == is_transient(status),
{
    matches!(status, 408 | 429 | 500 | 502 | 503 | 504)
}

/// An ASCII digit.
pub open spec fn is_digit(b: u8) -> bool {
    48 <= b <= 57
}

/// The number that decimal digits write.
pub open spec fn digits_value(digits: Seq<u8>) -> nat
    decreases digits.len(),
{
    if digits.len() == 0 {
        0
    } else {
        10 * digits_value(digits.drop_last()) + (digits.last() - 48) as nat
    }
}

/// A text without the plus sign that a number may start with.
pub open spec fn unsigned_part(text: Seq<u8>) -> Seq<u8> {
    if text.len() > 0 && text[0] == 43 {
        text.skip(1)
    } else {
        text
    }
}

/// The number that a text writes, if it is one of 64 bits: digits, with or
/// without a plus sign before them.
pub open spec fn parsed_u64(text: Seq<u8>) -> Option<u64> {
    let digits = unsigned_part(text);
    if digits.len() > 0 && (forall|i: int| 0 <= i < digits.len() ==> is_digit(#[trigger] digits[i]))
        && digits_value(digits) <= u64::MAX {
        Some(digits_value(digits) as u64)
    } else {
        None
    }
}

proof fn lemma_digits_value_grows(digits: Seq<u8>, n: int)
    requires
        0 <= n <= digits.len(),
        forall|i: int| 0 <= i < digits.len() ==> is_digit(#[trigger] digits[i]),
    ensures
        digits_value(digits.take(n)) <= digits_value(digits),
    decreases digits.len() - n,
{
    if n < digits.len() {
        lemma_digits_value_grows(digits, n + 1);
        assert(digits.take(n + 1).drop_last() =~= digits.take(n));
        assert(is_digit(digits[n]));
    } else {
        assert(digits.take(n) =~= digits);
    }
}

/// Reads a whole number.
pub fn parse_u64(text: &Vec<u8>) -> (number: Option<u64>)
    ensures
        number == parsed_u64(text@),
{
    let ghost digits = unsigned_part(text@);
    let start: usize = if text.len() > 0 && text[0] == 43 {
        1
    } else {
        0
    };
    if start == text.len() {
        return None;
    }
    let mut value: u64 = 0;
    let mut i: usize = start;
    assert(digits.take(0) =~= Seq::<u8>::empty());
    while i < text.len()
        invariant
            digits == unsigned_part(text@),
            start <= i <= text@.len(),
            digits.len() == text@.len() - start,
            digits.len() > 0,
            forall|j: int| 0 <= j < digits.len() ==> #[trigger] digits[j] == text@[j + start],
            forall|j: int| 0 <= j < i - start ==> is_digit(#[trigger] digits[j]),
            value == digits_value(digits.take(i - start)),
        decreases text@.len() - i,
    {
        let byte: u8 = text[i];
        proof {
            assert(digits[i - start] == byte);
            assert(digits.take(i - start + 1).drop_last() =~= digits.take(i - start));
        }
        if byte < 48 || byte > 57 {
            return None;
        }
        let digit: u64 = (byte - 48) as u64;
        if value > (u64::MAX - digit) / 10 {
            proof {
                if forall|j: int| 0 <= j < digits.len() ==> is_digit(#[trigger] digits[j]) {
                    lemma_digits_value_grows(digits, i - start + 1);
                }
            }
            return None;
        }
        value = 10 * value + digit;
        i += 1;
    }
    assert(digits.take(digits.len() as int) =~= digits);
    Some(value)
}

/// The seconds that a response asks to wait, if it gives a number.
pub open spec fn retry_after(contents: Map<Seq<char>, Seq<Seq<u8>>>) -> Option<u64> {
    if contents.contains_key("retry-after"@) {
        parsed_u64(contents["retry-after"@].first())
    } else {
        None
    }
}

/// The pause after attempt number `attempt`, counted from zero: the base pause,
/// doubled each time, up to the longest pause.
pub open spec fn backoff_nanos(attempt: nat, base: nat) -> nat {
    let doublings: nat = if attempt < 6 {
        attempt
    } else {
        6
    };
    let pause = base * pow2(doublings);
    if pause < MAX_RETRY_DELAY_NANOS {
        pause
    } else {
        MAX_RETRY_DELAY_NANOS as nat
    }
}

/// The pause before the next attempt. `after` is what the response asks for.
pub open spec fn pause_nanos(after: Option<u64>, attempt: nat, base: nat) -> nat {
    match after {
        Some(seconds) => if seconds < MAX_RETRY_DELAY_SECS {
            (seconds * NANOS_PER_SEC) as nat
        } else {
            MAX_RETRY_DELAY_NANOS as nat
        },
        None => backoff_nanos(attempt, base),
    }
}

/// What the headers of a response, if there was one, ask for.
pub open spec fn asked_pause(headers: Option<&HeaderMap>) -> Option<u64> {
    match headers {
        Some(map) => retry_after(header_contents(*map)),
        None => None,
    }
}

proof fn lemma_retry_after_name()
    ensures
        valid_header_name("retry-after"@),
        lowercase("retry-after"@) == "retry-after"@,
{
    reveal_strlit("retry-after");
    assert(lowercase("retry-after"@) =~= "retry-after"@);
}

/// The pause before the next attempt, in nanoseconds: what the response asks
/// for, or else the base pause doubled with every attempt; never longer than
/// the longest pause.
pub fn retry_delay(headers: Option<&HeaderMap>, attempt: usize, base: u128) -> (nanos: u64)
    ensures
        nanos == pause_nanos(asked_pause(headers), attempt as nat, base as nat),
        nanos <= MAX_RETRY_DELAY_NANOS,
{
    if let Some(map) = headers {
        proof {
            lemma_retry_after_name();
        }
        if let Some(text) = header_first(map, "retry-after") {
            if let Some(seconds) = parse_u64(&text) {
                return if seconds < MAX_RETRY_DELAY_SECS {
                    seconds * NANOS_PER_SEC
                } else {
                    MAX_RETRY_DELAY_NANOS
                };
            }
        }
    }
    let doublings: usize = if attempt < 6 {
        attempt
    } else {
        6
    };
    let factor: u128 = match doublings {
        0 => 1,
        1 => 2,
        2 => 4,
        3 => 8,
        4 => 16,
        5 => 32,
        _ => 64,
    };
    proof {
        vstd::arithmetic::power2::lemma2_to64();
        assert(factor == pow2(doublings as nat));
    }
    match base.checked_mul(factor) {
        Some(pause) => {
            if pause < MAX_RETRY_DELAY_NANOS as u128 {
                pause as u64
            } else {
                MAX_RETRY_DELAY_NANOS
            }
        },
        None => MAX_RETRY_DELAY_NANOS,
    }
}

/// The base pause of a request that asks for `wanted` nanoseconds, or for
/// nothing: no shorter and no longer than a base pause can be.
pub open spec fn base_granted(wanted: Option<u128>) -> u128 {
    match wanted {
        Some(nanos) => if nanos < MIN_RETRY_DELAY_NANOS {
            MIN_RETRY_DELAY_NANOS as u128
        } else if nanos > MAX_RETRY_DELAY_NANOS {
            MAX_RETRY_DELAY_NANOS as u128
        } else {
            nanos
        },
        None => DEFAULT_RETRY_DELAY_NANOS as u128,
    }
}

/// The base pause between attempts, in nanoseconds.
pub fn retry_base_delay(wanted: Option<u128>) -> (base: u128)
    ensures
        base == base_granted(wanted),
        MIN_RETRY_DELAY_NANOS <= base <= MAX_RETRY_DELAY_NANOS,
{
    match wanted {
        Some(nanos) => {
            if nanos < MIN_RETRY_DELAY_NANOS as u128 {
                MIN_RETRY_DELAY_NANOS as u128
            } else if nanos > MAX_RETRY_DELAY_NANOS as u128 {
                MAX_RETRY_DELAY_NANOS as u128
            } else {
                nanos
            }
        },
        None => DEFAULT_RETRY_DELAY_NANOS as u128,
    }
}

/// No pause is longer than the longest pause.
pub proof fn law_pause_is_capped(after: Option<u64>, attempt: nat, base: nat)
    ensures
        pause_nanos(after, attempt, base) <= MAX_RETRY_DELAY_NANOS,
{
}

/// A number of seconds that the response gives wins over the backoff: neither
/// the attempt nor the base pause matters.
pub proof fn law_retry_after_wins(seconds: u64, attempt: nat, base: nat, other: nat, pause: nat)
    ensures
        pause_nanos(Some(seconds), attempt, base) == pause_nanos(Some(seconds), other, pause),
{
}

/// The backoff doubles from one attempt to the next, up to the longest pause,
/// for the attempts that a request can have.
pub proof fn law_backoff_doubles(attempt: nat, base: nat)
    requires
        attempt < 6,
    ensures
        backoff_nanos(attempt + 1, base) == (if 2 * backoff_nanos(attempt, base)
            < MAX_RETRY_DELAY_NANOS {
            2 * backoff_nanos(attempt, base)
        } else {
            MAX_RETRY_DELAY_NANOS as nat
        }),
{
    vstd::arithmetic::power2::lemma_pow2_unfold(attempt + 1);
    assert(base * pow2(attempt + 1) == 2 * (base * pow2(attempt))) by (nonlinear_arith)
        requires
            pow2(attempt + 1) == 2 * pow2(attempt),
    ;
}

/// The first pause is the base pause.
pub proof fn law_backoff_starts_at_base(base: nat)
    requires
        base < MAX_RETRY_DELAY_NANOS,
    ensures
        backoff_nanos(0, base) == base,
{
    vstd::arithmetic::power2::lemma2_to64();
    assert(base * pow2(0) == base) by (nonlinear_arith)
        requires
            pow2(0) == 1,
    ;
}

/// A request that does not ask for retries gets some only if it may be sent
/// twice with the effect of once; POST and PATCH may not.
pub proof fn law_writes_are_not_repeated(method: Seq<char>)
    ensures
        retries_granted(None, method) > 0 <==> idempotent(method),
        method == "POST"@ || method == "PATCH"@ ==> retries_granted(None, method) == 0,
{
    reveal_strlit("POST");
    reveal_strlit("PATCH");
    reveal_strlit("GET");
    reveal_strlit("HEAD");
    reveal_strlit("PUT");
    reveal_strlit("DELETE");
    reveal_strlit("OPTIONS");
    assert("POST"@[0] == 'P' && "HEAD"@[0] == 'H');
    assert("PATCH"@[1] == 'A');
    assert("PATCH"@.len() == 5 && "POST"@.len() == 4);
}

/// The retries that are asked for are granted, between none and five, for every
/// method.
pub proof fn law_asked_retries_are_granted(wanted: i64, method: Seq<char>)
    ensures
        0 <= wanted <= 5 ==> retries_granted(Some(wanted), method) == wanted,
        wanted < 0 ==> retries_granted(Some(wanted), method) == 0,
        wanted > 5 ==> retries_granted(Some(wanted), method) == 5,
{
}

/// Without a number there are two retries for GET, HEAD, PUT, DELETE and OPTIONS,
/// and none for any other method.
pub proof fn law_default_retries(method: Seq<char>)
    ensures
        method == "GET"@ || method == "HEAD"@ || method == "PUT"@ || method == "DELETE"@ || method
            == "OPTIONS"@ ==> retries_granted(None, method) == 2 && idempotent(method),
        method != "GET"@ && method != "HEAD"@ && method != "PUT"@ && method != "DELETE"@ && method
            != "OPTIONS"@ ==> retries_granted(None, method) == 0 && !idempotent(method),
{
}

/// Of all statuses, these six speak of a passing trouble.
pub proof fn law_transient_statuses(status: u16)
    ensures
        is_transient(status) <==> seq![408u16, 429, 500, 502, 503, 504].contains(status),
{
    let list = seq![408u16, 429, 500, 502, 503, 504];
    assert(list[0] == 408 && list[1] == 429 && list[2] == 500 && list[3] == 502 && list[4] == 503
        && list[5] == 504);
}

/// A base pause that is asked for is granted, between a twentieth of a second and
/// half a minute; without one it is a quarter of a second.
pub proof fn law_base_pause_is_granted(wanted: u128)
    ensures
        50_000_000 <= wanted <= 30_000_000_000 ==> base_granted(Some(wanted)) == wanted,
        wanted < 50_000_000 ==> base_granted(Some(wanted)) == 50_000_000,
        wanted > 30_000_000_000 ==> base_granted(Some(wanted)) == 30_000_000_000,
        base_granted(None) == 250_000_000,
{
}

/// A digit is a number, one more digit makes ten times the number and the digit, a
/// plus sign before the first digit changes nothing, and a number that is too
/// large is none.
pub proof fn law_numbers_are_decimal(text: Seq<u8>, digit: u8)
    requires
        48 <= digit <= 57,
        text.len() > 0,
        forall|i: int| 0 <= i < text.len() ==> 48 <= #[trigger] text[i] <= 57,
    ensures
        parsed_u64(seq![digit]) == Some((digit - 48) as u64),
        parsed_u64(text) matches Some(number) ==> parsed_u64(text.push(digit)) == (if 10 * number
            + (digit - 48) <= u64::MAX {
            Some((10 * number + (digit - 48)) as u64)
        } else {
            None
        }),
        parsed_u64(text) is None ==> parsed_u64(text.push(digit)) is None,
        parsed_u64(seq![43u8] + text) == parsed_u64(text),
{
    reveal_with_fuel(digits_value, 2);
    let one = seq![digit];
    assert(one.drop_last() =~= Seq::<u8>::empty());
    assert(unsigned_part(one) == one);
    assert(is_digit(one[0]));
    assert(unsigned_part(text) == text);
    let more = text.push(digit);
    assert(more.drop_last() =~= text);
    assert(more[0] == text[0]);
    assert(unsigned_part(more) == more);
    assert forall|i: int| 0 <= i < more.len() implies is_digit(#[trigger] more[i]) by {
        if i < text.len() {
            assert(more[i] == text[i]);
        }
    }
    assert((seq![43u8] + text).skip(1) =~= text);
}

/// A text without digits, or with anything but digits behind a plus sign, is no
/// number.
pub proof fn law_other_texts_are_no_numbers(text: Seq<u8>, at: int)
    ensures
        parsed_u64(Seq::empty()) is None,
        parsed_u64(seq![43u8]) is None,
        0 <= at < text.len() && !(48 <= text[at] <= 57) && !(at == 0 && text[at] == 43)
            ==> parsed_u64(text) is None,
{
    assert(seq![43u8].skip(1) =~= Seq::<u8>::empty());
    if 0 <= at < text.len() && !(48 <= text[at] <= 57) && !(at == 0 && text[at] == 43) {
        let digits = unsigned_part(text);
        if text[0] == 43 {
            assert(digits[at - 1] == text[at]);
        }
        assert(exists|i: int| 0 <= i < digits.len() && !is_digit(#[trigger] digits[i])) by {
            if text[0] == 43 {
                assert(!is_digit(digits[at - 1]));
            } else {
                assert(!is_digit(digits[at]));
            }
        }
    }
}

/// What a response asks for is the number in the first value of its header for it,
/// and nothing without that header or without a number in it.
pub proof fn law_response_asks_by_header(contents: Map<Seq<char>, Seq<Seq<u8>>>)
    ensures
        !contents.contains_key("retry-after"@) ==> retry_after(contents) is None,
        contents.contains_key("retry-after"@) ==> retry_after(contents) == parsed_u64(
            contents["retry-after"@][0],
        ),
{
}

/// The pause that a response asks for is kept, up to half a minute; the backoff
/// starts at the base pause, is doubled up to six times, and never goes beyond
/// half a minute either.
pub proof fn law_pause_is_as_asked(seconds: u64, attempt: nat, base: nat)
    ensures
        seconds <= 30 ==> pause_nanos(Some(seconds), attempt, base) == seconds * 1_000_000_000,
        seconds > 30 ==> pause_nanos(Some(seconds), attempt, base) == 30_000_000_000,
        ({
            let doubled = base * pow2(
                if attempt <= 6 {
                    attempt
                } else {
                    6
                },
            );
            pause_nanos(None, attempt, base) == (if doubled <= 30_000_000_000 {
                doubled
            } else {
                30_000_000_000
            })
        }),
{
}

/// What the headers of a response ask for is what they hold; without a response
/// nothing is asked for.
pub proof fn law_only_responses_ask(headers: HeaderMap)
    ensures
        asked_pause(Some(&headers)) == retry_after(header_contents(headers)),
        asked_pause(None) is None,
{
}

} // verus!
