//! Names and values of HTTP headers.

use reqwest::header::{HeaderName, HeaderValue};
use vstd::prelude::*;
use vstd::utf8::encode_utf8;

verus! {

/// The product that makes the requests, as servers see it.
pub const USER_AGENT: &'static str = "symbolicator/0.7.0";

/// The most bytes that the name of a header can have.
pub const MAX_HEADER_NAME_LEN: usize = 65535;

/// Whether a byte may occur in the name of a header.
pub open spec fn is_name_byte(byte: u8) -> bool {
    ||| 33 <= byte <= 39  // ! " # $ % & '
    ||| byte == 42 || byte == 43 || byte == 45 || byte == 46  // * + - .
    ||| 48 <= byte <= 57  // 0-9
    ||| 65 <= byte <= 90  // A-Z
    ||| 94 <= byte <= 122  // ^ _ ` a-z
    ||| byte == 124 || byte == 126  // | ~
}

/// The character that stands for a byte in the normalized name of a header.
pub open spec fn name_char(byte: u8) -> char {
    if 65 <= byte <= 90 {
        (byte + 32) as char
    } else {
        byte as char
    }
}

/// The normalized form of a header's name, if it can be the name of one.
pub open spec fn normalized_name(name: Seq<u8>) -> Option<Seq<char>> {
    if 0 < name.len() <= MAX_HEADER_NAME_LEN && forall|i: int|
        0 <= i < name.len() ==> is_name_byte(#[trigger] name[i]) {
        Some(name.map_values(|byte: u8| name_char(byte)))
    } else {
        None
    }
}

/// Calls `HeaderName::from_bytes`, which reqwest has from http: it accepts one to 65535 bytes
/// that may all occur in a header's name, and turns upper case letters into lower case.
#[verifier::external_body]
fn header_name(name: &[u8]) -> (normalized: Option<String>)
    ensures
        match normalized {
            Some(text) => normalized_name(name@) == Some(text@),
            None => normalized_name(name@) is None,
        },
{
    HeaderName::from_bytes(name).ok().map(|name| name.as_str().to_owned())
}

/// Whether a byte counts as text in the value of a header: visible ASCII, the space and the tab.
pub open spec fn is_text_byte(byte: u8) -> bool {
    32 <= byte < 127 || byte == 9
}

/// The value of a header as text, if all of it is text.
pub open spec fn value_text(value: Seq<u8>) -> Option<Seq<char>> {
    if forall|i: int| 0 <= i < value.len() ==> is_text_byte(#[trigger] value[i]) {
        Some(value.map_values(|byte: u8| byte as char))
    } else {
        None
    }
}

/// Calls `HeaderValue::to_str`, which reqwest has from http, on the header value that has the given
/// bytes: it yields the bytes as text if all of them are visible ASCII, spaces or tabs. Bytes that
/// no header value can have are not text either.
#[verifier::external_body]
fn header_value_to_str(value: &[u8]) -> (text: Option<String>)
    ensures
        match text {
            Some(text) => value_text(value@) == Some(text@),
            None => value_text(value@) is None,
        },
{
    HeaderValue::from_bytes(value).ok()?.to_str().ok().map(|text| text.to_owned())
}

/// Whether all characters are decimal digits.
pub open spec fn all_digits(text: Seq<char>) -> bool {
    forall|i: int| 0 <= i < text.len() ==> '0' <= #[trigger] text[i] <= '9'
}

/// The number that some decimal digits stand for.
pub open spec fn decimal_value(digits: Seq<char>) -> nat
    decreases digits.len(),
{
    if digits.len() == 0 {
        0
    } else {
        decimal_value(digits.drop_last()) * 10 + (digits.last() as int - '0' as int) as nat
    }
}

/// The integer that a text spells, whatever its size: decimal digits after an optional sign.
pub open spec fn spelled_integer(text: Seq<char>) -> Option<int> {
    let signed = text.len() > 0 && (text[0] == '+' || text[0] == '-');
    let digits = if signed {
        text.skip(1)
    } else {
        text
    };
    if digits.len() == 0 || !all_digits(digits) {
        None
    } else if signed && text[0] == '-' {
        Some(-(decimal_value(digits) as int))
    } else {
        Some(decimal_value(digits) as int)
    }
}

/// The integer that a text spells, if it fits into 64 bits.
pub open spec fn spelled_i64(text: Seq<char>) -> Option<i64> {
    match spelled_integer(text) {
        Some(value) if i64::MIN <= value <= i64::MAX => Some(value as i64),
        _ => None,
    }
}

/// Calls [`str::parse`] for an `i64`: it accepts decimal digits after an optional sign, and
/// nothing around them, where the number fits.
#[verifier::external_body]
fn parse_i64(text: &str) -> (value: Option<i64>)
    ensures
        value == spelled_i64(text@),
{
    text.parse::<i64>().ok()
}

/// The number of bytes that a `Content-Length` header announces.
pub open spec fn announced_length(header: Option<Seq<u8>>) -> Option<i64> {
    match header {
        Some(value) => match value_text(value) {
            Some(text) => spelled_i64(text),
            None => None,
        },
        None => None,
    }
}

/// Reads the value of a `Content-Length` header, if there is one.
///
/// A header that cannot be read counts as none.
pub fn content_length(header: &Option<Vec<u8>>) -> (length: Option<i64>)
    ensures
        length == announced_length(
            match header {
                Some(value) => Some(value@),
                None => None,
            },
        ),
{
    match header {
        Some(value) => match header_value_to_str(value.as_slice()) {
            Some(text) => parse_i64(text.as_str()),
            None => None,
        },
        None => None,
    }
}

/// The headers of a request that are configured for its source: those whose names are valid, with
/// the names normalized, in the order of the configuration.
pub open spec fn configured_headers(headers: Seq<(String, String)>) -> Seq<(Seq<char>, Seq<char>)>
    decreases headers.len(),
{
    if headers.len() == 0 {
        Seq::empty()
    } else {
        let earlier = configured_headers(headers.drop_last());
        match normalized_name(encode_utf8(headers.last().0@)) {
            Some(name) => earlier.push((name, headers.last().1@)),
            None => earlier,
        }
    }
}

/// The headers that are added to a request: those configured for the source, and after them the
/// user agent.
pub open spec fn request_headers_view(headers: Seq<(String, String)>) -> Seq<
    (Seq<char>, Seq<char>),
> {
    configured_headers(headers).push(("user-agent"@, USER_AGENT@))
}

/// Returns the headers to add to a request, in this order, for a source that is configured with
/// the given ones.
pub fn request_headers(headers: &Vec<(String, String)>) -> (added: Vec<(String, String)>)
    ensures
        crate::source::pairs_view(added@) == request_headers_view(headers@),
{
    let mut added: Vec<(String, String)> = Vec::new();
    let mut i: usize = 0;
    while i < headers.len()
        invariant
            i <= headers@.len(),
            crate::source::pairs_view(added@) == configured_headers(headers@.take(i as int)),
        decreases headers@.len() - i,
    {
        proof {
            assert(headers@.take(i + 1).drop_last() == headers@.take(i as int));
        }
        let ghost earlier = added@;
        if let Some(name) = header_name(headers[i].0.as_str().as_bytes()) {
            let value = headers[i].1.as_str().to_owned();
            added.push((name, value));
            proof {
                assert(crate::source::pairs_view(added@) == crate::source::pairs_view(
                    earlier,
                ).push((name@, value@)));
            }
        }
        i = i + 1;
    }
    proof {
        assert(headers@.take(i as int) == headers@);
    }
    let ghost earlier = added@;
    let name = "user-agent".to_owned();
    let agent = USER_AGENT.to_owned();
    added.push((name, agent));
    proof {
        assert(crate::source::pairs_view(added@) == crate::source::pairs_view(earlier).push(
            (name@, agent@),
        ));
    }
    added
}

/// Headers that cannot be sent are left out, and all others keep their order: what is sent for
/// two lists of headers, one after the other, is what is sent for each of them.
pub proof fn law_headers_keep_their_order(
    first: Seq<(String, String)>,
    second: Seq<(String, String)>,
)
    ensures
        configured_headers(first + second) == configured_headers(first) + configured_headers(
            second,
        ),
    decreases second.len(),
{
    if second.len() == 0 {
        assert(first + second == first);
        assert(configured_headers(first) + configured_headers(second) == configured_headers(first));
    } else {
        law_headers_keep_their_order(first, second.drop_last());
        assert((first + second).drop_last() == first + second.drop_last());
        assert((first + second).last() == second.last());
        match normalized_name(encode_utf8(second.last().0@)) {
            Some(name) => {
                let header = (name, second.last().1@);
                assert(configured_headers(first) + configured_headers(second.drop_last()).push(
                    header,
                ) == (configured_headers(first) + configured_headers(second.drop_last())).push(
                    header,
                ));
            },
            None => {},
        }
    }
}

/// Every request names the product that makes it, after all that the source is configured with.
pub proof fn law_every_request_has_a_user_agent(headers: Seq<(String, String)>)
    ensures
        request_headers_view(headers).last() == ("user-agent"@, USER_AGENT@),
        request_headers_view(headers).drop_last() == configured_headers(headers),
{
    assert(request_headers_view(headers).drop_last() == configured_headers(headers));
}

/// A normalized name is the name of a header as it is: it stays the same however often it is
/// normalized.
pub proof fn law_normalized_names_are_stable(name: Seq<u8>)
    ensures
        match normalized_name(name) {
            Some(text) => normalized_name(encode_utf8(text)) == Some(text),
            None => true,
        },
{
    if let Some(text) = normalized_name(name) {
        assert forall|i: int| 0 <= i < text.len() implies '\0' <= #[trigger] text[i]
            <= '\u{7f}' by {
            assert(is_name_byte(name[i]));
        }
        vstd::utf8::is_ascii_chars_encode_utf8(text);
        let bytes = encode_utf8(text);
        assert forall|i: int| 0 <= i < bytes.len() implies is_name_byte(#[trigger] bytes[i])
            && name_char(bytes[i]) == text[i] by {
            assert(is_name_byte(name[i]));
            assert(text[i] == name_char(name[i]));
        }
        assert(bytes.map_values(|byte: u8| name_char(byte)) == text);
    }
}

/// A name is one of a header exactly if it has between 1 and 65535 bytes, all of which are letters,
/// digits or some of the symbols. Normalizing turns upper case letters into lower case and changes
/// nothing else.
pub proof fn law_header_names(name: Seq<u8>)
    ensures
        normalized_name(name) is Some <==> 1 <= name.len() <= 65535 && forall|i: int|
            0 <= i < name.len() ==> (match (#[trigger] name[i]) as char {
                'a'..='z' | 'A'..='Z' | '0'..='9' => true,
                '!' | '"' | '#' | '$' | '%' | '&' | '\'' | '*' | '+' | '-' | '.' => true,
                '^' | '_' | '`' | '|' | '~' => true,
                _ => false,
            }),
        normalized_name(name) matches Some(text) ==> {
            &&& text.len() == name.len()
            &&& forall|i: int|
                0 <= i < name.len() ==> #[trigger] text[i] as int == name[i] + if 'A'
                    <= name[i] as char <= 'Z' {
                    32int
                } else {
                    0int
                }
        },
{
}

/// A single configured header is sent with its value exactly if its name is one of a header,
/// whatever the value is.
pub proof fn law_valid_names_are_sent_with_their_values(header: (String, String))
    ensures
        configured_headers(seq![header]) == (match normalized_name(encode_utf8(header.0@)) {
            Some(name) => seq![(name, header.1@)],
            None => Seq::empty(),
        }),
        configured_headers(Seq::empty()) == Seq::<(Seq<char>, Seq<char>)>::empty(),
{
    let single = seq![header];
    assert(single.drop_last() == Seq::<(String, String)>::empty());
    assert(single.last() == header);
    assert(configured_headers(single.drop_last()) == Seq::<(Seq<char>, Seq<char>)>::empty());
}

/// Without any configured headers, only the user agent is sent.
pub proof fn law_user_agent_is_always_sent(
    headers: Vec<(String, String)>,
    added: Vec<(String, String)>,
)
    requires
        call_ensures(request_headers, (&headers,), added),
    ensures
        added@.len() >= 1,
        added@[added@.len() - 1].0@ == "user-agent"@,
        added@[added@.len() - 1].1@ == "symbolicator/0.7.0"@,
        headers@.len() == 0 ==> added@.len() == 1,
{
    let view = crate::source::pairs_view(added@);
    assert(view.len() == added@.len());
    assert(view.last() == ("user-agent"@, USER_AGENT@));
    assert(view[added@.len() - 1] == (added@[added@.len() - 1].0@, added@[added@.len() - 1].1@));
}

/// One more configured header makes one more header that is sent, right before the user agent, if
/// its name is one of a header, and no difference if it is not. The value is sent as it is,
/// whatever it is, and what was sent without it is still sent, in the same order.
pub proof fn law_one_more_header(
    headers: Vec<(String, String)>,
    header: (String, String),
    more: Vec<(String, String)>,
    added: Vec<(String, String)>,
    more_added: Vec<(String, String)>,
)
    requires
        more@ == headers@.push(header),
        call_ensures(request_headers, (&headers,), added),
        call_ensures(request_headers, (&more,), more_added),
    ensures
        more_added@.len() == added@.len() + (if normalized_name(encode_utf8(header.0@)) is Some {
            1int
        } else {
            0int
        }),
        forall|i: int|
            0 <= i < added@.len() - 1 ==> (#[trigger] more_added@[i]).0@ == added@[i].0@
                && more_added@[i].1@ == added@[i].1@,
        normalized_name(encode_utf8(header.0@)) matches Some(name) ==> {
            let sent = more_added@[more_added@.len() - 2];
            sent.0@ == name && sent.1@ == header.1@
        },
{
    let view = crate::source::pairs_view(added@);
    let more_view = crate::source::pairs_view(more_added@);
    assert(view.len() == added@.len());
    assert(more_view.len() == more_added@.len());
    let before = configured_headers(headers@);
    assert(headers@.push(header).drop_last() == headers@);
    let after = configured_headers(more@);
    assert(view == before.push(("user-agent"@, USER_AGENT@)));
    assert(more_view == after.push(("user-agent"@, USER_AGENT@)));
    assert forall|i: int| 0 <= i < added@.len() - 1 implies (#[trigger] more_added@[i]).0@
        == added@[i].0@ && more_added@[i].1@ == added@[i].1@ by {
        assert(view[i] == (added@[i].0@, added@[i].1@));
        assert(more_view[i] == (more_added@[i].0@, more_added@[i].1@));
        assert(view[i] == before[i]);
        assert(more_view[i] == after[i]);
    }
    if normalized_name(encode_utf8(header.0@)) is Some {
        let at = more_added@.len() - 2;
        assert(more_view[at] == (more_added@[at].0@, more_added@[at].1@));
        assert(more_view[at] == after.last());
    }
}

proof fn lemma_configured_headers_contain(headers: Seq<(String, String)>, at: int)
    requires
        0 <= at < headers.len(),
        normalized_name(encode_utf8(headers[at].0@)) is Some,
    ensures
        configured_headers(headers).contains(
            (normalized_name(encode_utf8(headers[at].0@))->0, headers[at].1@),
        ),
    decreases headers.len(),
{
    let fewer = headers.drop_last();
    let sent = (normalized_name(encode_utf8(headers[at].0@))->0, headers[at].1@);
    if at < fewer.len() {
        lemma_configured_headers_contain(fewer, at);
        let i = choose|i: int|
            0 <= i < configured_headers(fewer).len() && configured_headers(fewer)[i] == sent;
        assert(configured_headers(headers)[i] == sent);
    } else {
        assert(configured_headers(headers).last() == sent);
    }
}

/// Every configured header whose name is one of a header is among those that are sent, with its
/// value.
pub proof fn law_configured_headers_are_sent(
    headers: Vec<(String, String)>,
    added: Vec<(String, String)>,
    at: int,
)
    requires
        call_ensures(request_headers, (&headers,), added),
        0 <= at < headers@.len(),
        normalized_name(encode_utf8(headers@[at].0@)) is Some,
    ensures
        exists|i: int|
            #![trigger added@[i]]
            0 <= i < added@.len() && Some(added@[i].0@) == normalized_name(
                encode_utf8(headers@[at].0@),
            ) && added@[i].1@ == headers@[at].1@,
{
    lemma_configured_headers_contain(headers@, at);
    let view = crate::source::pairs_view(added@);
    let configured = configured_headers(headers@);
    let sent = (normalized_name(encode_utf8(headers@[at].0@))->0, headers@[at].1@);
    let i = choose|i: int| 0 <= i < configured.len() && configured[i] == sent;
    assert(view.len() == added@.len());
    assert(view == configured.push(("user-agent"@, USER_AGENT@)));
    assert(view[i] == sent);
    assert(view[i] == (added@[i].0@, added@[i].1@));
}

/// What a header says makes no difference to whether it is sent.
pub proof fn law_values_do_not_decide_what_is_sent(
    name: String,
    value: String,
    other: String,
)
    ensures
        configured_headers(seq![(name, value)]).len() == configured_headers(
            seq![(name, other)],
        ).len(),
{
    law_valid_names_are_sent_with_their_values((name, value));
    law_valid_names_are_sent_with_their_values((name, other));
}

/// Without a header no length is announced, and a header announces a length only if it consists of
/// decimal digits, which a sign may precede.
pub proof fn law_lengths_are_decimal(header: Option<Vec<u8>>, length: Option<i64>)
    requires
        call_ensures(content_length, (&header,), length),
        length is Some,
    ensures
        header is Some,
        header->0@.len() > 0,
        48 <= header->0@[header->0@.len() - 1] <= 57,
        forall|i: int| 0 < i < header->0@.len() ==> 48 <= #[trigger] header->0@[i] <= 57,
        48 <= header->0@[0] <= 57 || header->0@[0] == 43 || header->0@[0] == 45,
{
    let bytes = header->0@;
    let text = bytes.map_values(|byte: u8| byte as char);
    assert(spelled_integer(text) is Some);
    if text[0] == '+' || text[0] == '-' {
        assert forall|i: int| 0 < i < bytes.len() implies 48 <= #[trigger] bytes[i] <= 57 by {
            assert('0' <= text.skip(1)[i - 1] <= '9');
        }
    } else {
        assert forall|i: int| 0 <= i < bytes.len() implies 48 <= #[trigger] bytes[i] <= 57 by {
            assert('0' <= text[i] <= '9');
        }
    }
}

/// A single digit announces its own value, and with a sign in front of it that value or its
/// negative.
pub proof fn law_single_digits(value: Vec<u8>, length: Option<i64>, digit: u8)
    requires
        call_ensures(content_length, (&Some(value),), length),
        0 <= digit <= 9,
    ensures
        value@ == seq![(48 + digit) as u8] ==> length == Some(digit as i64),
        value@ == seq![43u8, (48 + digit) as u8] ==> length == Some(digit as i64),
        value@ == seq![45u8, (48 + digit) as u8] ==> length == Some((0 - digit) as i64),
{
    let text = value@.map_values(|byte: u8| byte as char);
    let none = Seq::<char>::empty();
    assert(decimal_value(none) == 0);
    if value@ == seq![(48 + digit) as u8] {
        assert(text.len() == 1 && text[0] as int == 48 + digit);
        assert(text.drop_last() == none);
        assert(all_digits(text));
        assert(decimal_value(text) == digit);
        lemma_announced(value@, text);
    }
    if value@ == seq![43u8, (48 + digit) as u8] || value@ == seq![45u8, (48 + digit) as u8] {
        let digits = text.skip(1);
        assert(text.len() == 2 && text[1] as int == 48 + digit);
        assert(digits.len() == 1 && digits[0] == text[1]);
        assert(digits.drop_last() == none);
        assert(all_digits(digits));
        assert(decimal_value(digits) == digit);
        lemma_announced(value@, text);
    }
}

/// A value whose characters are all digits or signs is text.
proof fn lemma_announced(value: Seq<u8>, text: Seq<char>)
    requires
        text == value.map_values(|byte: u8| byte as char),
        forall|i: int|
            0 <= i < text.len() ==> '0' <= #[trigger] text[i] <= '9' || text[i] == '+' || text[i]
                == '-',
    ensures
        announced_length(Some(value)) == spelled_i64(text),
{
    assert forall|i: int| 0 <= i < value.len() implies is_text_byte(#[trigger] value[i]) by {
        assert(text[i] == value[i] as char);
    }
}

proof fn lemma_one_more_digit(text: Seq<char>, digit: char)
    requires
        text.len() > 0,
        '0' <= text.last() <= '9',
        '0' <= digit <= '9',
    ensures
        match spelled_integer(text) {
            Some(value) => spelled_integer(text.push(digit)) == Some(
                if text[0] == '-' {
                    10 * value - (digit as int - 48)
                } else {
                    10 * value + (digit as int - 48)
                },
            ),
            None => spelled_integer(text.push(digit)) is None,
        },
{
    let longer = text.push(digit);
    let signed = text[0] == '+' || text[0] == '-';
    let digits = if signed {
        text.skip(1)
    } else {
        text
    };
    let more = if signed {
        longer.skip(1)
    } else {
        longer
    };
    assert(longer[0] == text[0]);
    assert(more == digits.push(digit));
    assert(more.drop_last() == digits);
    assert(more.last() == digit);
    if all_digits(digits) {
        assert(all_digits(more));
    } else {
        let i = choose|i: int| 0 <= i < digits.len() && !('0' <= #[trigger] digits[i] <= '9');
        assert(more[i] == digits[i]);
    }
    if signed {
        assert(text.len() > 1);
        assert(digits.len() > 0);
    }
    assert(decimal_value(more) == decimal_value(digits) * 10 + (digit as int - 48));
}

/// One more digit makes ten times the length and the digit on top of it, away from zero, as long as
/// that fits into 64 bits. What announced nothing before, being no number or too large, announces
/// nothing after it either.
pub proof fn law_one_more_digit(
    value: Vec<u8>,
    longer: Vec<u8>,
    digit: u8,
    length: Option<i64>,
    longer_length: Option<i64>,
)
    requires
        call_ensures(content_length, (&Some(value),), length),
        call_ensures(content_length, (&Some(longer),), longer_length),
        value@.len() > 0,
        48 <= value@.last() <= 57,
        0 <= digit <= 9,
        longer@ == value@.push((48 + digit) as u8),
    ensures
        match length {
            Some(length) => {
                let next = if value@[0] == 45 {
                    10 * length - digit
                } else {
                    10 * length + digit
                };
                longer_length == if i64::MIN <= next <= i64::MAX {
                    Some(next as i64)
                } else {
                    None
                }
            },
            None => longer_length is None,
        },
{
    let text = value@.map_values(|byte: u8| byte as char);
    let longer_text = longer@.map_values(|byte: u8| byte as char);
    let last = ((48 + digit) as u8) as char;
    assert(longer_text == text.push(last));
    assert(text[0] == value@[0] as char);
    assert(text.last() == value@.last() as char);
    lemma_one_more_digit(text, last);
    if value_text(value@) is Some {
        assert forall|i: int| 0 <= i < longer@.len() implies is_text_byte(
            #[trigger] longer@[i],
        ) by {
            if i < value@.len() {
                assert(longer@[i] == value@[i]);
            }
        }
        if spelled_integer(text) is Some {
            lemma_sign_of_spelled(text);
        }
    } else {
        let i = choose|i: int| 0 <= i < value@.len() && !is_text_byte(#[trigger] value@[i]);
        assert(longer@[i] == value@[i]);
    }
}

proof fn lemma_sign_of_spelled(text: Seq<char>)
    requires
        spelled_integer(text) is Some,
    ensures
        text[0] == '-' ==> spelled_integer(text)->0 <= 0,
        text[0] != '-' ==> spelled_integer(text)->0 >= 0,
{
}

} // verus!
