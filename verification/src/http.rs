//! The HTTP control surface's decision logic.
//!
//! A toggle request carries its inputs in the query string: `relayId` (an
//! unsigned integer; absent means relay 0 by design, not an error) and
//! `isActive` (a boolean; absent means `false`). Validation order: parse
//! `relayId`, check it against the relay count, then parse `isActive`, then
//! drive the relay. Every validation failure is a 400 response with a
//! descriptive body and mutates nothing; an id at or past the relay count
//! answers with the out-of-range message.
//!
//! The query string itself is split and percent-decoded by the `url` crate
//! behind one trusted wrapper; everything after that point is verified.

use vstd::prelude::*;

use crate::relay::bank_set;
use crate::relay::RelayBank;

verus! {

/// The three answers a toggle request can get.
#[derive(Clone, Copy, PartialEq, Eq, Structural, Debug)]
pub enum ToggleResponse {
    /// 200, empty body: the relay was driven to the requested level.
    Success,
    /// 400: `relayId` parsed but is not below the relay count.
    OutOfRange,
    /// 400: the request line or a query parameter did not parse.
    InvalidParam,
}

/// HTTP status code of each answer.
pub open spec fn status_spec(resp: ToggleResponse) -> u16 {
    match resp {
        ToggleResponse::Success => 200,
        ToggleResponse::OutOfRange => 400,
        ToggleResponse::InvalidParam => 400,
    }
}

/// Response body of each answer.
pub open spec fn body_spec(resp: ToggleResponse) -> Seq<char> {
    match resp {
        ToggleResponse::Success => Seq::<char>::empty(),
        ToggleResponse::OutOfRange => "Relay ID is out of range"@,
        ToggleResponse::InvalidParam => "Invalid query parameter"@,
    }
}

impl ToggleResponse {
    /// HTTP status code: 200 on success, 400 on any validation failure.
    pub fn status(&self) -> (code: u16)
        ensures
            code == status_spec(*self),
    {
        match self {
            ToggleResponse::Success => 200,
            ToggleResponse::OutOfRange => 400,
            ToggleResponse::InvalidParam => 400,
        }
    }

    /// Response body: empty on success, a descriptive message otherwise.
    pub fn body(&self) -> (b: &'static str)
        ensures
            b@ == body_spec(*self),
    {
        proof {
            reveal_strlit("");
            assert(""@ =~= Seq::<char>::empty());
        }
        match self {
            ToggleResponse::Success => "",
            ToggleResponse::OutOfRange => "Relay ID is out of range",
            ToggleResponse::InvalidParam => "Invalid query parameter",
        }
    }
}

/// Whether `c` is a decimal digit.
pub open spec fn is_dec_digit(c: char) -> bool {
    48 <= c as u32 && c as u32 <= 57
}

/// Numeric value of a decimal digit.
pub open spec fn digit_val(c: char) -> int {
    c as u32 - 48
}

/// Whether every character of `s` is a decimal digit.
pub open spec fn all_dec_digits(s: Seq<char>) -> bool {
    forall|i: int| 0 <= i < s.len() ==> is_dec_digit(#[trigger] s[i])
}

/// Value of a string of decimal digits, most significant first.
pub open spec fn digits_value(s: Seq<char>) -> int
    decreases s.len(),
{
    if s.len() == 0 {
        0
    } else {
        digits_value(s.drop_last()) * 10 + digit_val(s.last())
    }
}

/// What parsing an unsigned 8-bit integer accepts: an optional leading
/// `+`, then at least one decimal digit, with a value of at most 255.
pub open spec fn parse_u8_spec(s: Seq<char>) -> Option<u8> {
    let body = if s.len() > 0 && s[0] == '+' {
        s.drop_first()
    } else {
        s
    };
    if body.len() > 0 && all_dec_digits(body) && digits_value(body) <= 255 {
        Some(digits_value(body) as u8)
    } else {
        None
    }
}

/// Parse an unsigned 8-bit integer from decimal text.
pub fn parse_u8(s: &str) -> (r: Option<u8>)
    ensures
        r == parse_u8_spec(s@),
{
    let len = s.unicode_len();
    let mut start: usize = 0;
    if len > 0 && s.get_char(0) == '+' {
        start = 1;
    }
    let ghost body: Seq<char> = if s@.len() > 0 && s@[0] == '+' {
        s@.drop_first()
    } else {
        s@
    };
    proof {
        assert(body =~= s@.subrange(start as int, len as int));
    }
    if start >= len {
        return None;
    }
    let mut j: usize = start;
    let mut acc: u32 = 0;
    let mut over = false;
    while j < len
        invariant
            start <= j <= len,
            len == s@.len(),
            body == (if s@.len() > 0 && s@[0] == '+' {
                s@.drop_first()
            } else {
                s@
            }),
            body == s@.subrange(start as int, len as int),
            forall|k: int| start <= k < j ==> is_dec_digit(#[trigger] s@[k]),
            !over ==> acc <= 255 && acc == digits_value(s@.subrange(start as int, j as int)),
            over ==> digits_value(s@.subrange(start as int, j as int)) > 255,
        decreases len - j,
    {
        let c = s.get_char(j);
        let cv = c as u32;
        if cv < 48 || cv > 57 {
            proof {
                assert(body[j - start] == s@[j as int]);
                assert(!is_dec_digit(body[j - start]));
                assert(!all_dec_digits(body));
            }
            return None;
        }
        let d = cv - 48;
        proof {
            assert(s@.subrange(start as int, j + 1).drop_last() =~= s@.subrange(
                start as int,
                j as int,
            ));
            assert(s@.subrange(start as int, j + 1).last() == s@[j as int]);
        }
        if over || acc * 10 + d > 255 {
            over = true;
        } else {
            acc = acc * 10 + d;
        }
        j = j + 1;
    }
    if over {
        None
    } else {
        Some(acc as u8)
    }
}

/// What parsing a boolean accepts: exactly `true` or `false`.
pub open spec fn parse_bool_spec(s: Seq<char>) -> Option<bool> {
    if s == "true"@ {
        Some(true)
    } else if s == "false"@ {
        Some(false)
    } else {
        None
    }
}

/// Character-for-character string equality.
fn str_eq(a: &str, b: &str) -> (r: bool)
    ensures
        r == (a@ == b@),
{
    let alen = a.unicode_len();
    let blen = b.unicode_len();
    if alen != blen {
        return false;
    }
    let mut i: usize = 0;
    while i < alen
        invariant
            i <= alen,
            alen == a@.len(),
            alen == b@.len(),
            forall|k: int| 0 <= k < i ==> a@[k] == b@[k],
        decreases alen - i,
    {
        if a.get_char(i) != b.get_char(i) {
            return false;
        }
        i = i + 1;
    }
    proof {
        assert(a@ =~= b@);
    }
    true
}

/// Parse a boolean from text.
pub fn parse_bool(s: &str) -> (r: Option<bool>)
    ensures
        r == parse_bool_spec(s@),
{
    if str_eq(s, "true") {
        Some(true)
    } else if str_eq(s, "false") {
        Some(false)
    } else {
        None
    }
}

/// Value of the first query pair whose key is `key`, if any.
pub open spec fn first_value(pairs: Seq<(Seq<char>, Seq<char>)>, key: Seq<char>) -> Option<
    Seq<char>,
>
    decreases pairs.len(),
{
    if pairs.len() == 0 {
        None
    } else if pairs[0].0 == key {
        Some(pairs[0].1)
    } else {
        first_value(pairs.drop_first(), key)
    }
}

/// Find the first query pair with the given key.
fn find_param<'a>(pairs: &'a Vec<(String, String)>, key: &str) -> (r: Option<&'a String>)
    ensures
        match r {
            Some(v) => first_value(pairs.deep_view(), key@) == Some(v@),
            None => first_value(pairs.deep_view(), key@) is None,
        },
{
    let ghost dv = pairs.deep_view();
    proof {
        assert(dv.skip(0) =~= dv);
    }
    let mut i: usize = 0;
    while i < pairs.len()
        invariant
            i <= pairs@.len(),
            dv == pairs.deep_view(),
            dv.len() == pairs@.len(),
            first_value(dv, key@) == first_value(dv.skip(i as int), key@),
        decreases pairs@.len() - i,
    {
        proof {
            assert(dv[i as int] == (pairs@[i as int].0@, pairs@[i as int].1@));
            assert(dv.skip(i as int)[0] == dv[i as int]);
        }
        if str_eq(pairs[i].0.as_str(), key) {
            return Some(&pairs[i].1);
        }
        proof {
            assert(dv.skip(i as int).drop_first() =~= dv.skip(i + 1));
        }
        i = i + 1;
    }
    proof {
        assert(dv.skip(pairs@.len() as int) =~= Seq::<(Seq<char>, Seq<char>)>::empty());
    }
    None
}

/// The relay id a request asks for: the first `relayId` pair, parsed; 0
/// by design when the parameter is absent; nothing when it does not parse.
pub open spec fn relay_id_spec(pairs: Seq<(Seq<char>, Seq<char>)>) -> Option<u8> {
    match first_value(pairs, "relayId"@) {
        Option::None => Option::Some(0u8),
        Option::Some(v) => parse_u8_spec(v),
    }
}

/// The level a request asks for: the first `isActive` pair, parsed;
/// `false` when the parameter is absent; nothing when it does not parse.
pub open spec fn active_spec(pairs: Seq<(Seq<char>, Seq<char>)>) -> Option<bool> {
    match first_value(pairs, "isActive"@) {
        Option::None => Option::Some(false),
        Option::Some(v) => parse_bool_spec(v),
    }
}

/// The answer a toggle request gets, which depends on the bank only
/// through its relay count: an unparseable parameter is refused, an id at
/// or past the count is refused with the out-of-range message, anything
/// else succeeds. `relayId` is validated before `isActive`.
pub open spec fn toggle_response_spec(
    pairs: Seq<(Seq<char>, Seq<char>)>,
    count: int,
) -> ToggleResponse {
    match relay_id_spec(pairs) {
        Option::None => ToggleResponse::InvalidParam,
        Option::Some(id) => if id as int >= count {
            ToggleResponse::OutOfRange
        } else {
            match active_spec(pairs) {
                Option::None => ToggleResponse::InvalidParam,
                Option::Some(value) => ToggleResponse::Success,
            }
        },
    }
}

/// What a toggle request decides, from the query pairs and the bank it
/// found: the response sent back and the bank it leaves behind. Only a
/// successful request mutates, and it drives exactly the requested relay
/// to the requested level.
pub open spec fn toggle_decision(
    pairs: Seq<(Seq<char>, Seq<char>)>,
    bank: Seq<(Seq<char>, bool)>,
) -> (ToggleResponse, Seq<(Seq<char>, bool)>) {
    let resp = toggle_response_spec(pairs, bank.len() as int);
    if resp == ToggleResponse::Success {
        (resp, bank_set(bank, relay_id_spec(pairs).unwrap() as int, active_spec(pairs).unwrap()))
    } else {
        (resp, bank)
    }
}

/// Carry out a toggle request whose query pairs are already split out.
pub fn handle_toggle_params(bank: &mut RelayBank, pairs: &Vec<(String, String)>) -> (resp:
    ToggleResponse)
    ensures
        resp == toggle_decision(pairs.deep_view(), old(bank)@).0,
        final(bank)@ =~= toggle_decision(pairs.deep_view(), old(bank)@).1,
{
    let id: u8 = match find_param(pairs, "relayId") {
        None => 0,
        Some(v) => match parse_u8(v.as_str()) {
            Some(id) => id,
            None => {
                return ToggleResponse::InvalidParam;
            },
        },
    };
    if (id as usize) >= bank.count() {
        return ToggleResponse::OutOfRange;
    }
    let value: bool = match find_param(pairs, "isActive") {
        None => false,
        Some(v) => match parse_bool(v.as_str()) {
            Some(b) => b,
            None => {
                return ToggleResponse::InvalidParam;
            },
        },
    };
    let _ = bank.set_state(id as usize, value);
    ToggleResponse::Success
}

/// The key/value pairs of the query string of a request line, as the `url`
/// crate splits and percent-decodes them; `None` where the line is not a
/// valid URI reference.
pub uninterp spec fn url_query_of(uri: Seq<char>) -> Option<Seq<(Seq<char>, Seq<char>)>>;

/// Relies on url::Url::parse (on the request line behind a fixed
/// scheme-only prefix) and url::Url::query_pairs: both compute from the
/// text alone; parse rejects an invalid URI reference, and query_pairs
/// yields the percent-decoded key/value pairs of the query string, in
/// order.
#[verifier::external_body]
fn parse_query_pairs(uri: &str) -> (r: Option<Vec<(String, String)>>)
    ensures
        (r is Some) == (url_query_of(uri@) is Some),
        r matches Some(pairs) ==> pairs.deep_view() == url_query_of(uri@)->Some_0,
{
    match url::Url::parse(format!("http:///{}", uri).as_str()) {
        Ok(u) => Some(u.query_pairs().map(|(k, v)| (k.into_owned(), v.into_owned())).collect()),
        Err(_) => None,
    }
}

/// Carry out a toggle request from its raw request line: split the query
/// string, then decide as [`toggle_decision`] says. A request line that is
/// no valid URI is a validation failure like any other: 400, nothing
/// mutated.
pub fn handle_toggle(bank: &mut RelayBank, uri: &str) -> (resp: ToggleResponse)
    ensures
        url_query_of(uri@) is None ==> resp == ToggleResponse::InvalidParam && final(bank)@ =~= old(
            bank,
        )@,
        url_query_of(uri@) matches Some(pairs) ==> resp == toggle_decision(pairs, old(bank)@).0
            && final(bank)@ =~= toggle_decision(pairs, old(bank)@).1,
{
    match parse_query_pairs(uri) {
        None => ToggleResponse::InvalidParam,
        Some(pairs) => handle_toggle_params(bank, &pairs),
    }
}

/// Out-of-range rejection: whenever the request names a `relayId` that
/// parses to an id at or past the relay count, the answer is 400 with the
/// out-of-range body and the bank is left exactly as it was — whatever
/// `isActive` says.
pub proof fn lemma_out_of_range_rejected(
    pairs: Seq<(Seq<char>, Seq<char>)>,
    bank: Seq<(Seq<char>, bool)>,
    v: Seq<char>,
    id: u8,
)
    requires
        first_value(pairs, "relayId"@) == Some(v),
        parse_u8_spec(v) == Some(id),
        id as int >= bank.len(),
    ensures
        toggle_decision(pairs, bank).0 == ToggleResponse::OutOfRange,
        toggle_decision(pairs, bank).1 == bank,
        status_spec(toggle_decision(pairs, bank).0) == 400,
        body_spec(toggle_decision(pairs, bank).0) == "Relay ID is out of range"@,
{
}

} // verus!
