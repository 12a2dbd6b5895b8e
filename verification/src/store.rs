//! Planning the write of a [`KeyValue`]: its storage key, the JSON text of
//! its value, and how long it lives.

use crate::duration_helper::{conversion, spec_calc, unit_for, DurationHelper, TimeUnit};
use crate::terms::{
    count_chars, decimal_value, law_term_is_count_times_unit, seconds_in, unit_chars,
};
use crate::text::{digit_value, is_decimal_digit, lowercase_chars};
use crate::time_delta::representable;
use crate::kv::KeyValue;
use crate::text::push_char;
use vstd::prelude::*;
use vstd::string::*;

verus! {

/// The lifetime of a record without metadata: one day, in seconds.
pub const DEFAULT_EXPIRATION: u64 = 86400;

/// A text write into the KV namespace.
pub struct PutText {
    pub key: String,
    pub value: String,
    /// Seconds until the record expires.
    pub expiration_ttl: u64,
}

/// The character of a decimal digit.
pub open spec fn digit_char(d: nat) -> char {
    seq!['0', '1', '2', '3', '4', '5', '6', '7', '8', '9'][d as int]
}

/// The decimal text of a number, without leading zeros.
pub open spec fn decimal(n: nat) -> Seq<char>
    decreases n,
{
    if n < 10 {
        seq![digit_char(n)]
    } else {
        decimal(n / 10).push(digit_char(n % 10))
    }
}

/// The storage key of record `key`: `/kv/` followed by the number.
pub open spec fn record_path(key: u32) -> Seq<char> {
    "/kv/"@ + decimal(key as nat)
}

/// A hexadecimal digit, lowercase.
pub open spec fn hex_char(d: int) -> char {
    if d < 10 {
        (('0' as int) + d) as char
    } else {
        (('a' as int) + d - 10) as char
    }
}

/// How serde_json writes one character inside a JSON string: `"` and `\`
/// and the control characters below U+0020 are escaped (`\b \t \n \f \r`
/// by name, the others as `\u00XX`); every other character is written as is.
pub open spec fn json_escape(c: char) -> Seq<char> {
    if c == '"' {
        seq!['\\', '"']
    } else if c == '\\' {
        seq!['\\', '\\']
    } else if c == '\u{8}' {
        seq!['\\', 'b']
    } else if c == '\t' {
        seq!['\\', 't']
    } else if c == '\n' {
        seq!['\\', 'n']
    } else if c == '\u{c}' {
        seq!['\\', 'f']
    } else if c == '\r' {
        seq!['\\', 'r']
    } else if (c as int) < 32 {
        seq!['\\', 'u', '0', '0', hex_char((c as int) / 16), hex_char((c as int) % 16)]
    } else {
        seq![c]
    }
}

/// The characters of a string, each written as [`json_escape`] does.
pub open spec fn json_escaped(s: Seq<char>) -> Seq<char>
    decreases s.len(),
{
    if s.len() == 0 {
        Seq::empty()
    } else {
        json_escape(s[0]) + json_escaped(s.drop_first())
    }
}

/// What `serde_json::to_string` writes for a string: the escaped characters
/// between double quotes.
pub open spec fn json_text(s: Seq<char>) -> Seq<char> {
    seq!['"'] + json_escaped(s) + seq!['"']
}

/// The value of a hexadecimal digit.
pub open spec fn hex_value(c: char) -> int {
    if '0' <= c && c <= '9' {
        (c as int) - ('0' as int)
    } else {
        (c as int) - ('a' as int) + 10
    }
}

/// The character that a two-character JSON escape `\x` stands for.
pub open spec fn unescape_code(x: char) -> char {
    if x == 'b' {
        '\u{8}'
    } else if x == 't' {
        '\t'
    } else if x == 'n' {
        '\n'
    } else if x == 'f' {
        '\u{c}'
    } else if x == 'r' {
        '\r'
    } else {
        x
    }
}

/// How a JSON reader reads the characters between the quotes of a JSON
/// string: `\x` and `\u00XX` escapes stand for one character each, every
/// other character for itself.
pub open spec fn json_unescape(t: Seq<char>) -> Seq<char>
    decreases t.len(),
{
    if t.len() == 0 {
        Seq::empty()
    } else if t[0] != '\\' || t.len() < 2 {
        seq![t[0]] + json_unescape(t.drop_first())
    } else if t[1] == 'u' && t.len() >= 6 {
        seq![(hex_value(t[4]) * 16 + hex_value(t[5])) as char] + json_unescape(t.skip(6))
    } else {
        seq![unescape_code(t[1])] + json_unescape(t.skip(2))
    }
}

proof fn lemma_unescape_one(c: char, t: Seq<char>)
    ensures
        json_unescape(json_escape(c) + t) == seq![c] + json_unescape(t),
{
    let e = json_escape(c);
    let w = e + t;
    if e.len() == 1 {
        assert(w.drop_first() =~= t);
    } else if e.len() == 2 {
        assert(w.skip(2) =~= t);
    } else {
        assert(w.skip(6) =~= t);
        let v = c as int;
        assert(0 <= v < 32);
        assert(v / 16 == 0 || v / 16 == 1);
        assert(hex_value(w[4]) == v / 16);
        assert(0 <= v % 16 < 16);
        assert(hex_value(w[5]) == v % 16);
        assert(hex_value(w[4]) * 16 + hex_value(w[5]) == v);
        assert((v as char) == c);
    }
}

proof fn lemma_unescape_all(s: Seq<char>)
    ensures
        json_unescape(json_escaped(s)) == s,
    decreases s.len(),
{
    if s.len() > 0 {
        lemma_unescape_all(s.drop_first());
        lemma_unescape_one(s[0], json_escaped(s.drop_first()));
        assert(seq![s[0]] + s.drop_first() =~= s);
    }
}

/// A stored value survives its JSON encoding: reading back the text between
/// the quotes that `serde_json::to_string` writes gives the value again, so
/// two different values never share a stored text.
pub proof fn law_json_text_reads_back(s: Seq<char>, other: Seq<char>)
    ensures
        json_text(s).len() >= 2,
        json_text(s)[0] == '"',
        json_text(s)[json_text(s).len() - 1] == '"',
        json_unescape(json_text(s).subrange(1, json_text(s).len() - 1)) == s,
        json_text(s) == json_text(other) ==> s == other,
{
    let t = json_text(s);
    assert(t.subrange(1, t.len() - 1) =~= json_escaped(s));
    lemma_unescape_all(s);
    let u = json_text(other);
    assert(u.subrange(1, u.len() - 1) =~= json_escaped(other));
    lemma_unescape_all(other);
}

#[verifier::external_type_specification]
#[verifier::external_body]
pub struct ExJsonError(serde_json::Error);

/// `serde_json::to_string` on a `String`: the source (`format_escaped_str`
/// with its `ESCAPE` table) writes the string as [`json_text`] says into a
/// `Vec<u8>`, which cannot fail, so the result is always `Ok`.
#[verifier::external_body]
fn json_string(s: &String) -> (r: Result<String, serde_json::Error>)
    ensures
        r is Ok,
        r matches Ok(t) ==> t@ == json_text(s@),
{
    serde_json::to_string(s)
}

/// The `Debug` text of a `serde_json::Error`; nothing is stated of it.
#[verifier::external_body]
fn json_error_text(e: &serde_json::Error) -> String {
    format!("{:?}", e)
}

/// Append the decimal text of `n`.
fn push_decimal(s: &mut String, n: u32)
    ensures
        final(s)@ == old(s)@ + decimal(n as nat),
    decreases n,
{
    let digits = ['0', '1', '2', '3', '4', '5', '6', '7', '8', '9'];
    if n >= 10 {
        push_decimal(s, n / 10);
    }
    let d = digits[(n % 10) as usize];
    assert(d == digit_char((n % 10) as nat));
    push_char(s, d);
    proof {
        if n < 10 {
            assert(decimal(n as nat) =~= seq![d]);
        }
    }
    assert(final(s)@ =~= old(s)@ + decimal(n as nat)) by {
        if n >= 10 {
            assert(decimal(n as nat) == decimal((n / 10) as nat).push(d));
        }
    }
}

proof fn lemma_decimal_spells(n: nat)
    ensures
        count_chars(decimal(n)),
        decimal_value(decimal(n)) == n,
        decimal(n).len() >= 1,
        n >= 10 ==> decimal(n)[0] != '0',
        n < 10 ==> decimal(n).len() == 1,
    decreases n,
{
    let d = digit_char(n % 10);
    assert(0 <= n % 10 < 10);
    assert('0' <= d && d <= '9' && digit_value(d) == n % 10) by {
        let k = n % 10;
        if k == 0 {} else if k == 1 {} else if k == 2 {} else if k == 3 {} else if k == 4 {}
        else if k == 5 {} else if k == 6 {} else if k == 7 {} else if k == 8 {} else {}
    }
    if n < 10 {
        let s = decimal(n);
        assert(s =~= seq![d]);
        assert(s.drop_last() =~= Seq::<char>::empty());
        assert(s.last() == d);
        assert(decimal_value(s) == decimal_value(s.drop_last()) * 10 + digit_value(d));
        assert(count_chars(s));
    } else {
        lemma_decimal_spells(n / 10);
        let p = decimal(n / 10);
        let s = decimal(n);
        assert(s == p.push(d));
        assert(s.drop_last() =~= p);
        assert(s.last() == d);
        assert(decimal_value(s) == decimal_value(p) * 10 + digit_value(d));
        assert((n / 10) * 10 + n % 10 == n);
        assert(s[0] == p[0]);
        assert(count_chars(s)) by {
            assert forall|i: int| 0 <= i < s.len() implies is_decimal_digit(#[trigger] s[i]) by {
                if i < p.len() {
                    assert(s[i] == p[i]);
                }
            }
        }
        if n / 10 < 10 {
            assert(n / 10 >= 1);
            assert(p == seq![digit_char(n / 10)]);
            assert(p[0] != '0') by {
                let k = n / 10;
                if k == 1 {} else if k == 2 {} else if k == 3 {} else if k == 4 {} else if k == 5 {}
                else if k == 6 {} else if k == 7 {} else if k == 8 {} else {}
            }
        }
    }
}

/// The key of record `key` is `/kv/` followed by the decimal digits that
/// spell `key`, without leading zeros.
pub proof fn law_record_path_spells_key(key: u32)
    ensures
        record_path(key).len() >= 5,
        record_path(key).take(4) == seq!['/', 'k', 'v', '/'],
        count_chars(record_path(key).skip(4)),
        decimal_value(record_path(key).skip(4)) == key,
        record_path(key).len() > 5 ==> record_path(key)[4] != '0',
{
    reveal_strlit("/kv/");
    lemma_decimal_spells(key as nat);
    let r = record_path(key);
    assert(r.take(4) =~= seq!['/', 'k', 'v', '/']);
    assert(r.skip(4) =~= decimal(key as nat));
}

/// The storage key of record `key`, e.g. `/kv/42`.
pub fn kv_path(key: u32) -> (r: String)
    ensures
        r@ == record_path(key),
{
    let mut s = String::from_str("/kv/");
    push_decimal(&mut s, key);
    s
}

/// The expiration that a record asks for:
/// one day without metadata, else the seconds that the metadata's
/// expiration text stands for (cast to `u64`, so a negative duration wraps).
pub open spec fn expiration_spec(kv: KeyValue) -> Option<Result<u64, Seq<char>>> {
    match kv.metadata {
        None => Some(Ok(86400u64)),
        Some(m) => match conversion(m.expiration@) {
            None => None,
            Some(Ok(secs)) => Some(Ok(secs as u64)),
            Some(Err(msg)) => Some(Err("invalid expiration: "@ + msg)),
        },
    }
}

/// A record lives exactly as long as its metadata's expiration text says:
/// one day (24 hours) without metadata; else the seconds that the text
/// converts to, cast to `u64` and not clamped; a text that is not a duration
/// gives "invalid expiration: " and the conversion's message; a text whose
/// conversion overflows gives nothing.
pub proof fn law_expiration_is_converted_text(kv: KeyValue)
    ensures
        kv.metadata is None ==> expiration_spec(kv) == Some(Ok::<u64, Seq<char>>((24 * 60 * 60) as u64)),
        kv.metadata matches Some(m) ==> match conversion(m.expiration@) {
            Some(Ok(secs)) => expiration_spec(kv) == Some(Ok::<u64, Seq<char>>(secs as u64)),
            Some(Err(msg)) => expiration_spec(kv) == Some(
                Err::<u64, Seq<char>>("invalid expiration: "@ + msg),
            ),
            None => expiration_spec(kv) is None,
        },
{
}

/// A record whose expiration is one term (a count `d` and a unit name `u`)
/// lives the count times the seconds of that unit: `1yr` is 52 weeks, `2d`
/// two days, whatever the case of the unit name.
pub proof fn law_expiration_of_term(
    kv: KeyValue,
    d: Seq<char>,
    u: Seq<char>,
    unit: TimeUnit,
)
    requires
        kv.metadata matches Some(m) && m.expiration@ == d + u,
        count_chars(d),
        unit_chars(u),
        u.len() != 0,
        unit_for(lowercase_chars(u)) == Some(unit),
        decimal_value(d) <= i64::MAX,
        representable(decimal_value(d) * seconds_in(unit)),
    ensures
        expiration_spec(kv) == Some(
            Ok::<u64, Seq<char>>((decimal_value(d) * seconds_in(unit)) as u64),
        ),
{
    law_term_is_count_times_unit(d, u);
    law_expiration_is_converted_text(kv);
}

/// Whether reading the record's expiration would overflow.
pub open spec fn expiration_overflows(kv: KeyValue) -> bool {
    kv.metadata matches Some(m) && spec_calc(m.expiration@) is Panic
}

/// The expiration of a record in seconds: one day without metadata, else
/// the metadata's expiration text converted; a text that is not a duration
/// gives the message "invalid expiration: ..." for a 400 answer.
pub fn expiration_of(kv: &KeyValue) -> (r: Result<u64, String>)
    requires
        !expiration_overflows(*kv),
    ensures
        expiration_spec(*kv) matches Some(e) && match e {
            Ok(secs) => r == Ok::<u64, String>(secs),
            Err(msg) => r matches Err(m) && m@ == msg,
        },
{
    match &kv.metadata {
        Some(metadata) => match DurationHelper::convert(metadata.expiration.as_str()) {
            Ok(f) => Ok(f as u64),
            Err(e) => Err(String::from_str("invalid expiration: ").concat(e.as_str())),
        },
        None => Ok(DEFAULT_EXPIRATION),
    }
}

/// The write that storing `kv` makes: key `/kv/<key>`, the value as a JSON
/// string literal, and the record's expiration; or the message of a 400
/// answer when the expiration is not a duration.
pub fn plan_store(kv: &KeyValue) -> (r: Result<PutText, String>)
    requires
        !expiration_overflows(*kv),
    ensures
        expiration_spec(*kv) matches Some(e) && match e {
            Ok(secs) => r matches Ok(p) && p.key@ == record_path(kv.key) && p.value@ == json_text(
                kv.value@,
            ) && p.expiration_ttl == secs,
            Err(msg) => r matches Err(m) && m@ == msg,
        },
{
    let expiration = match expiration_of(kv) {
        Ok(e) => e,
        Err(msg) => return Err(msg),
    };
    let value = match json_string(&kv.value) {
        Ok(v) => v,
        Err(e) => {
            let text = json_error_text(&e);
            return Err(
                String::from_str("POST json KeyValue serialization error: ").concat(text.as_str()),
            );
        },
    };
    Ok(PutText { key: kv_path(kv.key), value, expiration_ttl: expiration })
}

/// [`plan_store`] where it is defined: `None` when reading the record's
/// expiration would overflow.
pub fn plan_store_checked(kv: &KeyValue) -> (r: Option<Result<PutText, String>>)
    ensures
        r is None <==> expiration_overflows(*kv),
        expiration_spec(*kv) matches Some(e) ==> (r matches Some(p) && match e {
            Ok(secs) => p matches Ok(p) && p.key@ == record_path(kv.key) && p.value@ == json_text(
                kv.value@,
            ) && p.expiration_ttl == secs,
            Err(msg) => p matches Err(m) && m@ == msg,
        }),
{
    match &kv.metadata {
        Some(metadata) => {
            if DurationHelper::would_panic(metadata.expiration.as_str()) {
                return None;
            }
        },
        None => {},
    }
    Some(plan_store(kv))
}

} // verus!
