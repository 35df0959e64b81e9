//! Identifier newtypes shared by every service.

use vstd::prelude::*;
use crate::text::hex_digit;

verus! {

/// Unique identifier for a user. This and the other UUID identifiers hold
/// the 128-bit value of the UUID: its sixteen bytes read big-endian, as
/// `uuid::Uuid::as_u128` gives it.
#[derive(Debug, Clone, PartialEq, Eq, Hash)]
pub struct UserId(pub u128);

/// Unique identifier for a session.
#[derive(Debug, Clone, PartialEq, Eq, Hash)]
pub struct SessionId(pub u128);

/// Opaque session token.
#[derive(Debug, Clone, PartialEq, Eq, Hash)]
pub struct SessionToken(pub String);

/// Unique identifier for a file or directory node.
#[derive(Debug, Clone, PartialEq, Eq, Hash)]
pub struct FileId(pub u128);

/// Unique identifier for an installed app.
#[derive(Debug, Clone, PartialEq, Eq, Hash)]
pub struct AppId(pub String);

/// Unique identifier for an app instance.
#[derive(Debug, Clone, PartialEq, Eq, Hash)]
pub struct AppInstanceId(pub u128);

/// Unique identifier for a settings namespace key.
#[derive(Debug, Clone, PartialEq, Eq, Hash)]
pub struct SettingsNamespaceId(pub String);

/// Unique identifier for a notification.
#[derive(Debug, Clone, PartialEq, Eq, Hash)]
pub struct NotificationId(pub u128);

/// What parsing `s` as a UUID gives: its 128-bit value, or the text of the
/// parse error.
pub uninterp spec fn uuid_parse_result(s: Seq<char>) -> Result<u128, Seq<char>>;

/// Calls `uuid::Uuid::parse_str` and takes the value of the UUID with
/// `as_u128`; the outcome is named `uuid_parse_result` of the input. Text
/// in the lower-case hyphenated shape parses, to the value whose
/// hyphenated text it is.
#[verifier::external_body]
pub(crate) fn parse_uuid(s: &str) -> (r: Result<u128, String>)
    ensures
        match r {
            Ok(v) => uuid_parse_result(s@) == Ok::<u128, Seq<char>>(v),
            Err(m) => uuid_parse_result(s@) == Err::<u128, Seq<char>>(m@),
        },
        is_hyphenated_uuid(s@) ==> r is Ok && uuid_hyphenated(r->Ok_0) == s@,
{
    uuid::Uuid::parse_str(s).map(|u| u.as_u128()).map_err(|e| e.to_string())
}

/// Calls `uuid::Uuid::now_v7` and takes its value: a fresh identifier from
/// the clock and a random source, of which nothing is stated.
#[verifier::external_body]
pub(crate) fn new_uuid_v7() -> (r: u128) {
    uuid::Uuid::now_v7().as_u128()
}

/// The last `n` hex digits of `v`, most significant first, in lower case.
pub open spec fn hex_digits(v: nat, n: nat) -> Seq<char>
    decreases n,
{
    if n == 0 {
        Seq::empty()
    } else {
        hex_digits(v / 16, (n - 1) as nat).push(hex_digit(v % 16))
    }
}

/// The hyphenated text of the UUID with value `v`: its 32 hex digits in
/// groups of 8-4-4-4-12.
pub open spec fn uuid_hyphenated(v: u128) -> Seq<char> {
    let h = hex_digits(v as nat, 32);
    h.subrange(0, 8) + seq!['-'] + h.subrange(8, 12) + seq!['-'] + h.subrange(12, 16) + seq!['-']
        + h.subrange(16, 20) + seq!['-'] + h.subrange(20, 32)
}

/// The shape of a UUID's hyphenated text: 36 characters, a hyphen at
/// positions 8, 13, 18 and 23 and a lower-case hex digit everywhere else.
pub open spec fn is_hyphenated_uuid(s: Seq<char>) -> bool {
    &&& s.len() == 36
    &&& forall|i: int| 0 <= i < 36 ==> if i == 8 || i == 13 || i == 18 || i == 23 {
        s[i] == '-'
    } else {
        ('0' <= #[trigger] s[i] <= '9') || ('a' <= s[i] <= 'f')
    }
}

/// A lower-case hex digit.
pub open spec fn is_lower_hex(c: char) -> bool {
    ('0' <= c <= '9') || ('a' <= c <= 'f')
}

proof fn lemma_hex_digits_shape(v: nat, n: nat)
    ensures
        hex_digits(v, n).len() == n,
        forall|i: int| 0 <= i < n ==> is_lower_hex(#[trigger] hex_digits(v, n)[i]),
    decreases n,
{
    if n > 0 {
        lemma_hex_digits_shape(v / 16, (n - 1) as nat);
        let d = v % 16;
        assert(d < 16);
        assert(is_lower_hex(hex_digit(d)));
        let h = hex_digits(v, n);
        assert forall|i: int| 0 <= i < n implies is_lower_hex(#[trigger] h[i]) by {
            if i < n - 1 {
                assert(h[i] == hex_digits(v / 16, (n - 1) as nat)[i]);
            }
        }
    }
}

/// The hyphenated text of every value has the hyphenated shape.
pub proof fn lemma_uuid_hyphenated_shape(v: u128)
    ensures
        is_hyphenated_uuid(uuid_hyphenated(v)),
{
    let h = hex_digits(v as nat, 32);
    lemma_hex_digits_shape(v as nat, 32);
    let t = uuid_hyphenated(v);
    assert(t.len() == 36);
    assert forall|i: int| 0 <= i < 36 implies if i == 8 || i == 13 || i == 18 || i == 23 {
        t[i] == '-'
    } else {
        ('0' <= #[trigger] t[i] <= '9') || ('a' <= t[i] <= 'f')
    } by {
        if i < 8 {
            assert(t[i] == h[i]);
        } else if 8 < i < 13 {
            assert(t[i] == h[i - 1]);
        } else if 13 < i < 18 {
            assert(t[i] == h[i - 2]);
        } else if 18 < i < 23 {
            assert(t[i] == h[i - 3]);
        } else if 23 < i {
            assert(t[i] == h[i - 4]);
        }
    }
}

/// Sixteen to the power `n`.
pub open spec fn pow16(n: nat) -> nat
    decreases n,
{
    if n == 0 {
        1
    } else {
        16 * pow16((n - 1) as nat)
    }
}

proof fn lemma_hex_digit_injective(a: nat, b: nat)
    requires
        a < 16,
        b < 16,
        hex_digit(a) == hex_digit(b),
    ensures
        a == b,
{
}

proof fn lemma_hex_digits_injective(a: nat, b: nat, n: nat)
    requires
        hex_digits(a, n) == hex_digits(b, n),
    ensures
        a % pow16(n) == b % pow16(n),
    decreases n,
{
    if n > 0 {
        let ha = hex_digits(a, n);
        let hb = hex_digits(b, n);
        lemma_hex_digits_shape(a / 16, (n - 1) as nat);
        lemma_hex_digits_shape(b / 16, (n - 1) as nat);
        assert(ha.last() == hex_digit(a % 16));
        assert(hb.last() == hex_digit(b % 16));
        lemma_hex_digit_injective(a % 16, b % 16);
        assert(ha.drop_last() =~= hex_digits(a / 16, (n - 1) as nat));
        assert(hb.drop_last() =~= hex_digits(b / 16, (n - 1) as nat));
        lemma_hex_digits_injective(a / 16, b / 16, (n - 1) as nat);
        let p = pow16((n - 1) as nat);
        assert(p > 0) by {
            lemma_pow16_positive((n - 1) as nat);
        }
        vstd::arithmetic::div_mod::lemma_mod_breakdown(a as int, 16, p as int);
        vstd::arithmetic::div_mod::lemma_mod_breakdown(b as int, 16, p as int);
    }
}

proof fn lemma_pow16_positive(n: nat)
    ensures
        pow16(n) > 0,
    decreases n,
{
    if n > 0 {
        lemma_pow16_positive((n - 1) as nat);
    }
}

/// Distinct values have distinct hyphenated texts, so the text names one
/// value.
pub proof fn lemma_uuid_hyphenated_injective(a: u128, b: u128)
    requires
        uuid_hyphenated(a) == uuid_hyphenated(b),
    ensures
        a == b,
{
    let ha = hex_digits(a as nat, 32);
    let hb = hex_digits(b as nat, 32);
    lemma_hex_digits_shape(a as nat, 32);
    lemma_hex_digits_shape(b as nat, 32);
    let t = uuid_hyphenated(a);
    assert forall|i: int| 0 <= i < 32 implies ha[i] == hb[i] by {
        if i < 8 {
            assert(t[i] == ha[i] && uuid_hyphenated(b)[i] == hb[i]);
        } else if i < 12 {
            assert(t[i + 1] == ha[i] && uuid_hyphenated(b)[i + 1] == hb[i]);
        } else if i < 16 {
            assert(t[i + 2] == ha[i] && uuid_hyphenated(b)[i + 2] == hb[i]);
        } else if i < 20 {
            assert(t[i + 3] == ha[i] && uuid_hyphenated(b)[i + 3] == hb[i]);
        } else {
            assert(t[i + 4] == ha[i] && uuid_hyphenated(b)[i + 4] == hb[i]);
        }
    }
    assert(ha =~= hb);
    lemma_hex_digits_injective(a as nat, b as nat, 32);
    reveal_with_fuel(pow16, 33);
    assert(pow16(32) == 0x1_0000_0000_0000_0000_0000_0000_0000_0000nat);
    vstd::arithmetic::div_mod::lemma_small_mod(a as nat, pow16(32));
    vstd::arithmetic::div_mod::lemma_small_mod(b as nat, pow16(32));
}

/// Calls `uuid::Uuid::from_u128` and `to_string`, which writes the
/// hyphenated form in lower case: `uuid_hyphenated` of the value.
#[verifier::external_body]
pub(crate) fn uuid_text(v: u128) -> (r: String)
    ensures
        r@ == uuid_hyphenated(v),
{
    uuid::Uuid::from_u128(v).to_string()
}

/// ISO 8601 datetime string used in all API contracts.
pub type Timestamp = String;

} // verus!
