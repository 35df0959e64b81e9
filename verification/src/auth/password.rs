//! Password hashing: salted SHA-256 digests stored as `{salt}${hex_hash}`,
//! hex encoding, and constant-time comparison.

use vstd::prelude::*;
use vstd::utf8::encode_utf8;
use crate::text::hex_digit;

verus! {

/// The SHA-256 digest of `data`.
pub uninterp spec fn sha256_digest(data: Seq<u8>) -> Seq<u8>;

/// Calls `sha2::Sha256::digest`; the result is named `sha256_digest` of the
/// input bytes (the digest is a function of the input alone).
#[verifier::external_body]
fn sha256(data: &[u8]) -> (r: Vec<u8>)
    ensures
        r@ == sha256_digest(data@),
{
    <sha2::Sha256 as sha2::Digest>::digest(data).to_vec()
}

/// Calls `uuid::Uuid::now_v7` and returns its 16 bytes. The value depends on
/// the clock and a random source: nothing is stated of it but its length.
#[verifier::external_body]
fn uuid_v7_bytes() -> (r: Vec<u8>)
    ensures
        r@.len() == 16,
{
    uuid::Uuid::now_v7().as_bytes().to_vec()
}

/// Each byte as two lowercase hex digits, high nibble first.
pub open spec fn hex_of(bytes: Seq<u8>) -> Seq<char>
    decreases bytes.len(),
{
    if bytes.len() == 0 {
        Seq::empty()
    } else {
        hex_of(bytes.drop_last()) + seq![
            hex_digit((bytes.last() / 16) as nat),
            hex_digit((bytes.last() % 16) as nat),
        ]
    }
}

/// `s` holds no `'$'`.
pub open spec fn dollar_free(s: Seq<char>) -> bool {
    forall|i: int| 0 <= i < s.len() ==> s[i] != '$'
}

/// The stored form of a password hash: salt, `'$'`, hash.
pub open spec fn stored_form(salt: Seq<char>, hash: Seq<char>) -> Seq<char> {
    salt + seq!['$'] + hash
}

/// The hex SHA-256 of the salt's bytes followed by the password's bytes.
pub open spec fn salted_hash(salt: Seq<char>, password: Seq<char>) -> Seq<char> {
    hex_of(sha256_digest(encode_utf8(salt) + encode_utf8(password)))
}

/// `plaintext` matches `stored`: `stored` splits at its first `'$'` into a
/// salt and a hash, and the hash is the salted hash of `plaintext`.
pub open spec fn password_matches(stored: Seq<char>, plaintext: Seq<char>) -> bool {
    exists|i: int|
        #![trigger stored[i]]
        0 <= i < stored.len() && stored[i] == '$' && dollar_free(stored.take(i))
            && stored.skip(i + 1) == salted_hash(stored.take(i), plaintext)
}

/// Hex encoding has two characters per byte, none of them `'$'`.
pub proof fn lemma_hex_shape(bytes: Seq<u8>)
    ensures
        hex_of(bytes).len() == 2 * bytes.len(),
        dollar_free(hex_of(bytes)),
    decreases bytes.len(),
{
    if bytes.len() > 0 {
        lemma_hex_shape(bytes.drop_last());
        let h = hex_of(bytes);
        let p = hex_of(bytes.drop_last());
        assert forall|i: int| 0 <= i < h.len() implies h[i] != '$' by {
            if i < p.len() {
                assert(h[i] == p[i]);
            }
        }
    }
}

fn hex_str(d: u8) -> (r: &'static str)
    requires
        d < 16,
    ensures
        r@ == seq![hex_digit(d as nat)],
{
    proof {
        reveal_strlit("0");
        reveal_strlit("1");
        reveal_strlit("2");
        reveal_strlit("3");
        reveal_strlit("4");
        reveal_strlit("5");
        reveal_strlit("6");
        reveal_strlit("7");
        reveal_strlit("8");
        reveal_strlit("9");
        reveal_strlit("a");
        reveal_strlit("b");
        reveal_strlit("c");
        reveal_strlit("d");
        reveal_strlit("e");
        reveal_strlit("f");
    }
    if d == 0 { "0" }
    else if d == 1 { "1" }
    else if d == 2 { "2" }
    else if d == 3 { "3" }
    else if d == 4 { "4" }
    else if d == 5 { "5" }
    else if d == 6 { "6" }
    else if d == 7 { "7" }
    else if d == 8 { "8" }
    else if d == 9 { "9" }
    else if d == 10 { "a" }
    else if d == 11 { "b" }
    else if d == 12 { "c" }
    else if d == 13 { "d" }
    else if d == 14 { "e" }
    else { "f" }
}

/// Encode `data` as a lowercase hex string.
pub fn hex_encode(data: &[u8]) -> (r: String)
    ensures
        r@ == hex_of(data@),
{
    let mut s = String::new();
    let mut i: usize = 0;
    while i < data.len()
        invariant
            i <= data@.len(),
            s@ == hex_of(data@.take(i as int)),
        decreases data.len() - i,
    {
        let b = data[i];
        proof {
            assert(data@.take(i + 1).drop_last() =~= data@.take(i as int));
            assert(data@.take(i + 1).last() == b);
        }
        s.append(hex_str(b / 16));
        s.append(hex_str(b % 16));
        i = i + 1;
    }
    assert(data@.take(data@.len() as int) =~= data@);
    s
}

/// Constant-time byte comparison: every position is examined whatever the
/// contents.
pub fn constant_time_eq(a: &[u8], b: &[u8]) -> (r: bool)
    ensures
        r == (a@ == b@),
{
    if a.len() != b.len() {
        return false;
    }
    let mut result: u8 = 0;
    let mut i: usize = 0;
    while i < a.len()
        invariant
            a@.len() == b@.len(),
            i <= a@.len(),
            (result == 0) <==> (forall|j: int| 0 <= j < i ==> a@[j] == b@[j]),
        decreases a.len() - i,
    {
        let x = a[i];
        let y = b[i];
        let old_result = result;
        result = result | (x ^ y);
        assert((old_result | (x ^ y)) == 0 <==> (old_result == 0 && x == y)) by (bit_vector);
        i = i + 1;
    }
    assert(result == 0 ==> a@ =~= b@);
    result == 0
}

/// Generate a random 32-byte salt, as 64 lowercase hex digits.
pub fn generate_salt() -> (r: String)
    ensures
        r@.len() == 64,
        dollar_free(r@),
{
    let mut bytes = uuid_v7_bytes();
    let mut second = uuid_v7_bytes();
    bytes.append(&mut second);
    let s = hex_encode(bytes.as_slice());
    proof {
        lemma_hex_shape(bytes@);
    }
    s
}

fn concat_bytes(a: &[u8], b: &[u8]) -> (r: Vec<u8>)
    ensures
        r@ == a@ + b@,
{
    let mut v: Vec<u8> = Vec::new();
    let mut i: usize = 0;
    while i < a.len()
        invariant
            i <= a@.len(),
            v@ == a@.take(i as int),
        decreases a.len() - i,
    {
        v.push(a[i]);
        assert(a@.take(i + 1) =~= a@.take(i as int).push(a@[i as int]));
        i = i + 1;
    }
    let mut j: usize = 0;
    while j < b.len()
        invariant
            j <= b@.len(),
            v@ == a@ + b@.take(j as int),
        decreases b.len() - j,
    {
        v.push(b[j]);
        assert(b@.take(j + 1) =~= b@.take(j as int).push(b@[j as int]));
        j = j + 1;
    }
    assert(a@.take(a@.len() as int) =~= a@);
    assert(b@.take(b@.len() as int) =~= b@);
    v
}

/// Hash `salt + password` with SHA-256 and return the hex digest.
pub fn hash_password(salt: &str, password: &str) -> (r: String)
    ensures
        r@ == salted_hash(salt@, password@),
{
    let data = concat_bytes(salt.as_bytes(), password.as_bytes());
    let digest = sha256(data.as_slice());
    hex_encode(digest.as_slice())
}

/// Build the stored hash string: `{salt}${hash}`.
pub fn encode_stored_hash(salt: &str, hash: &str) -> (r: String)
    ensures
        r@ == stored_form(salt@, hash@),
{
    proof {
        reveal_strlit("$");
    }
    let mut s = String::from_str(salt);
    s.append("$");
    s.append(hash);
    s
}

proof fn lemma_utf8_injective(a: Seq<char>, b: Seq<char>)
    ensures
        (encode_utf8(a) == encode_utf8(b)) == (a == b),
{
    vstd::utf8::encode_utf8_decode_utf8(a);
    vstd::utf8::encode_utf8_decode_utf8(b);
}

/// Verify a plaintext password against a stored `{salt}${hash}` value.
pub fn verify_password(stored: &str, plaintext: &str) -> (r: bool)
    ensures
        r == password_matches(stored@, plaintext@),
{
    let n = stored.unicode_len();
    let mut i: usize = 0;
    while i < n && stored.get_char(i) != '$'
        invariant
            n == stored@.len(),
            i <= n,
            forall|j: int| 0 <= j < i ==> stored@[j] != '$',
        decreases n - i,
    {
        i = i + 1;
    }
    if i == n {
        assert forall|k: int| 0 <= k < stored@.len() && stored@[k] == '$' implies false by {}
        return false;
    }
    let salt = stored.substring_char(0, i);
    let expected = stored.substring_char(i + 1, n);
    let candidate = hash_password(salt, plaintext);
    let r = constant_time_eq(expected.as_bytes(), candidate.as_str().as_bytes());
    proof {
        lemma_utf8_injective(expected@, candidate@);
        assert(salt@ =~= stored@.take(i as int));
        assert(expected@ =~= stored@.skip(i + 1));
        assert forall|k: int|
            #![trigger stored@[k]]
            0 <= k < stored@.len() && stored@[k] == '$' && dollar_free(stored@.take(k)) implies k
            == i by {
            if k < i {
            } else if k > i {
                assert(stored@.take(k)[i as int] == '$');
            }
        }
    }
    r
}

/// A stored hash built from a `'$'`-free salt and the salted hash of a
/// password verifies against that password.
pub proof fn lemma_stored_hash_verifies(salt: Seq<char>, password: Seq<char>)
    requires
        dollar_free(salt),
    ensures
        password_matches(stored_form(salt, salted_hash(salt, password)), password),
{
    let stored = stored_form(salt, salted_hash(salt, password));
    let i = salt.len() as int;
    assert(stored[i] == '$');
    assert(stored.take(i) =~= salt);
    assert(stored.skip(i + 1) =~= salted_hash(salt, password));
}

} // verus!
