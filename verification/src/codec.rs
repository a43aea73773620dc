//! Wire codec: the compact JSON form of the request body and the envelope,
//! and the parser for the device's response document.
//!
//! The writer produces exactly the compact JSON that the devices expect:
//! no whitespace, fields in a fixed order, strings escaped byte for byte
//! (quote and backslash as two-byte escapes, the named control characters
//! as their short forms, every other control byte as a lowercase `\u00xx`
//! escape, and all remaining bytes unchanged).

use vstd::prelude::*;

verus! {

/// Lowercase hexadecimal digit for a value below 16.
pub open spec fn hex_digit(n: u8) -> u8 {
    if n < 10 {
        (0x30 + n) as u8
    } else {
        (0x61 + (n - 10)) as u8
    }
}

/// One byte of a JSON string value, escaped.
pub open spec fn esc_byte(b: u8) -> Seq<u8> {
    if b == 0x22 {
        seq![0x5cu8, 0x22u8]
    } else if b == 0x5c {
        seq![0x5cu8, 0x5cu8]
    } else if b == 0x08 {
        seq![0x5cu8, 0x62u8]
    } else if b == 0x09 {
        seq![0x5cu8, 0x74u8]
    } else if b == 0x0a {
        seq![0x5cu8, 0x6eu8]
    } else if b == 0x0c {
        seq![0x5cu8, 0x66u8]
    } else if b == 0x0d {
        seq![0x5cu8, 0x72u8]
    } else if b < 0x20 {
        seq![0x5cu8, 0x75u8, 0x30u8, 0x30u8, hex_digit((b / 16) as u8), hex_digit((b % 16) as u8)]
    } else {
        seq![b]
    }
}

/// A whole string value, escaped byte for byte.
pub open spec fn esc(s: Seq<u8>) -> Seq<u8>
    decreases s.len(),
{
    if s.len() == 0 {
        Seq::empty()
    } else {
        esc(s.drop_last()) + esc_byte(s.last())
    }
}

fn hex_digit_exec(n: u8) -> (r: u8)
    requires
        n < 16,
    ensures
        r == hex_digit(n),
{
    if n < 10 {
        0x30 + n
    } else {
        0x61 + (n - 10)
    }
}

fn push_escaped_byte(out: &mut Vec<u8>, b: u8)
    ensures
        final(out)@ == old(out)@ + esc_byte(b),
{
    if b == 0x22 {
        out.push(0x5c);
        out.push(0x22);
    } else if b == 0x5c {
        out.push(0x5c);
        out.push(0x5c);
    } else if b == 0x08 {
        out.push(0x5c);
        out.push(0x62);
    } else if b == 0x09 {
        out.push(0x5c);
        out.push(0x74);
    } else if b == 0x0a {
        out.push(0x5c);
        out.push(0x6e);
    } else if b == 0x0c {
        out.push(0x5c);
        out.push(0x66);
    } else if b == 0x0d {
        out.push(0x5c);
        out.push(0x72);
    } else if b < 0x20 {
        out.push(0x5c);
        out.push(0x75);
        out.push(0x30);
        out.push(0x30);
        out.push(hex_digit_exec(b / 16));
        out.push(hex_digit_exec(b % 16));
    } else {
        out.push(b);
    }
    proof {
        assert(out@ =~= old(out)@ + esc_byte(b));
    }
}

/// Appends the escaped form of `s` to `out`.
pub fn push_escaped(out: &mut Vec<u8>, s: &Vec<u8>)
    ensures
        final(out)@ == old(out)@ + esc(s@),
{
    let mut i: usize = 0;
    while i < s.len()
        invariant
            i <= s@.len(),
            out@ == old(out)@ + esc(s@.take(i as int)),
        decreases s@.len() - i,
    {
        push_escaped_byte(out, s[i]);
        proof {
            assert(s@.take(i + 1).drop_last() =~= s@.take(i as int));
            assert(s@.take(i + 1).last() == s@[i as int]);
        }
        i = i + 1;
    }
    proof {
        assert(s@.take(s@.len() as int) =~= s@);
    }
}

/// The bytes of `{"source":"`.
pub open spec fn body_head() -> Seq<u8> {
    seq![0x7bu8, 0x22, 0x73, 0x6f, 0x75, 0x72, 0x63, 0x65, 0x22, 0x3a, 0x22]
}

/// The bytes of `","user":"`.
pub open spec fn body_mid_user() -> Seq<u8> {
    seq![0x22u8, 0x2c, 0x22, 0x75, 0x73, 0x65, 0x72, 0x22, 0x3a, 0x22]
}

/// The bytes of `","service":"`.
pub open spec fn body_mid_service() -> Seq<u8> {
    seq![0x22u8, 0x2c, 0x22, 0x73, 0x65, 0x72, 0x76, 0x69, 0x63, 0x65, 0x22, 0x3a, 0x22]
}

/// The bytes of `","type":"`.
pub open spec fn body_mid_type() -> Seq<u8> {
    seq![0x22u8, 0x2c, 0x22, 0x74, 0x79, 0x70, 0x65, 0x22, 0x3a, 0x22]
}

/// The bytes of `"}`.
pub open spec fn obj_tail() -> Seq<u8> {
    seq![0x22u8, 0x7d]
}

/// The bytes of `{"encrypted_key":"`.
pub open spec fn env_head() -> Seq<u8> {
    seq![
        0x7bu8, 0x22, 0x65, 0x6e, 0x63, 0x72, 0x79, 0x70, 0x74, 0x65, 0x64, 0x5f, 0x6b, 0x65,
        0x79, 0x22, 0x3a, 0x22,
    ]
}

/// The bytes of `","encrypted_body":"`.
pub open spec fn env_mid() -> Seq<u8> {
    seq![
        0x22u8, 0x2c, 0x22, 0x65, 0x6e, 0x63, 0x72, 0x79, 0x70, 0x74, 0x65, 0x64, 0x5f, 0x62,
        0x6f, 0x64, 0x79, 0x22, 0x3a, 0x22,
    ]
}

/// The serialized request body document:
/// `{"source":"..","user":"..","service":"..","type":".."}`
/// with each field value escaped.
pub open spec fn body_json(source: Seq<u8>, user: Seq<u8>, service: Seq<u8>, auth_type: Seq<u8>) -> Seq<u8> {
    body_head() + esc(source) + body_mid_user() + esc(user) + body_mid_service() + esc(service)
        + body_mid_type() + esc(auth_type) + obj_tail()
}

/// The serialized envelope document:
/// `{"encrypted_key":"..","encrypted_body":".."}`
/// with each field value escaped.
pub open spec fn envelope_json(key_b64: Seq<u8>, body_b64: Seq<u8>) -> Seq<u8> {
    env_head() + esc(key_b64) + env_mid() + esc(body_b64) + obj_tail()
}

fn push_bytes_of(out: &mut Vec<u8>, lit: &[u8])
    ensures
        final(out)@ == old(out)@ + lit@,
{
    let mut i: usize = 0;
    while i < lit.len()
        invariant
            i <= lit@.len(),
            out@ == old(out)@ + lit@.take(i as int),
        decreases lit@.len() - i,
    {
        let b: u8 = lit[i];
        out.push(b);
        proof {
            assert(lit@.take(i + 1) =~= lit@.take(i as int).push(lit@[i as int]));
        }
        i = i + 1;
    }
    proof {
        assert(lit@.take(lit@.len() as int) =~= lit@);
    }
}

/// Serializes a request body document from its four field values.
pub fn write_body_json(source: &Vec<u8>, user: &Vec<u8>, service: &Vec<u8>, auth_type: &Vec<u8>) -> (r: Vec<u8>)
    ensures
        r@ == body_json(source@, user@, service@, auth_type@),
{
    let mut out: Vec<u8> = Vec::new();
    let head: [u8; 11] = [0x7b, 0x22, 0x73, 0x6f, 0x75, 0x72, 0x63, 0x65, 0x22, 0x3a, 0x22];
    let mid_user: [u8; 10] = [0x22, 0x2c, 0x22, 0x75, 0x73, 0x65, 0x72, 0x22, 0x3a, 0x22];
    let mid_service: [u8; 13] = [
        0x22, 0x2c, 0x22, 0x73, 0x65, 0x72, 0x76, 0x69, 0x63, 0x65, 0x22, 0x3a, 0x22,
    ];
    let mid_type: [u8; 10] = [0x22, 0x2c, 0x22, 0x74, 0x79, 0x70, 0x65, 0x22, 0x3a, 0x22];
    let tail: [u8; 2] = [0x22, 0x7d];
    push_bytes_of(&mut out, &head);
    push_escaped(&mut out, source);
    push_bytes_of(&mut out, &mid_user);
    push_escaped(&mut out, user);
    push_bytes_of(&mut out, &mid_service);
    push_escaped(&mut out, service);
    push_bytes_of(&mut out, &mid_type);
    push_escaped(&mut out, auth_type);
    push_bytes_of(&mut out, &tail);
    proof {
        assert(head@ =~= body_head());
        assert(mid_user@ =~= body_mid_user());
        assert(mid_service@ =~= body_mid_service());
        assert(mid_type@ =~= body_mid_type());
        assert(tail@ =~= obj_tail());
        assert(out@ =~= body_json(source@, user@, service@, auth_type@));
    }
    out
}

/// Serializes an envelope document from the two base64 ciphertext strings.
pub fn write_envelope_json(key_b64: &Vec<u8>, body_b64: &Vec<u8>) -> (r: Vec<u8>)
    ensures
        r@ == envelope_json(key_b64@, body_b64@),
{
    let mut out: Vec<u8> = Vec::new();
    let head: [u8; 18] = [
        0x7b, 0x22, 0x65, 0x6e, 0x63, 0x72, 0x79, 0x70, 0x74, 0x65, 0x64, 0x5f, 0x6b, 0x65,
        0x79, 0x22, 0x3a, 0x22,
    ];
    let mid: [u8; 20] = [
        0x22, 0x2c, 0x22, 0x65, 0x6e, 0x63, 0x72, 0x79, 0x70, 0x74, 0x65, 0x64, 0x5f, 0x62,
        0x6f, 0x64, 0x79, 0x22, 0x3a, 0x22,
    ];
    let tail: [u8; 2] = [0x22, 0x7d];
    push_bytes_of(&mut out, &head);
    push_escaped(&mut out, key_b64);
    push_bytes_of(&mut out, &mid);
    push_escaped(&mut out, body_b64);
    push_bytes_of(&mut out, &tail);
    proof {
        assert(head@ =~= env_head());
        assert(mid@ =~= env_mid());
        assert(tail@ =~= obj_tail());
        assert(out@ =~= envelope_json(key_b64@, body_b64@));
    }
    out
}

/// JSON whitespace: space, tab, line feed, carriage return.
pub open spec fn is_ws(b: u8) -> bool {
    b == 0x20 || b == 0x09 || b == 0x0a || b == 0x0d
}

/// First position at or after `i` that does not hold whitespace.
pub open spec fn skip_ws(s: Seq<u8>, i: int) -> int
    decreases s.len() - i when 0 <= i <= s.len()
{
    if i < s.len() && is_ws(s[i]) {
        skip_ws(s, i + 1)
    } else {
        i
    }
}

pub proof fn lemma_skip_ws_bounds(s: Seq<u8>, i: int)
    requires
        0 <= i <= s.len(),
    ensures
        i <= skip_ws(s, i) <= s.len(),
    decreases s.len() - i,
{
    if i < s.len() && is_ws(s[i]) {
        lemma_skip_ws_bounds(s, i + 1);
    }
}

/// The bytes of `"accepted"`, quotes included.
pub open spec fn lit_accepted() -> Seq<u8> {
    seq![0x22u8, 0x61, 0x63, 0x63, 0x65, 0x70, 0x74, 0x65, 0x64, 0x22]
}

/// The bytes of `true`.
pub open spec fn lit_true() -> Seq<u8> {
    seq![0x74u8, 0x72, 0x75, 0x65]
}

/// The bytes of `false`.
pub open spec fn lit_false() -> Seq<u8> {
    seq![0x66u8, 0x61, 0x6c, 0x73, 0x65]
}

/// The closing of the response document after the boolean at `i`: optional
/// whitespace, `}`, optional whitespace, end of input.
pub open spec fn response_tail_ok(s: Seq<u8>, i: int) -> bool
    recommends
        0 <= i <= s.len(),
{
    let j = skip_ws(s, i);
    j < s.len() && s[j] == 0x7d && skip_ws(s, j + 1) == s.len()
}

/// The response document `{"accepted":<bool>}`, with JSON whitespace allowed
/// around the tokens: `Some` of the boolean when `s` matches, `None` otherwise.
pub open spec fn parse_response(s: Seq<u8>) -> Option<bool> {
    let i0 = skip_ws(s, 0);
    if i0 < s.len() && s[i0] == 0x7b {
        let i1 = skip_ws(s, i0 + 1);
        if i1 + 10 <= s.len() && s.subrange(i1, i1 + 10) == lit_accepted() {
            let i2 = skip_ws(s, i1 + 10);
            if i2 < s.len() && s[i2] == 0x3a {
                let i3 = skip_ws(s, i2 + 1);
                if i3 + 4 <= s.len() && s.subrange(i3, i3 + 4) == lit_true() {
                    if response_tail_ok(s, i3 + 4) {
                        Some(true)
                    } else {
                        None
                    }
                } else if i3 + 5 <= s.len() && s.subrange(i3, i3 + 5) == lit_false() {
                    if response_tail_ok(s, i3 + 5) {
                        Some(false)
                    } else {
                        None
                    }
                } else {
                    None
                }
            } else {
                None
            }
        } else {
            None
        }
    } else {
        None
    }
}

fn skip_ws_exec(s: &Vec<u8>, i: usize) -> (r: usize)
    requires
        i <= s@.len(),
    ensures
        r == skip_ws(s@, i as int),
        i <= r <= s@.len(),
{
    let mut j: usize = i;
    while j < s.len() && (s[j] == 0x20 || s[j] == 0x09 || s[j] == 0x0a || s[j] == 0x0d)
        invariant
            i <= j <= s@.len(),
            skip_ws(s@, i as int) == skip_ws(s@, j as int),
        decreases s@.len() - j,
    {
        j = j + 1;
    }
    j
}

/// Compares `lit` with the bytes of `s` starting at `i`.
fn match_at(s: &Vec<u8>, i: usize, lit: &[u8]) -> (r: bool)
    requires
        i + lit@.len() <= s@.len(),
    ensures
        r == (s@.subrange(i as int, i + lit@.len()) == lit@),
{
    let n = s.len();
    let mut k: usize = 0;
    while k < lit.len()
        invariant
            i + lit@.len() <= s@.len(),
            s@.len() == n,
            k <= lit@.len(),
            forall|m: int| 0 <= m < k ==> s@[i + m] == lit@[m],
        decreases lit@.len() - k,
    {
        if s[i + k] != lit[k] {
            proof {
                assert(s@.subrange(i as int, i + lit@.len())[k as int] != lit@[k as int]);
            }
            return false;
        }
        k = k + 1;
    }
    proof {
        assert(s@.subrange(i as int, i + lit@.len()) =~= lit@);
    }
    true
}

/// Parses the decrypted response bytes as the response document.
pub fn parse_response_bytes(s: &Vec<u8>) -> (r: Option<bool>)
    ensures
        r == parse_response(s@),
{
    proof {
        lemma_skip_ws_bounds(s@, 0);
    }
    let i0 = skip_ws_exec(s, 0);
    if !(i0 < s.len() && s[i0] == 0x7b) {
        return None;
    }
    proof {
        lemma_skip_ws_bounds(s@, i0 + 1);
    }
    let i1 = skip_ws_exec(s, i0 + 1);
    let accepted: [u8; 10] = [0x22, 0x61, 0x63, 0x63, 0x65, 0x70, 0x74, 0x65, 0x64, 0x22];
    proof {
        assert(accepted@ =~= lit_accepted());
    }
    if !(s.len() - i1 >= 10 && match_at(s, i1, &accepted)) {
        return None;
    }
    proof {
        lemma_skip_ws_bounds(s@, i1 + 10);
    }
    let i2 = skip_ws_exec(s, i1 + 10);
    if !(i2 < s.len() && s[i2] == 0x3a) {
        return None;
    }
    proof {
        lemma_skip_ws_bounds(s@, i2 + 1);
    }
    let i3 = skip_ws_exec(s, i2 + 1);
    let lit_t: [u8; 4] = [0x74, 0x72, 0x75, 0x65];
    let lit_f: [u8; 5] = [0x66, 0x61, 0x6c, 0x73, 0x65];
    proof {
        assert(lit_t@ =~= lit_true());
        assert(lit_f@ =~= lit_false());
    }
    if s.len() - i3 >= 4 && match_at(s, i3, &lit_t) {
        if response_tail_exec(s, i3 + 4) {
            Some(true)
        } else {
            None
        }
    } else if s.len() - i3 >= 5 && match_at(s, i3, &lit_f) {
        if response_tail_exec(s, i3 + 5) {
            Some(false)
        } else {
            None
        }
    } else {
        None
    }
}

fn response_tail_exec(s: &Vec<u8>, i: usize) -> (r: bool)
    requires
        i <= s@.len(),
    ensures
        r == response_tail_ok(s@, i as int),
{
    proof {
        lemma_skip_ws_bounds(s@, i as int);
    }
    let j = skip_ws_exec(s, i);
    if j < s.len() && s[j] == 0x7d {
        proof {
            lemma_skip_ws_bounds(s@, j + 1);
        }
        let k = skip_ws_exec(s, j + 1);
        k == s.len()
    } else {
        false
    }
}

} // verus!
