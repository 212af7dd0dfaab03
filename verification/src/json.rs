use vstd::prelude::*;

verus! {

use vstd::string::StrSliceExecFns;
use vstd::string::StringExecFns;
use crate::RsaKeyPair;
use crate::EncryptedMessage;

/// The lowercase hexadecimal digit for a value below sixteen.
pub open spec fn hex_digit_char(v: u32) -> char
    recommends
        v < 16,
{
    if v == 0 { '0' } else if v == 1 { '1' } else if v == 2 { '2' } else if v == 3 { '3' }
    else if v == 4 { '4' } else if v == 5 { '5' } else if v == 6 { '6' } else if v == 7 { '7' }
    else if v == 8 { '8' } else if v == 9 { '9' } else if v == 10 { 'a' } else if v == 11 { 'b' }
    else if v == 12 { 'c' } else if v == 13 { 'd' } else if v == 14 { 'e' } else { 'f' }
}

/// How one character stands inside a JSON string literal: quote and backslash
/// get a backslash escape, the five control characters with short escapes use
/// those, any other control character becomes a `\u00..` sequence with
/// lowercase hex digits, and everything else stands as itself.
pub open spec fn json_escaped_char(c: char) -> Seq<char> {
    if c == '"' { seq!['\\', '"'] }
    else if c == '\\' { seq!['\\', '\\'] }
    else if c == '\u{8}' { seq!['\\', 'b'] }
    else if c == '\t' { seq!['\\', 't'] }
    else if c == '\n' { seq!['\\', 'n'] }
    else if c == '\u{c}' { seq!['\\', 'f'] }
    else if c == '\r' { seq!['\\', 'r'] }
    else if (c as u32) < 32 {
        seq!['\\', 'u', '0', '0', hex_digit_char((c as u32) / 16), hex_digit_char((c as u32) % 16)]
    } else {
        seq![c]
    }
}

/// The body of a JSON string literal holding the text `s`.
pub open spec fn json_escaped(s: Seq<char>) -> Seq<char>
    decreases s.len(),
{
    if s.len() == 0 {
        Seq::empty()
    } else {
        json_escaped_char(s[0]) + json_escaped(s.drop_first())
    }
}

proof fn lemma_json_escaped_push(s: Seq<char>, c: char)
    ensures
        json_escaped(s.push(c)) == json_escaped(s) + json_escaped_char(c),
    decreases s.len(),
{
    let p = s.push(c);
    if s.len() == 0 {
        assert(p[0] == c);
        assert(p.drop_first() =~= Seq::<char>::empty());
        assert(json_escaped(Seq::<char>::empty()) =~= Seq::<char>::empty());
        assert(json_escaped(p) =~= json_escaped(s) + json_escaped_char(c));
    } else {
        assert(p[0] == s[0]);
        assert(p.drop_first() =~= s.drop_first().push(c));
        lemma_json_escaped_push(s.drop_first(), c);
        assert(json_escaped(p) =~= json_escaped(s) + json_escaped_char(c));
    }
}

/// Relies on `String::push`: appends exactly the one character.
#[verifier::external_body]
fn push_char(out: &mut String, c: char)
    ensures
        final(out)@ == old(out)@.push(c),
{
    out.push(c);
}

/// The lowercase hexadecimal digit for a value below sixteen.
fn hex_digit(v: u32) -> (r: char)
    requires
        v < 16,
    ensures
        r == hex_digit_char(v),
{
    if v == 0 { '0' } else if v == 1 { '1' } else if v == 2 { '2' } else if v == 3 { '3' }
    else if v == 4 { '4' } else if v == 5 { '5' } else if v == 6 { '6' } else if v == 7 { '7' }
    else if v == 8 { '8' } else if v == 9 { '9' } else if v == 10 { 'a' } else if v == 11 { 'b' }
    else if v == 12 { 'c' } else if v == 13 { 'd' } else if v == 14 { 'e' } else { 'f' }
}

/// Appends to `out` the body of a JSON string literal holding `s`.
pub fn append_json_escaped(out: &mut String, s: &str)
    ensures
        final(out)@ == old(out)@ + json_escaped(s@),
{
    let n = s.unicode_len();
    let mut i: usize = 0;
    while i < n
        invariant
            n == s@.len(),
            i <= n,
            out@ == old(out)@ + json_escaped(s@.take(i as int)),
        decreases n - i,
    {
        let c = s.get_char(i);
        proof {
            lemma_json_escaped_push(s@.take(i as int), c);
            assert(s@.take(i + 1 as int) =~= s@.take(i as int).push(c));
        }
        if c == '"' {
            out.append("\\\"");
            proof {
                reveal_strlit("\\\"");
                assert("\\\""@ =~= json_escaped_char(c));
            }
        } else if c == '\\' {
            out.append("\\\\");
            proof {
                reveal_strlit("\\\\");
                assert("\\\\"@ =~= json_escaped_char(c));
            }
        } else if c == '\u{8}' {
            out.append("\\b");
            proof {
                reveal_strlit("\\b");
                assert("\\b"@ =~= json_escaped_char(c));
            }
        } else if c == '\t' {
            out.append("\\t");
            proof {
                reveal_strlit("\\t");
                assert("\\t"@ =~= json_escaped_char(c));
            }
        } else if c == '\n' {
            out.append("\\n");
            proof {
                reveal_strlit("\\n");
                assert("\\n"@ =~= json_escaped_char(c));
            }
        } else if c == '\u{c}' {
            out.append("\\f");
            proof {
                reveal_strlit("\\f");
                assert("\\f"@ =~= json_escaped_char(c));
            }
        } else if c == '\r' {
            out.append("\\r");
            proof {
                reveal_strlit("\\r");
                assert("\\r"@ =~= json_escaped_char(c));
            }
        } else if (c as u32) < 32 {
            out.append("\\u00");
            push_char(out, hex_digit((c as u32) / 16));
            push_char(out, hex_digit((c as u32) % 16));
            proof {
                reveal_strlit("\\u00");
                assert("\\u00"@.push(hex_digit_char((c as u32) / 16)).push(
                    hex_digit_char((c as u32) % 16),
                ) =~= json_escaped_char(c));
            }
        } else {
            push_char(out, c);
            proof {
                assert(old(out)@ + json_escaped(s@.take(i as int)).push(c) =~= old(out)@
                    + json_escaped(s@.take(i as int)) + json_escaped_char(c));
            }
        }
        proof {
            assert(out@ =~= old(out)@ + json_escaped(s@.take(i + 1 as int)));
        }
        i += 1;
    }
    proof {
        assert(s@.take(n as int) =~= s@);
    }
}

/// The JSON text for a key pair: one object with the two PEM texts under the
/// fields `private_key_pem` and `public_key_pem`, in that order, with no
/// added whitespace.
pub open spec fn key_pair_json(private_pem: Seq<char>, public_pem: Seq<char>) -> Seq<char> {
    "{\"private_key_pem\":\""@ + json_escaped(private_pem) + "\",\"public_key_pem\":\""@
        + json_escaped(public_pem) + "\"}"@
}

/// The JSON text for an envelope: one object with the base64 nonce under the
/// field `iv` and the base64 ciphertext under `ciphertext`, in that order,
/// with no added whitespace.
pub open spec fn encrypted_message_json(iv: Seq<char>, ciphertext: Seq<char>) -> Seq<char> {
    "{\"iv\":\""@ + json_escaped(iv) + "\",\"ciphertext\":\""@ + json_escaped(ciphertext) + "\"}"@
}

/// Serializes a key pair as the JSON object callers across the boundary
/// expect.
pub fn key_pair_to_json(kp: &RsaKeyPair) -> (r: String)
    ensures
        r@ == key_pair_json(kp.private_key_pem@, kp.public_key_pem@),
{
    let mut out = String::from_str("{\"private_key_pem\":\"");
    append_json_escaped(&mut out, kp.private_key_pem.as_str());
    out.append("\",\"public_key_pem\":\"");
    append_json_escaped(&mut out, kp.public_key_pem.as_str());
    out.append("\"}");
    proof {
        assert(out@ =~= key_pair_json(kp.private_key_pem@, kp.public_key_pem@));
    }
    out
}

/// Serializes an envelope as the JSON object callers across the boundary
/// expect.
pub fn encrypted_message_to_json(msg: &EncryptedMessage) -> (r: String)
    ensures
        r@ == encrypted_message_json(msg.iv@, msg.ciphertext@),
{
    let mut out = String::from_str("{\"iv\":\"");
    append_json_escaped(&mut out, msg.iv.as_str());
    out.append("\",\"ciphertext\":\"");
    append_json_escaped(&mut out, msg.ciphertext.as_str());
    out.append("\"}");
    proof {
        assert(out@ =~= encrypted_message_json(msg.iv@, msg.ciphertext@));
    }
    out
}

} // verus!
