//! The echo protocol run over an established channel: the responder answers
//! each message with its transform, until the sentinel `exit` arrives, which
//! it answers with `exit` before both ends close.
//!
//! The transform works on the characters of the message's UTF-8 text: the
//! digits `0` and `1` trade places, and a letter changes case. A letter
//! changes only where it has a one-to-one case partner (each is the single
//! character the other maps to, and each maps to itself in its own case):
//! a letter such as `ß`, whose upper case is two characters, stays as it is,
//! so that applying the transform twice always gives the text back. A
//! message that is not UTF-8 text is answered unchanged.

use vstd::prelude::*;
use vstd::utf8::{decode_utf8, valid_utf8};

verus! {

/// What `char::to_lowercase` yields for a character, per Unicode's tables.
pub uninterp spec fn lower_of(c: char) -> Seq<char>;

/// What `char::to_uppercase` yields for a character, per Unicode's tables.
pub uninterp spec fn upper_of(c: char) -> Seq<char>;

/// Relies on `char::to_lowercase`: the lower-case mapping of a character,
/// a function of the character alone.
#[verifier::external_body]
fn lower_chars(c: char) -> (r: Vec<char>)
    ensures
        r@ == lower_of(c),
{
    c.to_lowercase().collect()
}

/// Relies on `char::to_uppercase`: the upper-case mapping of a character,
/// a function of the character alone.
#[verifier::external_body]
fn upper_chars(c: char) -> (r: Vec<char>)
    ensures
        r@ == upper_of(c),
{
    c.to_uppercase().collect()
}

/// Relies on `std::str::from_utf8`: the characters of `b` where it is valid
/// UTF-8, and `None` where it is not.
#[verifier::external_body]
fn decode_text(b: &[u8]) -> (r: Option<Vec<char>>)
    ensures
        r is Some <==> valid_utf8(b@),
        r is Some ==> r->Some_0@ == decode_utf8(b@),
{
    std::str::from_utf8(b).ok().map(|s| s.chars().collect())
}

/// Relies on `String`'s `FromIterator<char>`: the UTF-8 encoding of `chars`.
#[verifier::external_body]
fn encode_text(chars: &[char]) -> (r: Vec<u8>)
    ensures
        valid_utf8(r@),
        decode_utf8(r@) == chars@,
{
    chars.iter().collect::<String>().into_bytes()
}

/// The sentinel message, `exit`, as bytes.
pub open spec fn sentinel() -> Seq<u8> {
    seq![101u8, 120u8, 105u8, 116u8]
}

/// `c` is an upper-case letter whose lower case is the single character
/// `lower_of(c)[0]`, which maps back to `c` and to itself.
pub open spec fn has_lower_partner(c: char) -> bool {
    &&& lower_of(c).len() == 1
    &&& lower_of(c)[0] != c
    &&& lower_of(c)[0] != '0' && lower_of(c)[0] != '1'
    &&& upper_of(c) == seq![c]
    &&& upper_of(lower_of(c)[0]) == seq![c]
    &&& lower_of(lower_of(c)[0]) == seq![lower_of(c)[0]]
}

/// `c` is a lower-case letter whose upper case is the single character
/// `upper_of(c)[0]`, which maps back to `c` and to itself.
pub open spec fn has_upper_partner(c: char) -> bool {
    &&& upper_of(c).len() == 1
    &&& upper_of(c)[0] != c
    &&& upper_of(c)[0] != '0' && upper_of(c)[0] != '1'
    &&& lower_of(c) == seq![c]
    &&& lower_of(upper_of(c)[0]) == seq![c]
    &&& upper_of(upper_of(c)[0]) == seq![upper_of(c)[0]]
}

/// One character of the transform.
pub open spec fn flip_spec(c: char) -> char {
    if c == '0' {
        '1'
    } else if c == '1' {
        '0'
    } else if has_lower_partner(c) {
        lower_of(c)[0]
    } else if has_upper_partner(c) {
        upper_of(c)[0]
    } else {
        c
    }
}

/// The transform of a text, character by character.
pub open spec fn flipped(s: Seq<char>) -> Seq<char> {
    s.map_values(|c: char| flip_spec(c))
}

/// `r` is the transform of `msg`: the encoding of its flipped text, or
/// `msg` itself where it is not UTF-8 text.
pub open spec fn is_transform(msg: Seq<u8>, r: Seq<u8>) -> bool {
    if valid_utf8(msg) {
        valid_utf8(r) && decode_utf8(r) == flipped(decode_utf8(msg))
    } else {
        r == msg
    }
}

/// `r` is the responder's answer to `msg`: the sentinel for the sentinel,
/// else the transform.
pub open spec fn is_reply(msg: Seq<u8>, r: Seq<u8>) -> bool {
    if msg == sentinel() {
        r == sentinel()
    } else {
        is_transform(msg, r)
    }
}

fn single(v: &Vec<char>, c: char) -> (r: bool)
    ensures
        r == (v@ == seq![c]),
{
    let r = v.len() == 1 && v[0] == c;
    if r {
        assert(v@ =~= seq![c]);
    }
    r
}

/// Transforms one character as `flip_spec` says.
pub fn flip_char(c: char) -> (r: char)
    ensures
        r == flip_spec(c),
{
    if c == '0' {
        return '1';
    }
    if c == '1' {
        return '0';
    }
    let lc = lower_chars(c);
    let uc = upper_chars(c);
    if lc.len() == 1 && lc[0] != c && lc[0] != '0' && lc[0] != '1' && single(&uc, c) {
        let l = lc[0];
        if single(&upper_chars(l), c) && single(&lower_chars(l), l) {
            return l;
        }
    }
    if uc.len() == 1 && uc[0] != c && uc[0] != '0' && uc[0] != '1' && single(&lc, c) {
        let u = uc[0];
        if single(&lower_chars(u), c) && single(&upper_chars(u), u) {
            return u;
        }
    }
    c
}

/// Applies the transform to every character of `input`.
pub fn echo_transform_chars(input: &[char]) -> (r: Vec<char>)
    ensures
        r@ == flipped(input@),
{
    let n = input.len();
    let mut out: Vec<char> = Vec::with_capacity(n);
    let mut i: usize = 0;
    while i < n
        invariant
            n == input@.len(),
            i <= n,
            out@.len() == i,
            forall|j: int| 0 <= j < i ==> out@[j] == flip_spec(#[trigger] input@[j]),
        decreases n - i,
    {
        out.push(flip_char(input[i]));
        i += 1;
    }
    assert(out@ == flipped(input@));
    out
}

/// The transform of a message: its UTF-8 text transformed and encoded
/// again, or the message unchanged where it is not UTF-8 text.
pub fn echo_transform(input: &[u8]) -> (r: Vec<u8>)
    ensures
        is_transform(input@, r@),
{
    match decode_text(input) {
        Some(chars) => {
            let out = echo_transform_chars(chars.as_slice());
            encode_text(out.as_slice())
        },
        None => vstd::slice::slice_to_vec(input),
    }
}

/// Whether `msg` is the sentinel `exit`.
pub fn is_sentinel(msg: &[u8]) -> (r: bool)
    ensures
        r == (msg@ == sentinel()),
{
    let r = msg.len() == 4 && msg[0] == 101 && msg[1] == 120 && msg[2] == 105 && msg[3] == 116;
    if r {
        assert(msg@ == sentinel());
    }
    r
}

/// The sentinel as an owned message.
pub fn sentinel_message() -> (r: Vec<u8>)
    ensures
        r@ == sentinel(),
{
    let r: Vec<u8> = vec![101u8, 120u8, 105u8, 116u8];
    assert(r@ == sentinel());
    r
}

/// The responder's answer to one message, and whether the session ends
/// with it (exactly when the message is the sentinel).
pub fn echo_reply(msg: &[u8]) -> (r: (Vec<u8>, bool))
    ensures
        is_reply(msg@, r.0@),
        r.1 == (msg@ == sentinel()),
{
    if is_sentinel(msg) {
        (sentinel_message(), true)
    } else {
        (echo_transform(msg), false)
    }
}

/// Whether the initiator ends the session on receiving `reply`: exactly when
/// the responder answered with the sentinel.
pub fn reply_closes(reply: &[u8]) -> (r: bool)
    ensures
        r == (reply@ == sentinel()),
{
    is_sentinel(reply)
}

/// Transforming a character twice gives the character back.
pub proof fn lemma_flip_char_involution(c: char)
    ensures
        flip_spec(flip_spec(c)) == c,
{
    if c != '0' && c != '1' {
        if has_lower_partner(c) {
            let l = lower_of(c)[0];
            assert(lower_of(c) =~= seq![l]);
            assert(!has_lower_partner(l));
            assert(has_upper_partner(l));
        } else if has_upper_partner(c) {
            let u = upper_of(c)[0];
            assert(upper_of(c) =~= seq![u]);
            assert(has_lower_partner(u));
        }
    }
}

/// The transform is an involution: applied twice it returns the text
/// exactly, for every text (the sentinel's own transform included).
pub proof fn lemma_transform_involution(s: Seq<char>)
    ensures
        flipped(flipped(s)) == s,
{
    assert forall|j: int| 0 <= j < s.len() implies #[trigger] flipped(flipped(s))[j] == s[j] by {
        lemma_flip_char_involution(s[j]);
    }
    assert(flipped(flipped(s)) =~= s);
}

/// Transforming a message, then transforming the result, gives back the
/// message's text (and the message itself where it is not UTF-8 text).
pub proof fn lemma_message_transform_involution(msg: Seq<u8>, once: Seq<u8>, twice: Seq<u8>)
    requires
        is_transform(msg, once),
        is_transform(once, twice),
    ensures
        valid_utf8(msg) ==> valid_utf8(twice) && decode_utf8(twice) == decode_utf8(msg),
        !valid_utf8(msg) ==> twice == msg,
{
    if valid_utf8(msg) {
        lemma_transform_involution(decode_utf8(msg));
    }
}

} // verus!
