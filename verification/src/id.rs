//! The identifier generator: a number drawn evenly from the 32-bit range,
//! written in decimal, and that text encoded in URL-safe base 64 without
//! padding. Two draws may give the same identifier: the provisioner deals
//! with that, not this module.

use vstd::prelude::*;
use base64::Engine;
use rand::Rng;

verus! {

/// The decimal digits of a number as ASCII bytes, the highest first.
pub open spec fn decimal_digits(n: nat) -> Seq<u8>
    decreases n,
{
    if n < 10 {
        seq![(48 + n) as u8]
    } else {
        decimal_digits(n / 10).push((48 + n % 10) as u8)
    }
}

/// How many characters the unpadded base-64 text of `len` bytes has.
pub open spec fn base64_len(len: nat) -> nat {
    4 * (len / 3) + if len % 3 == 0 {
        0nat
    } else {
        len % 3 + 1
    }
}

/// The text that `base64::engine::general_purpose::URL_SAFE_NO_PAD` makes of
/// the given bytes.
pub uninterp spec fn base64_url_unpadded(data: Seq<u8>) -> Seq<char>;

/// The identifier that stands for a drawn number.
pub open spec fn short_id(n: u32) -> Seq<char> {
    base64_url_unpadded(decimal_digits(n as nat))
}

/// Whether some number of the 32-bit range, all of which the generator can
/// draw, gives this identifier.
pub open spec fn is_short_id(id: Seq<char>) -> bool {
    exists|n: u32| id == #[trigger] short_id(n)
}

/// Whether a character is of the URL-safe base-64 alphabet: a letter, a
/// digit, `-` or `_`.
pub open spec fn is_url_safe(c: char) -> bool {
    ('A' <= c && c <= 'Z') || ('a' <= c && c <= 'z') || ('0' <= c && c <= '9') || c == '-' || c
        == '_'
}

/// A number has between one and ten decimal digits, each an ASCII digit.
pub proof fn lemma_decimal_digits(n: nat)
    ensures
        decimal_digits(n).len() >= 1,
        n <= u32::MAX ==> decimal_digits(n).len() <= 10,
        forall|i: int|
            0 <= i < decimal_digits(n).len() ==> 48 <= #[trigger] decimal_digits(n)[i] <= 57,
    decreases n,
{
    if n >= 10 {
        lemma_decimal_digits(n / 10);
        if n <= u32::MAX {
            assert(pow10(9) == 1_000_000_000) by {
                reveal_with_fuel(pow10, 10);
            }
            lemma_decimal_length(n / 10, 9);
        }
    }
}

/// A number below ten to the power `k` has at most `k` digits, for the
/// `k` that matter to 32 bits.
proof fn lemma_decimal_length(n: nat, k: nat)
    requires
        1 <= k <= 9,
        n < pow10(k),
    ensures
        decimal_digits(n).len() <= k,
    decreases k,
{
    reveal_with_fuel(pow10, 10);
    if n >= 10 {
        lemma_decimal_length(n / 10, (k - 1) as nat);
    }
}

/// Ten to the power `k`.
spec fn pow10(k: nat) -> nat
    decreases k,
{
    if k == 0 {
        1
    } else {
        10 * pow10((k - 1) as nat)
    }
}

/// `base64::Engine::encode` on `URL_SAFE_NO_PAD`: the text is the encoding
/// of the bytes, its length is what `base64::encoded_len` computes for an
/// unpadded encoding, and each of its characters is of the engine's
/// alphabet, `base64::alphabet::URL_SAFE`. The bound on the input keeps
/// that length inside `usize`, where the outside function would panic
/// otherwise.
#[verifier::external_body]
fn encode_url_unpadded(data: &[u8]) -> (text: String)
    requires
        data@.len() <= 0x3000_0000,
    ensures
        text@ == base64_url_unpadded(data@),
        text@.len() == base64_len(data@.len()),
        forall|i: int| 0 <= i < text@.len() ==> is_url_safe(#[trigger] text@[i]),
{
    base64::engine::general_purpose::URL_SAFE_NO_PAD.encode(data)
}

/// `rand::Rng::gen_range` on the generator that `rand::thread_rng` hands
/// out, with the range from zero up to and with `bound`: all that holds of
/// every draw is that it lies in the range, which is never empty.
#[verifier::external_body]
fn draw_up_to(bound: u32) -> (n: u32)
    ensures
        n <= bound,
{
    rand::thread_rng().gen_range(0..=bound)
}

/// Appends the decimal digits of `n` to `out`.
fn push_decimal(n: u32, out: &mut Vec<u8>)
    ensures
        final(out)@ == old(out)@ + decimal_digits(n as nat),
    decreases n,
{
    if n >= 10 {
        push_decimal(n / 10, out);
    }
    let digit: u8 = (n % 10) as u8;
    out.push(48u8 + digit);
}

/// The decimal text of a number, as ASCII bytes.
pub fn decimal_text(n: u32) -> (text: Vec<u8>)
    ensures
        text@ == decimal_digits(n as nat),
        1 <= text@.len() <= 10,
{
    let mut text: Vec<u8> = Vec::new();
    push_decimal(n, &mut text);
    proof {
        lemma_decimal_digits(n as nat);
    }
    text
}

/// The identifier for a drawn number: the base-64 text of its decimal
/// text, not of its four bytes.
pub fn id_from_number(n: u32) -> (id: String)
    ensures
        id@ == short_id(n),
        id@.len() == base64_len(decimal_digits(n as nat).len()),
        2 <= id@.len() <= 14,
        forall|i: int| 0 <= i < id@.len() ==> is_url_safe(#[trigger] id@[i]),
{
    let text = decimal_text(n);
    encode_url_unpadded(text.as_slice())
}

/// Draws a fresh identifier, from a number of the whole 32-bit range. It
/// never fails and keeps no state; that the identifier is free is not
/// promised.
pub fn generate_id() -> (id: String)
    ensures
        is_short_id(id@),
        2 <= id@.len() <= 14,
        forall|i: int| 0 <= i < id@.len() ==> is_url_safe(#[trigger] id@[i]),
{
    let n = draw_up_to(u32::MAX);
    id_from_number(n)
}

} // verus!
