//! Display helpers shared by every XCM version: hex previews, byte summaries and
//! names taken from debug dumps.

use vstd::prelude::*;
use vstd::utf8::{decode_utf8, valid_utf8};

use crate::text::{decimal, decimal_string};
use crate::types::XcmInstruction;

pub use crate::text::format_amount;

verus! {

/// The lowercase hexadecimal digit of a value below sixteen.
pub open spec fn hex_digit(v: nat) -> char {
    if v < 10 {
        crate::text::digit_char(v)
    } else if v == 10 {
        'a'
    } else if v == 11 {
        'b'
    } else if v == 12 {
        'c'
    } else if v == 13 {
        'd'
    } else if v == 14 {
        'e'
    } else {
        'f'
    }
}

/// Lowercase hex of `bytes`: two digits per byte, high nibble first.
pub open spec fn hex_lower(bytes: Seq<u8>) -> Seq<char> {
    Seq::new(
        2 * bytes.len(),
        |i: int|
            if i % 2 == 0 {
                hex_digit((bytes[i / 2] / 16) as nat)
            } else {
                hex_digit((bytes[i / 2] % 16) as nat)
            },
    )
}

/// `hex::encode`: lowercase hex, two characters per byte, high nibble first.
#[verifier::external_body]
pub(crate) fn hex_encode(bytes: &[u8]) -> (s: String)
    ensures
        s@ == hex_lower(bytes@),
{
    hex::encode(bytes)
}

/// `"0x"` followed by the hex of `bytes`.
pub open spec fn prefixed_hex(bytes: Seq<u8>) -> Seq<char> {
    "0x"@ + hex_lower(bytes)
}

/// A short preview of an account id or key: at most the first six hex digits.
pub open spec fn short_hex_text(bytes: Seq<u8>) -> Seq<char> {
    let h = hex_lower(bytes);
    if h.len() > 6 {
        "0x"@ + h.take(6) + "..."@
    } else {
        "0x"@ + h
    }
}

/// The summary of `bytes` kept within `prefix_chars` characters of hex, followed by
/// the total byte count whenever the hex had to be cut.
pub open spec fn summary_text(bytes: Seq<u8>, prefix_chars: nat) -> Seq<char> {
    let h = prefixed_hex(bytes);
    if h.len() > prefix_chars {
        h.take(prefix_chars as int) + ".. ("@ + decimal(bytes.len()) + " bytes total)"@
    } else {
        h
    }
}

/// Short AccountId32 / AccountKey20 preview.
pub fn short_hex(bytes: &[u8]) -> (s: String)
    ensures
        s@ == short_hex_text(bytes@),
{
    let hex = hex_encode(bytes);
    let mut s = String::from_str("0x");
    if bytes.len() > 3 {
        s.append(hex.as_str().substring_char(0, 6));
        s.append("...");
    } else {
        s.append(hex.as_str());
    }
    s
}

/// Truncates a hex rendering for display while keeping the total byte length visible.
pub fn summarize_hex(bytes: &[u8], prefix_chars: usize) -> (s: String)
    ensures
        s@ == summary_text(bytes@, prefix_chars as nat),
{
    let mut hex = String::from_str("0x");
    let digits = hex_encode(bytes);
    hex.append(digits.as_str());
    proof {
        reveal_strlit("0x");
    }
    assert(hex@ == prefixed_hex(bytes@));
    assert(hex@.len() == 2 * bytes@.len() + 2);
    let total: u128 = (bytes.len() as u128) * 2 + 2;
    if total > prefix_chars as u128 {
        let mut s = String::from_str(hex.as_str().substring_char(0, prefix_chars));
        s.append(".. (");
        s.append(decimal_string(bytes.len() as u128).as_str());
        s.append(" bytes total)");
        s
    } else {
        hex
    }
}

/// Whether `c` belongs to the Unicode general category Cc (control codes).
pub open spec fn is_control(c: char) -> bool {
    (c as u32) <= 0x1f || (0x7f <= (c as u32) && (c as u32) <= 0x9f)
}

/// Non-empty text without control characters.
pub open spec fn is_printable_text(t: Seq<char>) -> bool {
    t.len() > 0 && forall|i: int| 0 <= i < t.len() ==> !is_control(#[trigger] t[i])
}

/// The bytes as text when they are valid, printable UTF-8; otherwise their hex summary.
pub open spec fn utf8_or_hex_text(bytes: Seq<u8>) -> Seq<char> {
    if valid_utf8(bytes) && is_printable_text(decode_utf8(bytes)) {
        decode_utf8(bytes)
    } else {
        summary_text(bytes, 34)
    }
}

/// `std::str::from_utf8`: the text of `bytes` exactly when they are valid UTF-8.
#[verifier::external_body]
fn utf8_str(bytes: &[u8]) -> (res: Option<&str>)
    ensures
        res is Some <==> valid_utf8(bytes@),
        res matches Some(t) ==> t@ == decode_utf8(bytes@),
{
    std::str::from_utf8(bytes).ok()
}

fn is_control_char(c: char) -> (b: bool)
    ensures
        b == is_control(c),
{
    let u = c as u32;
    u <= 0x1f || (0x7f <= u && u <= 0x9f)
}

/// Renders bytes as text when they are printable UTF-8, else as a hex summary.
pub fn format_bytes_as_utf8_or_hex(bytes: &[u8]) -> (s: String)
    ensures
        s@ == utf8_or_hex_text(bytes@),
{
    match utf8_str(bytes) {
        Some(t) => {
            let n = t.unicode_len();
            let mut printable = n > 0;
            let mut i: usize = 0;
            while i < n
                invariant
                    n == t@.len(),
                    i <= n,
                    printable == (n > 0 && forall|j: int| 0 <= j < i ==> !is_control(#[trigger] t@[j])),
                decreases n - i,
            {
                if is_control_char(t.get_char(i)) {
                    printable = false;
                }
                i = i + 1;
            }
            if printable {
                String::from_str(t)
            } else {
                summarize_hex(bytes, 34)
            }
        },
        None => summarize_hex(bytes, 34),
    }
}


/// The text before the first `(`, or all of it when there is none.
pub open spec fn before_paren(t: Seq<char>) -> Seq<char>
    decreases t.len(),
{
    if t.len() == 0 {
        t
    } else if t[0] == '(' {
        Seq::empty()
    } else {
        seq![t[0]] + before_paren(t.drop_first())
    }
}

proof fn lemma_before_paren(t: Seq<char>, i: int)
    requires
        0 <= i <= t.len(),
        forall|j: int| 0 <= j < i ==> t[j] != '(',
        i == t.len() || t[i] == '(',
    ensures
        before_paren(t) == t.take(i),
    decreases i,
{
    if i == 0 {
        if t.len() == 0 {
            assert(t == t.take(0));
        }
    } else {
        lemma_before_paren(t.drop_first(), i - 1);
        assert(t.take(i) == seq![t[0]] + t.drop_first().take(i - 1));
    }
}

/// Best-effort instruction name from a debug dump (`Foo(...)` gives `Foo`).
pub fn instruction_name_from_debug(debug: &str) -> (name: String)
    ensures
        name@ == before_paren(debug@),
{
    let n = debug.unicode_len();
    let mut i: usize = 0;
    while i < n && debug.get_char(i) != '('
        invariant
            n == debug@.len(),
            i <= n,
            forall|j: int| 0 <= j < i ==> debug@[j] != '(',
        decreases n - i,
    {
        i = i + 1;
    }
    proof {
        lemma_before_paren(debug@, i as int);
    }
    String::from_str(debug.substring_char(0, i))
}

/// The single row `"Raw"` holding a pretty-printed dump.
pub open spec fn raw_rows(pretty: Seq<char>) -> Seq<crate::params::Entry> {
    seq![("Raw"@, seq![pretty])]
}

/// Fallback instruction when no structured formatter is available: named after the
/// one-line debug dump, with the pretty-printed dump as its only row.
pub fn raw_instruction(debug: &str, pretty: &str) -> (r: XcmInstruction)
    ensures
        r.name@ == before_paren(debug@),
        r.params@ == raw_rows(pretty@),
{
    let mut params = crate::params::Params::new();
    let mut lines: Vec<String> = Vec::new();
    lines.push(String::from_str(pretty));
    params.insert(String::from_str("Raw"), lines);
    assert(lines.deep_view() =~= seq![pretty@]);
    let name = instruction_name_from_debug(debug);
    XcmInstruction { name, params }
}

/// Hex of a prefix is the matching prefix of the hex: two digits per byte, in order.
pub proof fn law_hex_of_prefix(bytes: Seq<u8>, n: int)
    requires
        0 <= n <= bytes.len(),
    ensures
        hex_lower(bytes.take(n)) == hex_lower(bytes).take(2 * n),
{
    assert(hex_lower(bytes.take(n)) =~= hex_lower(bytes).take(2 * n));
}

/// A short hex preview of more than three bytes is `0x`, the hex of the first three
/// bytes, and `...`: it always previews the start of the bytes.
pub proof fn law_short_hex_previews_the_start(bytes: Seq<u8>)
    requires
        bytes.len() > 3,
    ensures
        short_hex_text(bytes) == "0x"@ + hex_lower(bytes.take(3)) + "..."@,
{
    law_hex_of_prefix(bytes, 3);
}

/// Three bytes or fewer are shown in full: `0x` and the hex of every byte.
pub proof fn law_short_hex_shows_few_bytes_whole(bytes: Seq<u8>)
    requires
        bytes.len() <= 3,
    ensures
        short_hex_text(bytes) == "0x"@ + hex_lower(bytes),
{
}

} // verus!
