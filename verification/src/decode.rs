//! From a hex message to a decoded XCM summary: hex decoding, the version of the
//! program, and the formatting of every instruction.

use vstd::prelude::*;
use vstd::string::StringSliceAdditionalSpecFns;
use vstd::utf8::encode_utf8;

use crate::scale::{decode_bare_v5, decode_versioned, scale_bare_v5, scale_versioned};
use crate::types::{CError, InstructionView, XcmMessage, XcmParser};
use crate::util::{hex_digit, hex_lower};
use crate::{v3, v4, v5};

verus! {

/// The value of a hex digit byte (either case).
pub open spec fn hex_value(b: u8) -> Option<nat> {
    if 48 <= b <= 57 {
        Some((b - 48) as nat)
    } else if 97 <= b <= 102 {
        Some((b - 87) as nat)
    } else if 65 <= b <= 70 {
        Some((b - 55) as nat)
    } else {
        None
    }
}

/// Text bytes that encode bytes in hex: an even number of hex digits.
pub open spec fn is_hex_text(text: Seq<u8>) -> bool {
    text.len() % 2 == 0 && forall|i: int| 0 <= i < text.len() ==> #[trigger] hex_value(text[i]) is Some
}

/// The bytes that hex text encodes, two digits per byte, high nibble first.
pub open spec fn hex_bytes(text: Seq<u8>) -> Seq<u8> {
    Seq::new(
        text.len() / 2,
        |i: int| (hex_value(text[2 * i]).unwrap() * 16 + hex_value(text[2 * i + 1]).unwrap()) as u8,
    )
}

/// The message of the error `hex::decode` reports for the given text.
pub uninterp spec fn hex_decode_error(text: Seq<u8>) -> Seq<char>;

/// `hex::decode` on the bytes of `text`: the decoded bytes when the text is an even
/// number of hex digits (either case); otherwise the error's message, which for an
/// odd length is "Odd number of digits".
#[verifier::external_body]
fn hex_decode(text: &str) -> (res: Result<Vec<u8>, String>)
    ensures
        res is Ok <==> is_hex_text(text.spec_bytes()),
        res is Ok ==> res->Ok_0@ == hex_bytes(text.spec_bytes()),
        res is Err ==> res->Err_0@ == hex_decode_error(text.spec_bytes()),
        res is Err && text.spec_bytes().len() % 2 == 1 ==> res->Err_0@ == "Odd number of digits"@,
{
    match hex::decode(text) {
        Ok(bytes) => Ok(bytes),
        Err(e) => Err(e.to_string()),
    }
}

/// The outcome of hex decoding: the bytes, or the decoder's message with the
/// explanation "Invalid character suspected!".
pub fn hex_decode_outcome(decoded: Result<Vec<u8>, String>) -> (res: Result<Vec<u8>, CError>)
    ensures
        decoded is Ok <==> res is Ok,
        res matches Ok(bytes) ==> bytes@ == decoded->Ok_0@,
        res matches Err(e) ==> e.error@ == decoded->Err_0@ && e.message@
            == "Invalid character suspected!"@,
{
    match decoded {
        Ok(bytes) => Ok(bytes),
        Err(msg) => Err(CError::new(msg, "Invalid character suspected!")),
    }
}

/// Decodes the hex text of a message into its bytes. Text that is not an even number
/// of hex digits is refused with the decoder's message and the explanation
/// "Invalid character suspected!".
pub fn decode_hex_message(message: &str) -> (res: Result<Vec<u8>, CError>)
    ensures
        res is Ok <==> is_hex_text(message.spec_bytes()),
        res matches Ok(bytes) ==> bytes@ == hex_bytes(message.spec_bytes()),
        res matches Err(e) ==> e.error@ == hex_decode_error(message.spec_bytes())
            && e.message@ == "Invalid character suspected!"@,
{
    hex_decode_outcome(hex_decode(message))
}

/// The message without a leading `0x`.
pub open spec fn without_hex_prefix(message: Seq<char>) -> Seq<char> {
    if message.len() >= 2 && message[0] == '0' && message[1] == 'x' {
        message.skip(2)
    } else {
        message
    }
}

/// Drops a leading `0x` from a hex message, if present.
pub fn strip_hex_prefix(message: &str) -> (s: &str)
    ensures
        s@ == without_hex_prefix(message@),
{
    let n = message.unicode_len();
    if n >= 2 && message.get_char(0) == '0' && message.get_char(1) == 'x' {
        message.substring_char(2, n)
    } else {
        message
    }
}

/// A decoded XCM program of any supported version.
pub enum VersionedXcm {
    V3(v3::Xcm),
    V4(v4::Xcm),
    V5(v5::model::Xcm),
}

pub open spec fn version_number(xcm: VersionedXcm) -> u32 {
    match xcm {
        VersionedXcm::V3(..) => 3,
        VersionedXcm::V4(..) => 4,
        VersionedXcm::V5(..) => 5,
    }
}

/// The number of top-level instructions.
pub open spec fn instruction_count(xcm: VersionedXcm) -> nat {
    match xcm {
        VersionedXcm::V3(x) => x.0@.len(),
        VersionedXcm::V4(x) => x.0@.len(),
        VersionedXcm::V5(x) => x.0@.len(),
    }
}

/// How the program's instructions are shown, in order.
pub open spec fn versioned_view(xcm: VersionedXcm) -> Seq<InstructionView> {
    match xcm {
        VersionedXcm::V3(x) => v3::program_view(x.0@),
        VersionedXcm::V4(x) => v4::program_view(x.0@),
        VersionedXcm::V5(x) => v5::instruction::program_view(x.0@),
    }
}

/// A decoded program can be shown: a v5 program's general keys fit their buffers
/// (programs of the older versions always can).
pub open spec fn versioned_fits(xcm: VersionedXcm) -> bool {
    xcm matches VersionedXcm::V5(x) ==> v5::instruction::program_fits(x.0@)
}

/// Whether a decoded program can be shown.
pub fn check_versioned(xcm: &VersionedXcm) -> (b: bool)
    ensures
        b == versioned_fits(*xcm),
{
    match xcm {
        VersionedXcm::V5(x) => v5::instruction::check_program(x),
        _ => true,
    }
}

/// Summarises a decoded program whose versioned encoding is `encoded_len` bytes long:
/// its version, its instruction count and every instruction formatted in order. The
/// count is always the number of formatted instructions.
pub fn summarize(xcm: &VersionedXcm, encoded_len: usize) -> (m: XcmMessage)
    requires
        versioned_fits(*xcm),
    ensures
        m.spec_version() == version_number(*xcm),
        m.spec_size() == instruction_count(*xcm),
        m.spec_bytes() == encoded_len,
        m.spec_instructions() == versioned_view(*xcm),
        m.spec_size() == m.spec_instructions().len(),
{
    match xcm {
        VersionedXcm::V3(x) => XcmMessage::new(3, x.0.len(), encoded_len, x.parse_message()),
        VersionedXcm::V4(x) => XcmMessage::new(4, x.0.len(), encoded_len, x.parse_message()),
        VersionedXcm::V5(x) => XcmMessage::new(5, x.0.len(), encoded_len, x.parse_message()),
    }
}

/// The outcome when the bytes are not a versioned program and are read as a bare v5
/// program instead: its summary as version 5 (with the length of its versioned
/// encoding), or the decoder's error with the explanation
/// "XCM message could not be interpreted.".
pub fn summarize_bare_v5(bare: Result<(v5::model::Xcm, usize), String>) -> (res: Result<XcmMessage, CError>)
    requires
        bare is Ok ==> v5::instruction::program_fits(bare->Ok_0.0.0@),
    ensures
        bare is Ok <==> res is Ok,
        res matches Ok(m) ==> {
            &&& m.spec_version() == 5
            &&& m.spec_size() == bare->Ok_0.0.0@.len()
            &&& m.spec_bytes() == bare->Ok_0.1
            &&& m.spec_instructions() == v5::instruction::program_view(bare->Ok_0.0.0@)
        },
        res matches Err(e) ==> e.error@ == bare->Err_0@ && e.message@ == "XCM message could not be interpreted."@,
{
    match bare {
        Ok((x, len)) => {
            let versioned = VersionedXcm::V5(x);
            Ok(summarize(&versioned, len))
        },
        Err(msg) => Err(CError::new(msg, "XCM message could not be interpreted.")),
    }
}

/// What decoding the bytes gives: the summary of the versioned program they hold, else
/// that of the bare v5 program they hold, else the bare decoder's error with the
/// explanation "XCM message could not be interpreted.".
pub open spec fn decoded_outcome(bytes: Seq<u8>, res: Result<XcmMessage, CError>) -> bool {
    match scale_versioned(bytes) {
        Some((x, n)) => res matches Ok(m) && {
            &&& m.spec_version() == version_number(x)
            &&& m.spec_size() == instruction_count(x)
            &&& m.spec_bytes() == n
            &&& m.spec_instructions() == versioned_view(x)
        },
        None => match scale_bare_v5(bytes) {
            Ok((x, n)) => res matches Ok(m) && {
                &&& m.spec_version() == 5
                &&& m.spec_size() == x.0@.len()
                &&& m.spec_bytes() == n
                &&& m.spec_instructions() == v5::instruction::program_view(x.0@)
            },
            Err(msg) => res matches Err(e) && e.error@ == msg
                && e.message@ == "XCM message could not be interpreted."@,
        },
    }
}

/// The program the bytes decode to, if any, can be shown.
pub open spec fn decoded_fits(bytes: Seq<u8>) -> bool {
    match scale_versioned(bytes) {
        Some((x, _)) => versioned_fits(x),
        None => match scale_bare_v5(bytes) {
            Ok((x, _)) => v5::instruction::program_fits(x.0@),
            Err(_) => true,
        },
    }
}

/// Decodes a hex-encoded XCM message into a version-agnostic [`XcmMessage`]. Text that
/// is not an even number of hex digits is refused with the hex decoder's message and
/// "Invalid character suspected!"; the bytes are read as a versioned program, or
/// failing that as a bare v5 program, and are refused with "XCM message could not be
/// interpreted." where neither decodes. The instruction count is always the number of
/// formatted instructions.
pub fn decode_xcm_message(message: String) -> (res: Result<XcmMessage, CError>)
    requires
        is_hex_text(encode_utf8(message@)) ==> decoded_fits(hex_bytes(encode_utf8(message@))),
    ensures
        !is_hex_text(encode_utf8(message@)) ==> (res matches Err(e)
            && e.error@ == hex_decode_error(encode_utf8(message@))
            && e.message@ == "Invalid character suspected!"@),
        is_hex_text(encode_utf8(message@)) ==> decoded_outcome(hex_bytes(encode_utf8(message@)), res),
        res matches Ok(m) ==> m.spec_size() == m.spec_instructions().len(),
        res matches Ok(m) ==> 3 <= m.spec_version() <= 5,
        res matches Ok(m) ==> 2 <= m.spec_bytes() <= encode_utf8(message@).len() / 2 + 1,
{
    let raw_bytes = match decode_hex_message(message.as_str()) {
        Ok(bytes) => bytes,
        Err(e) => return Err(e),
    };
    match decode_versioned(raw_bytes.as_slice()) {
        Some((xcm, encoded_len)) => Ok(summarize(&xcm, encoded_len)),
        None => summarize_bare_v5(decode_bare_v5(raw_bytes.as_slice())),
    }
}

/// Decodes a hex-encoded XCM message as `decode_xcm_message` does, where the decoded
/// program can be shown; `None` where it holds a general key whose declared length
/// exceeds its 32-byte buffer (which cannot be sliced out of it).
pub fn try_decode_xcm_message(message: String) -> (res: Option<Result<XcmMessage, CError>>)
    ensures
        res is None <==> is_hex_text(encode_utf8(message@)) && !decoded_fits(
            hex_bytes(encode_utf8(message@)),
        ),
        !is_hex_text(encode_utf8(message@)) ==> (res matches Some(Err(e))
            && e.error@ == hex_decode_error(encode_utf8(message@))
            && e.message@ == "Invalid character suspected!"@),
        res matches Some(r) ==> (is_hex_text(encode_utf8(message@)) ==> decoded_outcome(
            hex_bytes(encode_utf8(message@)),
            r,
        )),
        res matches Some(Ok(m)) ==> {
            &&& 3 <= m.spec_version() <= 5
            &&& m.spec_size() == m.spec_instructions().len()
            &&& 2 <= m.spec_bytes() <= encode_utf8(message@).len() / 2 + 1
        },
{
    let raw_bytes = match decode_hex_message(message.as_str()) {
        Ok(bytes) => bytes,
        Err(e) => return Some(Err(e)),
    };
    let fits = match decode_versioned(raw_bytes.as_slice()) {
        Some((xcm, _)) => check_versioned(&xcm),
        None => match decode_bare_v5(raw_bytes.as_slice()) {
            Ok((xcm, _)) => v5::instruction::check_program(&xcm),
            Err(_) => true,
        },
    };
    if fits {
        Some(decode_xcm_message(message))
    } else {
        None
    }
}

/// The version a summary reports is the tag of the decoded program: 3 for a v3 program,
/// 4 for a v4 one and 5 for a v5 one, so programs of different versions never report
/// the same version.
pub proof fn law_version_is_the_program_tag(xcm: VersionedXcm, other: VersionedXcm)
    ensures
        xcm is V3 ==> version_number(xcm) == 3,
        xcm is V4 ==> version_number(xcm) == 4,
        xcm is V5 ==> version_number(xcm) == 5,
        version_number(xcm) == version_number(other) ==> (xcm is V3 <==> other is V3) && (xcm is V4
            <==> other is V4),
{
}

proof fn lemma_hex_digit_value(v: nat)
    requires
        v < 16,
    ensures
        hex_value(hex_digit(v) as u8) == Some(v),
{
}

/// Hex decoding reads back what hex encoding writes: the lowercase hex of any bytes is
/// hex text, and it decodes to those bytes.
pub proof fn law_hex_round_trip(bytes: Seq<u8>)
    ensures
        is_hex_text(hex_lower(bytes).map_values(|c: char| c as u8)),
        hex_bytes(hex_lower(bytes).map_values(|c: char| c as u8)) == bytes,
{
    let text = hex_lower(bytes).map_values(|c: char| c as u8);
    assert forall|i: int| 0 <= i < text.len() implies #[trigger] hex_value(text[i]) is Some by {
        if i % 2 == 0 {
            lemma_hex_digit_value((bytes[i / 2] / 16) as nat);
        } else {
            lemma_hex_digit_value((bytes[i / 2] % 16) as nat);
        }
    }
    assert forall|i: int| 0 <= i < bytes.len() implies #[trigger] hex_bytes(text)[i] == bytes[i] by {
        assert((2 * i) % 2 == 0);
        assert((2 * i + 1) % 2 == 1);
        assert((2 * i) / 2 == i);
        assert((2 * i + 1) / 2 == i);
        lemma_hex_digit_value((bytes[i] / 16) as nat);
        lemma_hex_digit_value((bytes[i] % 16) as nat);
    }
    assert(hex_bytes(text) =~= bytes);
}

} // verus!
