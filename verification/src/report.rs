//! The printed reports: the layout of a generated example message and of a decoded
//! message, as the lines a terminal shows.

use vstd::prelude::*;

use crate::params::Entry;
use crate::text::{decimal, decimal_string, push_char, wrap, wrap_decimal};
use crate::types::{InstructionView, XcmInstruction, XcmMessage};
use crate::util::{hex_digit, hex_encode, hex_lower};

verus! {

/// `d` padded on the left with zeros to at least `width` characters.
pub open spec fn zero_pad(d: Seq<char>, width: nat) -> Seq<char> {
    if d.len() >= width {
        d
    } else {
        Seq::new((width - d.len()) as nat, |i: int| '0') + d
    }
}

/// A byte as two lowercase hex digits.
pub open spec fn byte_hex(b: u8) -> Seq<char> {
    seq![hex_digit((b / 16) as nat), hex_digit((b % 16) as nat)]
}

/// The banner rule above and below a report's title.
pub open spec fn banner() -> Seq<char> {
    "============================================================"@
}

/// The report on a generated message: title, version, instruction count and encoded
/// size, the instruction names, the SCALE encoding in hex, and every byte on a
/// numbered line.
pub open spec fn message_report(
    name: Seq<char>,
    version: Seq<char>,
    instructions: Seq<Seq<char>>,
    encoded: Seq<u8>,
) -> Seq<Seq<char>> {
    seq![
        Seq::empty(),
        banner(),
        name,
        banner(),
        "Version:      "@ + version,
        "Instructions: "@ + decimal(instructions.len()),
        "Encoded size: "@ + decimal(encoded.len()) + " bytes"@,
        Seq::empty(),
        "Instructions:"@,
    ] + Seq::new(
        instructions.len(),
        |i: int| "  ["@ + decimal(i as nat) + "] "@ + instructions[i],
    ) + seq![Seq::empty(), "SCALE:"@, "  0x"@ + hex_lower(encoded), Seq::empty(), "Bytes:"@]
        + Seq::new(
        encoded.len(),
        |i: int| "  ["@ + zero_pad(decimal(i as nat), 3) + "] 0x"@ + byte_hex(encoded[i]),
    ) + seq![Seq::empty()]
}

fn hex_digit_char(v: u8) -> (c: char)
    requires
        v < 16,
    ensures
        c == hex_digit(v as nat),
{
    match v {
        0 => '0',
        1 => '1',
        2 => '2',
        3 => '3',
        4 => '4',
        5 => '5',
        6 => '6',
        7 => '7',
        8 => '8',
        9 => '9',
        10 => 'a',
        11 => 'b',
        12 => 'c',
        13 => 'd',
        14 => 'e',
        _ => 'f',
    }
}

fn byte_line(index: usize, b: u8) -> (s: String)
    ensures
        s@ == "  ["@ + zero_pad(decimal(index as nat), 3) + "] 0x"@ + byte_hex(b),
{
    let digits = decimal_string(index as u128);
    let mut s = String::from_str("  [");
    let n = digits.as_str().unicode_len();
    if n < 3 {
        let ghost before = s@;
        let mut k: usize = n;
        while k < 3
            invariant
                n <= k <= 3,
                s@ == before + Seq::new((k - n) as nat, |i: int| '0'),
            decreases 3 - k,
        {
            push_char(&mut s, '0');
            k = k + 1;
            assert(s@ =~= before + Seq::new((k - n) as nat, |i: int| '0'));
        }
    }
    s.append(digits.as_str());
    s.append("] 0x");
    push_char(&mut s, hex_digit_char(b / 16));
    push_char(&mut s, hex_digit_char(b % 16));
    s
}

/// Lays out the report on a generated message, one string per printed line.
pub fn render_message(name: &str, version: &str, instructions: &[&str], encoded: &[u8]) -> (lines: Vec<String>)
    ensures
        lines.deep_view() == message_report(name@, version@, instructions.deep_view(), encoded@),
{
    let ghost expected = message_report(name@, version@, instructions.deep_view(), encoded@);
    let mut lines: Vec<String> = Vec::new();
    lines.push(String::new());
    lines.push(String::from_str("============================================================"));
    lines.push(String::from_str(name));
    lines.push(String::from_str("============================================================"));
    lines.push(wrap("Version:      ", version, ""));
    lines.push(wrap_decimal("Instructions: ", instructions.len() as u128, ""));
    lines.push(wrap_decimal("Encoded size: ", encoded.len() as u128, " bytes"));
    lines.push(String::new());
    lines.push(String::from_str("Instructions:"));
    proof {
        reveal_strlit("");
    }
    let ghost head = lines.deep_view();
    let ghost part_a = seq![
        Seq::<char>::empty(),
        banner(),
        name@,
        banner(),
        "Version:      "@ + version@,
        "Instructions: "@ + decimal(instructions@.len() as nat),
        "Encoded size: "@ + decimal(encoded@.len()) + " bytes"@,
        Seq::<char>::empty(),
        "Instructions:"@,
    ];
    assert(head =~= part_a);
    let ghost part_b = Seq::new(
        instructions@.len(),
        |k: int| "  ["@ + decimal(k as nat) + "] "@ + instructions.deep_view()[k],
    );
    let mut i: usize = 0;
    while i < instructions.len()
        invariant
            i <= instructions.len(),
            lines@.len() == head.len() + i,
            forall|k: int| 0 <= k < head.len() ==> (#[trigger] lines@[k])@ == head[k],
            forall|k: int|
                0 <= k < i ==> (#[trigger] lines@[head.len() + k])@ == "  ["@ + decimal(k as nat)
                    + "] "@ + instructions@[k]@,
        decreases instructions.len() - i,
    {
        lines.push(wrap("  [", decimal_string(i as u128).as_str(), "] ").concat(instructions[i]));
        i = i + 1;
    }
    lines.push(String::new());
    lines.push(String::from_str("SCALE:"));
    lines.push(wrap("  0x", hex_encode(encoded).as_str(), ""));
    lines.push(String::new());
    lines.push(String::from_str("Bytes:"));
    let ghost middle = lines.deep_view();
    assert forall|k: int| 0 <= k < part_b.len() implies middle[9 + k] == part_b[k] by {
        assert(lines@[9 + k]@ == "  ["@ + decimal(k as nat) + "] "@ + instructions@[k]@);
        assert(instructions.deep_view()[k] == instructions@[k]@);
    }
    assert(middle =~= part_a + part_b + seq![Seq::<char>::empty(), "SCALE:"@, "  0x"@ + hex_lower(encoded@), Seq::<char>::empty(), "Bytes:"@]);
    let mut j: usize = 0;
    while j < encoded.len()
        invariant
            j <= encoded.len(),
            lines@.len() == middle.len() + j,
            forall|k: int| 0 <= k < middle.len() ==> (#[trigger] lines@[k])@ == middle[k],
            forall|k: int|
                0 <= k < j ==> (#[trigger] lines@[middle.len() + k])@ == "  ["@ + zero_pad(
                    decimal(k as nat),
                    3,
                ) + "] 0x"@ + byte_hex(encoded@[k]),
        decreases encoded.len() - j,
    {
        lines.push(byte_line(j, encoded[j]));
        j = j + 1;
    }
    lines.push(String::new());
    let ghost part_d = Seq::new(
        encoded@.len(),
        |k: int| "  ["@ + zero_pad(decimal(k as nat), 3) + "] 0x"@ + byte_hex(encoded@[k]),
    );
    assert forall|k: int| 0 <= k < part_d.len() implies lines.deep_view()[middle.len() + k] == part_d[k] by {
        assert(lines@[middle.len() + k]@ == part_d[k]);
    }
    assert(lines.deep_view() =~= middle + part_d + seq![Seq::<char>::empty()]);
    assert(expected =~= part_a + part_b + seq![Seq::<char>::empty(), "SCALE:"@, "  0x"@ + hex_lower(encoded@), Seq::<char>::empty(), "Bytes:"@] + part_d + seq![Seq::<char>::empty()]);
    lines
}

/// Whether `c` has the Unicode White_Space property.
pub open spec fn is_white_space(c: char) -> bool {
    let u = c as u32;
    ||| 0x9 <= u <= 0xd
    ||| u == 0x20
    ||| u == 0x85
    ||| u == 0xa0
    ||| u == 0x1680
    ||| 0x2000 <= u <= 0x200a
    ||| u == 0x2028
    ||| u == 0x2029
    ||| u == 0x202f
    ||| u == 0x205f
    ||| u == 0x3000
}

/// `s` without its trailing white space.
pub open spec fn trim_end(s: Seq<char>) -> Seq<char>
    decreases s.len(),
{
    if s.len() > 0 && is_white_space(s.last()) {
        trim_end(s.drop_last())
    } else {
        s
    }
}

/// The pieces of `s` between newlines (one more piece than there are newlines).
pub open spec fn pieces(s: Seq<char>) -> Seq<Seq<char>>
    decreases s.len(),
{
    if s.len() == 0 {
        seq![Seq::empty()]
    } else {
        let p = pieces(s.drop_last());
        if s.last() == '\n' {
            p.push(Seq::empty())
        } else {
            p.update(p.len() - 1, p.last().push(s.last()))
        }
    }
}

/// The lines of a text: the pieces between newlines, where a final newline does not
/// start another line and an empty text has no lines.
pub open spec fn text_lines(s: Seq<char>) -> Seq<Seq<char>> {
    if s.len() == 0 {
        Seq::empty()
    } else if s.last() == '\n' {
        pieces(s.drop_last())
    } else {
        pieces(s)
    }
}

/// Each line of a parameter value, as a bullet without trailing white space.
pub open spec fn line_report(line: Seq<char>) -> Seq<Seq<char>> {
    Seq::new(
        text_lines(line).len(),
        |k: int| "         - "@ + trim_end(text_lines(line)[k]),
    )
}

/// A parameter row: its label, then the bullets of each of its values.
pub open spec fn row_report(row: Entry) -> Seq<Seq<char>> {
    seq!["      "@ + row.0 + ":"@] + Seq::new(row.1.len(), |k: int| line_report(row.1[k])).flatten_alt()
}

/// An instruction: two blank lines, its index and name, then its rows.
pub open spec fn instruction_report(index: nat, instr: InstructionView) -> Seq<Seq<char>> {
    seq![Seq::empty(), Seq::empty(), "["@ + decimal(index) + "] "@ + instr.0] + Seq::new(
        instr.1.len(),
        |j: int| row_report(instr.1[j]),
    ).flatten_alt()
}

/// The header of a decoded message's report.
pub open spec fn decode_report_header(version: u32, size: nat, bytes: nat) -> Seq<Seq<char>> {
    seq![
        Seq::empty(),
        " Decoding XCM Message"@,
        "------------------------- "@,
        Seq::empty(),
        "Version:"@,
        "  V"@ + decimal(version as nat) + " "@,
        Seq::empty(),
        "Instructions:"@,
        "  "@ + decimal(size),
        Seq::empty(),
        "Encoded Size:"@,
        "  "@ + decimal(bytes) + " bytes"@,
    ]
}

/// The report on a decoded message: its version, instruction count and encoded size,
/// then every instruction with its rows.
pub open spec fn decode_report(
    version: u32,
    size: nat,
    bytes: nat,
    instructions: Seq<InstructionView>,
) -> Seq<Seq<char>> {
    decode_report_header(version, size, bytes) + Seq::new(
        instructions.len(),
        |i: int| instruction_report(i as nat, instructions[i]),
    ).flatten_alt()
}

proof fn lemma_pieces_nonempty(s: Seq<char>)
    ensures
        pieces(s).len() >= 1,
    decreases s.len(),
{
    if s.len() > 0 {
        lemma_pieces_nonempty(s.drop_last());
    }
}

/// The characters of a text.
pub fn char_vec(s: &str) -> (v: Vec<char>)
    ensures
        v@ == s@,
{
    let n = s.unicode_len();
    let mut v: Vec<char> = Vec::new();
    let mut i: usize = 0;
    while i < n
        invariant
            n == s@.len(),
            i <= n,
            v@ == s@.take(i as int),
        decreases n - i,
    {
        v.push(s.get_char(i));
        i = i + 1;
        assert(v@ =~= s@.take(i as int));
    }
    assert(s@.take(n as int) =~= s@);
    v
}

fn is_white_space_char(c: char) -> (b: bool)
    ensures
        b == is_white_space(c),
{
    let u = c as u32;
    (0x9 <= u && u <= 0xd) || u == 0x20 || u == 0x85 || u == 0xa0 || u == 0x1680 || (0x2000 <= u
        && u <= 0x200a) || u == 0x2028 || u == 0x2029 || u == 0x202f || u == 0x205f || u == 0x3000
}

proof fn lemma_trim_end_prefix(s: Seq<char>, end: int)
    requires
        0 <= end <= s.len(),
        forall|k: int| end <= k < s.len() ==> is_white_space(#[trigger] s[k]),
        end == 0 || !is_white_space(s[end - 1]),
    ensures
        trim_end(s) == s.take(end),
    decreases s.len(),
{
    if s.len() > end {
        lemma_trim_end_prefix(s.drop_last(), end);
        assert(s.drop_last().take(end) == s.take(end));
    } else {
        assert(s.take(end) == s);
    }
}

/// Appends the bullet of one line piece: its text without trailing white space.
fn push_bullet(out: &mut Vec<String>, piece: &Vec<char>)
    ensures
        final(out).deep_view() == old(out).deep_view().push("         - "@ + trim_end(piece@)),
{
    let mut end = piece.len();
    while end > 0 && is_white_space_char(piece[end - 1])
        invariant
            end <= piece.len(),
            forall|k: int| end <= k < piece@.len() ==> is_white_space(#[trigger] piece@[k]),
        decreases end,
    {
        end = end - 1;
    }
    proof {
        lemma_trim_end_prefix(piece@, end as int);
    }
    let mut s = String::from_str("         - ");
    let ghost before = s@;
    let mut k: usize = 0;
    while k < end
        invariant
            k <= end <= piece.len(),
            s@ == before + piece@.take(k as int),
        decreases end - k,
    {
        push_char(&mut s, piece[k]);
        k = k + 1;
        assert(s@ =~= before + piece@.take(k as int));
    }
    let ghost prev = out.deep_view();
    out.push(s);
    assert(out.deep_view() =~= prev.push("         - "@ + trim_end(piece@)));
}

/// Appends the bullets of every line of a parameter value.
fn push_line_report(out: &mut Vec<String>, line: &String)
    ensures
        final(out).deep_view() == old(out).deep_view() + line_report(line@),
{
    let chars = char_vec(line.as_str());
    let ghost start = out.deep_view();
    let ghost text = line@;
    let mut current: Vec<char> = Vec::new();
    let mut emitted: usize = 0;
    let mut i: usize = 0;
    proof {
        lemma_pieces_nonempty(text.take(0));
        assert(text.take(0) =~= Seq::<char>::empty());
    }
    while i < chars.len()
        invariant
            chars@ == text,
            i <= chars.len(),
            pieces(text.take(i as int)).len() == emitted + 1,
            emitted <= i,
            current@ == pieces(text.take(i as int)).last(),
            out.deep_view() == start + Seq::new(
                emitted as nat,
                |k: int| "         - "@ + trim_end(pieces(text.take(i as int))[k]),
            ),
        decreases chars.len() - i,
    {
        let ghost p = pieces(text.take(i as int));
        proof {
            lemma_pieces_nonempty(text.take(i as int));
            assert(text.take(i + 1).drop_last() =~= text.take(i as int));
            assert(text.take(i + 1).last() == chars@[i as int]);
        }
        if chars[i] == '\n' {
            let ghost prev_out = out.deep_view();
            push_bullet(out, &current);
            current = Vec::new();
            emitted = emitted + 1;
            let ghost q = pieces(text.take(i + 1));
            assert(q =~= p.push(Seq::empty()));
            assert(out.deep_view() =~= start + Seq::new(
                emitted as nat,
                |k: int| "         - "@ + trim_end(q[k]),
            ));
        } else {
            current.push(chars[i]);
            let ghost q = pieces(text.take(i + 1));
            assert(q =~= p.update(p.len() - 1, p.last().push(chars@[i as int])));
            assert(Seq::new(emitted as nat, |k: int| "         - "@ + trim_end(q[k])) =~= Seq::new(
                emitted as nat,
                |k: int| "         - "@ + trim_end(p[k]),
            ));
        }
        i = i + 1;
    }
    assert(text.take(i as int) =~= text);
    if chars.len() > 0 && chars[chars.len() - 1] != '\n' {
        push_bullet(out, &current);
        assert(out.deep_view() =~= start + line_report(text));
    } else {
        if chars.len() > 0 {
            assert(pieces(text) =~= pieces(text.drop_last()).push(Seq::empty()));
        }
        assert(out.deep_view() =~= start + line_report(text));
    }
}

/// Appends the report of one parameter row.
fn push_row_report(out: &mut Vec<String>, key: &String, values: &Vec<String>)
    ensures
        final(out).deep_view() == old(out).deep_view() + row_report((key@, values.deep_view())),
{
    let ghost start = out.deep_view();
    let ghost row = (key@, values.deep_view());
    out.push(wrap("      ", key.as_str(), ":"));
    let ghost head = out.deep_view();
    assert(head =~= start + seq!["      "@ + key@ + ":"@]);
    let mut i: usize = 0;
    assert(Seq::new(0, |k: int| line_report(row.1[k])).flatten_alt() =~= Seq::<Seq<char>>::empty());
    while i < values.len()
        invariant
            i <= values.len(),
            row.1 == values.deep_view(),
            out.deep_view() == head + Seq::new(i as nat, |k: int| line_report(row.1[k])).flatten_alt(),
        decreases values.len() - i,
    {
        push_line_report(out, &values[i]);
        assert(Seq::new((i + 1) as nat, |k: int| line_report(row.1[k])).drop_last() =~= Seq::new(
            i as nat,
            |k: int| line_report(row.1[k]),
        ));
        i = i + 1;
    }
    assert(Seq::new(i as nat, |k: int| line_report(row.1[k])) =~= Seq::new(
        row.1.len(),
        |k: int| line_report(row.1[k]),
    ));
    assert(out.deep_view() =~= start + row_report(row));
}

/// Appends the report of one formatted instruction.
fn push_instruction_report(out: &mut Vec<String>, index: usize, instr: &XcmInstruction)
    ensures
        final(out).deep_view() == old(out).deep_view() + instruction_report(index as nat, instr@),
{
    let ghost start = out.deep_view();
    let rows = instr.params.entries();
    out.push(String::new());
    out.push(String::new());
    out.push(wrap_decimal("[", index as u128, "] ").concat(instr.name.as_str()));
    let ghost head = out.deep_view();
    assert(head =~= start + seq![
        Seq::<char>::empty(),
        Seq::<char>::empty(),
        "["@ + decimal(index as nat) + "] "@ + instr@.0,
    ]);
    let ghost table = instr@.1;
    let mut j: usize = 0;
    assert(Seq::new(0, |k: int| row_report(table[k])).flatten_alt() =~= Seq::<Seq<char>>::empty());
    while j < rows.len()
        invariant
            j <= rows.len(),
            rows.deep_view() == table,
            out.deep_view() == head + Seq::new(j as nat, |k: int| row_report(table[k])).flatten_alt(),
        decreases rows.len() - j,
    {
        assert(table[j as int] == (rows@[j as int].0@, rows@[j as int].1.deep_view()));
        push_row_report(out, &rows[j].0, &rows[j].1);
        assert(Seq::new((j + 1) as nat, |k: int| row_report(table[k])).drop_last() =~= Seq::new(
            j as nat,
            |k: int| row_report(table[k]),
        ));
        j = j + 1;
    }
    assert(Seq::new(j as nat, |k: int| row_report(table[k])) =~= Seq::new(
        table.len(),
        |k: int| row_report(table[k]),
    ));
    assert(out.deep_view() =~= start + instruction_report(index as nat, instr@));
}

/// Lays out the report on a decoded message, one string per printed line.
pub fn render_decode_report(xcm: &XcmMessage) -> (lines: Vec<String>)
    ensures
        lines.deep_view() == decode_report(
            xcm.spec_version(),
            xcm.spec_size() as nat,
            xcm.spec_bytes() as nat,
            xcm.spec_instructions(),
        ),
{
    proof {
        reveal_strlit("");
    }
    let mut out: Vec<String> = Vec::new();
    out.push(String::new());
    out.push(String::from_str(" Decoding XCM Message"));
    out.push(String::from_str("------------------------- "));
    out.push(String::new());
    out.push(String::from_str("Version:"));
    out.push(wrap_decimal("  V", xcm.version() as u128, " "));
    out.push(String::new());
    out.push(String::from_str("Instructions:"));
    out.push(wrap_decimal("  ", xcm.size() as u128, ""));
    out.push(String::new());
    out.push(String::from_str("Encoded Size:"));
    out.push(wrap_decimal("  ", xcm.bytes() as u128, " bytes"));
    let ghost head = out.deep_view();
    assert(head =~= decode_report_header(
        xcm.spec_version(),
        xcm.spec_size() as nat,
        xcm.spec_bytes() as nat,
    ));
    let instructions = xcm.instructions();
    let ghost views = xcm.spec_instructions();
    let mut i: usize = 0;
    assert(Seq::new(0, |k: int| instruction_report(k as nat, views[k])).flatten_alt() =~= Seq::<
        Seq<char>,
    >::empty());
    while i < instructions.len()
        invariant
            i <= instructions.len(),
            instructions.deep_view() == views,
            out.deep_view() == head + Seq::new(
                i as nat,
                |k: int| instruction_report(k as nat, views[k]),
            ).flatten_alt(),
        decreases instructions.len() - i,
    {
        assert(views[i as int] == instructions@[i as int]@);
        push_instruction_report(&mut out, i, &instructions[i]);
        assert(Seq::new((i + 1) as nat, |k: int| instruction_report(k as nat, views[k])).drop_last()
            =~= Seq::new(i as nat, |k: int| instruction_report(k as nat, views[k])));
        i = i + 1;
    }
    assert(Seq::new(i as nat, |k: int| instruction_report(k as nat, views[k])) =~= Seq::new(
        views.len(),
        |k: int| instruction_report(k as nat, views[k]),
    ));
    out
}

/// A row reports its label, then the bullets of each of its values in order: with no
/// values it is the label line alone, and one more value adds that value's bullets at
/// the end, so every line of every value is reported.
pub proof fn law_row_report_holds_every_value(label: Seq<char>, values: Seq<Seq<char>>, value: Seq<char>)
    ensures
        row_report((label, Seq::empty())) == seq!["      "@ + label + ":"@],
        row_report((label, values.push(value))) == row_report((label, values)) + line_report(value),
        row_report((label, values.push(value))).len() == row_report((label, values)).len()
            + text_lines(value).len(),
{
    let f = |k: int| line_report(values.push(value)[k]);
    let g = |k: int| line_report(values[k]);
    assert(Seq::new(values.len() + 1, f).drop_last() =~= Seq::new(values.len(), g));
    assert(Seq::new(0, |k: int| line_report(Seq::<Seq<char>>::empty()[k])).flatten_alt()
        =~= Seq::<Seq<char>>::empty());
    assert(seq!["      "@ + label + ":"@] + Seq::<Seq<char>>::empty() =~= seq!["      "@ + label + ":"@]);
    assert(Seq::new(values.len() + 1, f).last() == line_report(value));
    assert(row_report((label, values.push(value))) =~= row_report((label, values)) + line_report(value));
}

/// Trimming keeps a prefix of the text and drops only white space: what remains is
/// empty or ends in a character that is not white space.
pub proof fn law_trim_end_drops_only_trailing_white_space(s: Seq<char>)
    ensures
        trim_end(s).len() <= s.len(),
        trim_end(s) == s.take(trim_end(s).len() as int),
        forall|k: int| trim_end(s).len() <= k < s.len() ==> is_white_space(#[trigger] s[k]),
        trim_end(s).len() == 0 || !is_white_space(trim_end(s).last()),
    decreases s.len(),
{
    if s.len() > 0 && is_white_space(s.last()) {
        law_trim_end_drops_only_trailing_white_space(s.drop_last());
        let t = trim_end(s.drop_last());
        assert(s.drop_last().take(t.len() as int) =~= s.take(t.len() as int));
        assert forall|k: int| t.len() <= k < s.len() implies is_white_space(#[trigger] s[k]) by {
            if k < s.len() - 1 {
                assert(s[k] == s.drop_last()[k]);
            }
        }
    } else {
        assert(s.take(s.len() as int) =~= s);
    }
}

proof fn lemma_pieces_free(s: Seq<char>)
    requires
        forall|k: int| 0 <= k < s.len() ==> s[k] != '\n',
    ensures
        pieces(s) == seq![s],
    decreases s.len(),
{
    if s.len() > 0 {
        lemma_pieces_free(s.drop_last());
        assert(s.drop_last().push(s.last()) =~= s);
        assert(seq![s.drop_last()].update(0, s) =~= seq![s]);
    } else {
        assert(s =~= Seq::<char>::empty());
    }
}

proof fn lemma_pieces_split(x: Seq<char>, y: Seq<char>)
    ensures
        pieces(x + seq!['\n'] + y) == pieces(x) + pieces(y),
    decreases y.len(),
{
    let s = x + seq!['\n'] + y;
    if y.len() == 0 {
        assert(s.drop_last() =~= x);
        assert(pieces(x).push(Seq::empty()) =~= pieces(x) + seq![Seq::<char>::empty()]);
    } else {
        lemma_pieces_split(x, y.drop_last());
        lemma_pieces_nonempty(y.drop_last());
        assert(s.drop_last() =~= x + seq!['\n'] + y.drop_last());
        assert(s.last() == y.last());
        let p = pieces(x);
        let q = pieces(y.drop_last());
        if y.last() == '\n' {
            assert((p + q).push(Seq::empty()) =~= p + q.push(Seq::empty()));
        } else {
            assert((p + q).update((p + q).len() - 1, (p + q).last().push(y.last())) =~= p + q.update(
                q.len() - 1,
                q.last().push(y.last()),
            ));
        }
    }
}

/// A value on one line (no newline) gives a single bullet: the line without its
/// trailing white space.
pub proof fn law_single_line_is_one_bullet(line: Seq<char>)
    requires
        line.len() > 0,
        forall|k: int| 0 <= k < line.len() ==> line[k] != '\n',
    ensures
        line_report(line) == seq!["         - "@ + trim_end(line)],
{
    lemma_pieces_free(line);
    assert(line_report(line) =~= seq!["         - "@ + trim_end(line)]);
}

/// A value's bullets are those of the text before a newline followed by those of the
/// text after it: every line of the value is reported, in order.
pub proof fn law_line_report_splits_at_newlines(a: Seq<char>, b: Seq<char>)
    requires
        a.len() > 0,
        a.last() != '\n',
        b.len() > 0,
    ensures
        line_report(a + seq!['\n'] + b) == line_report(a) + line_report(b),
{
    let s = a + seq!['\n'] + b;
    if b.last() == '\n' {
        assert(s.drop_last() =~= a + seq!['\n'] + b.drop_last());
        lemma_pieces_split(a, b.drop_last());
    } else {
        lemma_pieces_split(a, b);
    }
    assert(text_lines(s) =~= text_lines(a) + text_lines(b));
    assert(line_report(s) =~= line_report(a) + line_report(b));
}

/// An instruction reports two blank lines and its index and name, then the report of
/// each of its rows in order: one more row adds that row's report at the end.
pub proof fn law_instruction_report_holds_every_row(index: nat, name: Seq<char>, rows: Seq<Entry>, row: Entry)
    ensures
        instruction_report(index, (name, Seq::empty())) == seq![
            Seq::<char>::empty(),
            Seq::<char>::empty(),
            "["@ + decimal(index) + "] "@ + name,
        ],
        instruction_report(index, (name, rows.push(row))) == instruction_report(index, (name, rows))
            + row_report(row),
{
    let f = |j: int| row_report(rows.push(row)[j]);
    let g = |j: int| row_report(rows[j]);
    assert(Seq::new(rows.len() + 1, f).drop_last() =~= Seq::new(rows.len(), g));
    assert(Seq::new(rows.len() + 1, f).last() == row_report(row));
    let head = seq![Seq::<char>::empty(), Seq::<char>::empty(), "["@ + decimal(index) + "] "@ + name];
    assert(Seq::new(0, |j: int| row_report(Seq::<Entry>::empty()[j])).flatten_alt() =~= Seq::<Seq<char>>::empty());
    assert(head + Seq::<Seq<char>>::empty() =~= head);
    assert(instruction_report(index, (name, rows.push(row))) =~= instruction_report(index, (name, rows))
        + row_report(row));
}

/// A decoded message's report is its header, then each instruction's report numbered
/// from zero in order: one more instruction adds its report, numbered by its position.
pub proof fn law_decode_report_holds_every_instruction(
    version: u32,
    size: nat,
    bytes: nat,
    instructions: Seq<InstructionView>,
    instr: InstructionView,
)
    ensures
        decode_report(version, size, bytes, Seq::empty()) == decode_report_header(version, size, bytes),
        decode_report(version, size, bytes, instructions.push(instr)) == decode_report(
            version,
            size,
            bytes,
            instructions,
        ) + instruction_report(instructions.len(), instr),
{
    let f = |i: int| instruction_report(i as nat, instructions.push(instr)[i]);
    let g = |i: int| instruction_report(i as nat, instructions[i]);
    assert(Seq::new(instructions.len() + 1, f).drop_last() =~= Seq::new(instructions.len(), g));
    assert(Seq::new(instructions.len() + 1, f).last() == instruction_report(instructions.len(), instr));
    let head = decode_report_header(version, size, bytes);
    assert(Seq::new(0, |i: int| instruction_report(i as nat, Seq::<InstructionView>::empty()[i])).flatten_alt()
        =~= Seq::<Seq<char>>::empty());
    assert(head + Seq::<Seq<char>>::empty() =~= head);
    assert(decode_report(version, size, bytes, instructions.push(instr)) =~= decode_report(
        version,
        size,
        bytes,
        instructions,
    ) + instruction_report(instructions.len(), instr));
}

} // verus!
