//! Version-agnostic views of decoded XCM programs.

use vstd::prelude::*;

use crate::params::{Entry, Params};

verus! {

/// Version-agnostic view of a single XCM instruction.
pub struct XcmInstruction {
    pub name: String,
    pub params: Params,
}

/// What a formatted instruction shows: its name and its parameter rows.
pub type InstructionView = (Seq<char>, Seq<Entry>);

impl View for XcmInstruction {
    type V = InstructionView;

    open spec fn view(&self) -> InstructionView {
        (self.name@, self.params@)
    }
}

impl DeepView for XcmInstruction {
    type V = InstructionView;

    open spec fn deep_view(&self) -> InstructionView {
        self@
    }
}

/// The single row `"Note"` holding `note`.
pub open spec fn note_rows(note: Seq<char>) -> Seq<Entry> {
    seq![("Note"@, seq![note])]
}

impl XcmInstruction {
    pub fn new(name: &str, params: Params) -> (r: Self)
        ensures
            r.name@ == name@,
            r.params@ == params@,
    {
        XcmInstruction { name: String::from_str(name), params }
    }

    /// An instruction described by a single explanatory note.
    pub fn note(name: &str, note: &str) -> (r: Self)
        ensures
            r.name@ == name@,
            r.params@ == note_rows(note@),
    {
        let mut params = Params::new();
        let mut lines: Vec<String> = Vec::new();
        lines.push(String::from_str(note));
        params.insert(String::from_str("Note"), lines);
        assert(lines.deep_view() =~= seq![note@]);
        Self::new(name, params)
    }
}

/// Decoded XCM message summary shared across all versions.
pub struct XcmMessage {
    /// XCM version (3 | 4 | 5).
    version: u32,
    /// Number of top-level instructions.
    size: usize,
    /// Encoded byte length of the versioned message.
    bytes: usize,
    instructions: Vec<XcmInstruction>,
}

impl XcmMessage {
    /// The XCM version.
    pub closed spec fn spec_version(&self) -> u32 {
        self.version
    }

    /// The number of top-level instructions.
    pub closed spec fn spec_size(&self) -> usize {
        self.size
    }

    /// The encoded byte length of the versioned message.
    pub closed spec fn spec_bytes(&self) -> usize {
        self.bytes
    }

    /// The formatted instructions.
    pub closed spec fn spec_instructions(&self) -> Seq<InstructionView> {
        self.instructions.deep_view()
    }

    pub fn new(version: u32, size: usize, bytes: usize, instructions: Vec<XcmInstruction>) -> (m: Self)
        ensures
            m.spec_version() == version,
            m.spec_size() == size,
            m.spec_bytes() == bytes,
            m.spec_instructions() == instructions.deep_view(),
    {
        XcmMessage { version, size, bytes, instructions }
    }

    pub fn version(&self) -> (v: u32)
        ensures
            v == self.spec_version(),
    {
        self.version
    }

    pub fn instructions(&self) -> (v: Vec<XcmInstruction>)
        ensures
            v.deep_view() == self.spec_instructions(),
    {
        let mut out: Vec<XcmInstruction> = Vec::new();
        let mut i: usize = 0;
        while i < self.instructions.len()
            invariant
                i <= self.instructions.len(),
                out@.len() == i,
                forall|k: int| 0 <= k < i ==> (#[trigger] out@[k])@ == self.instructions@[k]@,
            decreases self.instructions.len() - i,
        {
            out.push(copy_instruction(&self.instructions[i]));
            i = i + 1;
        }
        assert(out.deep_view() =~= self.instructions.deep_view());
        out
    }

    pub fn size(&self) -> (n: usize)
        ensures
            n == self.spec_size(),
    {
        self.size
    }

    pub fn bytes(&self) -> (n: usize)
        ensures
            n == self.spec_bytes(),
    {
        self.bytes
    }
}

/// A copy of a list of lines.
pub fn copy_lines(v: &Vec<String>) -> (r: Vec<String>)
    ensures
        r.deep_view() == v.deep_view(),
{
    let mut out: Vec<String> = Vec::new();
    let mut i: usize = 0;
    while i < v.len()
        invariant
            i <= v.len(),
            out@.len() == i,
            forall|k: int| 0 <= k < i ==> (#[trigger] out@[k])@ == v@[k]@,
        decreases v.len() - i,
    {
        out.push(v[i].clone());
        i = i + 1;
    }
    assert(out.deep_view() =~= v.deep_view());
    out
}

/// A copy of a formatted instruction.
pub fn copy_instruction(instr: &XcmInstruction) -> (r: XcmInstruction)
    ensures
        r@ == instr@,
{
    let rows = instr.params.entries();
    let mut params = Params::new();
    let mut i: usize = 0;
    while i < rows.len()
        invariant
            i <= rows.len(),
            rows.deep_view() == instr.params@,
            crate::params::is_sorted(instr.params@),
            params@ == instr.params@.take(i as int),
        decreases rows.len() - i,
    {
        params.insert(rows[i].0.clone(), copy_lines(&rows[i].1));
        proof {
            crate::params::lemma_insert_at_end(instr.params@, i as int);
        }
        i = i + 1;
    }
    assert(instr.params@.take(i as int) =~= instr.params@);
    XcmInstruction { name: instr.name.clone(), params }
}

/// An instruction named `name` whose parameter table holds the given rows, set in order.
pub fn with_params(name: &str, entries: Vec<(String, Vec<String>)>) -> (r: XcmInstruction)
    ensures
        r.name@ == name@,
        r.params@ == crate::params::table_of(entries.deep_view()),
{
    let mut params = Params::new();
    let mut i: usize = 0;
    while i < entries.len()
        invariant
            i <= entries.len(),
            params@ == crate::params::table_of(entries.deep_view().take(i as int)),
        decreases entries.len() - i,
    {
        let key = entries[i].0.clone();
        let lines = copy_lines(&entries[i].1);
        params.insert(key, lines);
        assert(entries.deep_view().take(i + 1).drop_last() =~= entries.deep_view().take(i as int));
        i = i + 1;
    }
    assert(entries.deep_view().take(i as int) =~= entries.deep_view());
    XcmInstruction::new(name, params)
}

/// An error reported while decoding, with a human-readable explanation.
pub struct CError {
    pub error: String,
    pub message: String,
}

impl CError {
    pub fn new(err: String, message: &str) -> (e: Self)
        ensures
            e.error@ == err@,
            e.message@ == message@,
    {
        CError { error: err, message: String::from_str(message) }
    }
}

/// Parses a versioned XCM program into shared instruction views.
pub trait XcmParser {
    /// The program can be shown: formatting any of its instructions does not fail.
    spec fn parsable(&self) -> bool;

    fn parse_message(&self) -> Vec<XcmInstruction>
        requires
            self.parsable(),
    ;
}

} // verus!
