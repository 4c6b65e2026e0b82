//! XCM version 4: the program model and its formatter. Only `WithdrawAsset` is
//! shown field by field; every other instruction is shown by its debug dump.

use vstd::prelude::*;

use crate::params::{table_of, Entry};
use crate::text::{amount_text, decimal, format_amount, join, join_strings, wrap, wrap_decimal};
use crate::types::{with_params, XcmInstruction, XcmParser};
use crate::util::{
    before_paren, hex_lower, law_short_hex_previews_the_start, raw_instruction, raw_rows, short_hex,
    short_hex_text,
};

verus! {

/// A junction. Junctions the formatter does not name are kept as their debug rendering.
#[derive(Clone, Debug)]
pub enum Junction {
    AccountId32 { id: [u8; 32] },
    Parachain(u32),
    Rendered(String),
}

/// A location: parents to ascend, then the interior junctions (none for `Here`).
#[derive(Clone, Debug)]
pub struct Location {
    pub parents: u8,
    pub interior: Vec<Junction>,
}

#[derive(Clone, Debug)]
pub enum Fungibility {
    Fungible(u128),
    NonFungible,
}

/// An asset: the location identifying it and its fungibility.
#[derive(Clone, Debug)]
pub struct Asset {
    pub id: Location,
    pub fun: Fungibility,
}

/// An instruction: `WithdrawAsset` with its assets, or any other instruction as its
/// one-line and pretty-printed debug dumps.
#[derive(Clone, Debug)]
pub enum Instruction {
    WithdrawAsset(Vec<Asset>),
    Other { debug: String, pretty: String },
}

/// An XCM v4 program.
#[derive(Clone, Debug)]
pub struct Xcm(pub Vec<Instruction>);

pub open spec fn junction_text(junction: Junction) -> Seq<char> {
    match junction {
        Junction::AccountId32 { id } => "AccountId32: "@ + short_hex_text(id@),
        Junction::Parachain(id) => "Parachain("@ + decimal(id as nat) + ")"@,
        Junction::Rendered(text) => text@,
    }
}

pub fn format_junction(junction: &Junction) -> (s: String)
    ensures
        s@ == junction_text(*junction),
{
    proof {
        reveal_strlit("");
    }
    match junction {
        Junction::AccountId32 { id } => wrap("AccountId32: ", short_hex(id).as_str(), ""),
        Junction::Parachain(id) => wrap_decimal("Parachain(", *id as u128, ")"),
        Junction::Rendered(text) => text.clone(),
    }
}

/// `Here` when there are no junctions, otherwise each junction joined by `/`.
pub open spec fn interior_text(interior: Seq<Junction>) -> Seq<char> {
    if interior.len() == 0 {
        "Here"@
    } else {
        join(Seq::new(interior.len(), |i: int| junction_text(interior[i])), "/"@)
    }
}

pub fn format_interior(interior: &Vec<Junction>) -> (s: String)
    ensures
        s@ == interior_text(interior@),
{
    if interior.len() == 0 {
        return String::from_str("Here");
    }
    let mut parts: Vec<String> = Vec::new();
    let mut i: usize = 0;
    while i < interior.len()
        invariant
            i <= interior.len(),
            parts@.len() == i,
            forall|k: int| 0 <= k < i ==> (#[trigger] parts@[k])@ == junction_text(interior@[k]),
        decreases interior.len() - i,
    {
        parts.push(format_junction(&interior[i]));
        i = i + 1;
    }
    assert(parts.deep_view() =~= Seq::new(interior@.len(), |k: int| junction_text(interior@[k])));
    join_strings(&parts, "/")
}

/// The parent count when there is one, then the interior.
pub open spec fn location_text(location: Location) -> Seq<char> {
    let parents = if location.parents > 0 {
        "parents: "@ + decimal(location.parents as nat) + ", "@
    } else {
        Seq::empty()
    };
    parents + interior_text(location.interior@)
}

pub fn format_location(location: &Location) -> (s: String)
    ensures
        s@ == location_text(*location),
{
    let mut s = if location.parents > 0 {
        wrap_decimal("parents: ", location.parents as u128, ", ")
    } else {
        String::new()
    };
    s.append(format_interior(&location.interior).as_str());
    s
}

/// An asset on one line: location, kind (`Native` or `NFT`) and amount (zero for NFTs).
pub open spec fn asset_text(asset: Asset) -> Seq<char> {
    let (kind, amount) = match asset.fun {
        Fungibility::Fungible(amount) => ("Native"@, amount),
        Fungibility::NonFungible => ("NFT"@, 0u128),
    };
    "Location: "@ + location_text(asset.id) + ", Asset: "@ + kind + ", Amount: "@ + amount_text(
        amount as nat,
    )
}

pub fn format_asset(asset: &Asset) -> (s: String)
    ensures
        s@ == asset_text(*asset),
{
    let (kind, amount): (&str, u128) = match asset.fun {
        Fungibility::Fungible(amount) => ("Native", amount),
        Fungibility::NonFungible => ("NFT", 0),
    };
    let mut s = String::from_str("Location: ");
    s.append(format_location(&asset.id).as_str());
    s.append(", Asset: ");
    s.append(kind);
    s.append(", Amount: ");
    s.append(format_amount(amount).as_str());
    s
}

/// How an instruction is shown.
pub open spec fn instruction_view(instr: Instruction) -> (Seq<char>, Seq<Entry>) {
    match instr {
        Instruction::WithdrawAsset(assets) => (
            "WithdrawAsset"@,
            table_of(seq![("Assets"@, Seq::new(assets@.len(), |i: int| asset_text(assets@[i])))]),
        ),
        Instruction::Other { debug, pretty } => (before_paren(debug@), raw_rows(pretty@)),
    }
}

pub fn parse_instruction(instr: &Instruction) -> (r: XcmInstruction)
    ensures
        r@ == instruction_view(*instr),
{
    match instr {
        Instruction::WithdrawAsset(assets) => {
            let mut lines: Vec<String> = Vec::new();
            let mut i: usize = 0;
            while i < assets.len()
                invariant
                    i <= assets.len(),
                    lines@.len() == i,
                    forall|k: int| 0 <= k < i ==> (#[trigger] lines@[k])@ == asset_text(assets@[k]),
                decreases assets.len() - i,
            {
                lines.push(format_asset(&assets[i]));
                i = i + 1;
            }
            let ghost expected = seq![
                ("Assets"@, Seq::new(assets@.len(), |k: int| asset_text(assets@[k]))),
            ];
            assert(lines.deep_view() =~= Seq::new(assets@.len(), |k: int| asset_text(assets@[k])));
            let mut entries: Vec<(String, Vec<String>)> = Vec::new();
            entries.push((String::from_str("Assets"), lines));
            assert(entries.deep_view() =~= expected);
            with_params("WithdrawAsset", entries)
        },
        Instruction::Other { debug, pretty } => raw_instruction(debug.as_str(), pretty.as_str()),
    }
}

/// How a program is shown: one formatted instruction per instruction, in order.
pub open spec fn program_view(xcm: Seq<Instruction>) -> Seq<(Seq<char>, Seq<Entry>)> {
    Seq::new(xcm.len(), |i: int| instruction_view(xcm[i]))
}

impl XcmParser for Xcm {
    open spec fn parsable(&self) -> bool {
        true
    }

    fn parse_message(&self) -> (v: Vec<XcmInstruction>)
        ensures
            v.deep_view() == program_view(self.0@),
    {
        let mut v: Vec<XcmInstruction> = Vec::new();
        let mut i: usize = 0;
        while i < self.0.len()
            invariant
                i <= self.0.len(),
                v@.len() == i,
                forall|k: int| 0 <= k < i ==> (#[trigger] v@[k])@ == instruction_view(self.0@[k]),
            decreases self.0.len() - i,
        {
            v.push(parse_instruction(&self.0[i]));
            i = i + 1;
        }
        assert(v.deep_view() =~= program_view(self.0@));
        v
    }
}

/// An account junction shows a preview of the start of its id: `0x`, the hex of the
/// id's first three bytes, and `...`.
pub proof fn law_account_junction_previews_its_start(id: [u8; 32])
    ensures
        junction_text(Junction::AccountId32 { id }) == "AccountId32: 0x"@ + hex_lower(id@.take(3)) + "..."@,
{
    law_short_hex_previews_the_start(id@);
    reveal_strlit("AccountId32: ");
    reveal_strlit("AccountId32: 0x");
    reveal_strlit("0x");
    assert(junction_text(Junction::AccountId32 { id }) =~= "AccountId32: 0x"@ + hex_lower(id@.take(3)) + "..."@);
}

/// A location with parents shows `parents: N, ` followed by exactly what the same
/// location without parents shows, whatever its interior.
pub proof fn law_location_shows_its_parents(location: Location)
    ensures
        location.parents > 0 ==> location_text(location) == "parents: "@ + decimal(location.parents as nat) + ", "@
            + location_text(Location { parents: 0, interior: location.interior }),
        location.parents == 0 ==> location_text(location) == location_text(Location { parents: 0, interior: location.interior }),
{
    assert(Seq::<char>::empty() + interior_text(location.interior@) =~= interior_text(location.interior@));
}

} // verus!
