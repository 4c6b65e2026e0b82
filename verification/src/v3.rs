//! XCM version 3: the program model and its formatter. Only `WithdrawAsset` is
//! shown field by field; every other instruction is shown by its debug dump.

use vstd::prelude::*;

use crate::params::{table_of, Entry};
use crate::text::{amount_text, decimal, format_amount, wrap, wrap_decimal};
use crate::types::{with_params, XcmInstruction, XcmParser};
use crate::util::{
    before_paren, hex_encode, hex_lower, law_short_hex_previews_the_start, raw_instruction, raw_rows,
    short_hex, short_hex_text,
};

verus! {

/// A junction. Junctions the formatter does not name are kept as their debug rendering.
#[derive(Clone, Debug)]
pub enum Junction {
    AccountId32 { id: [u8; 32] },
    Parachain(u32),
    Rendered(String),
}

/// The interior of a location: `Here`, a single junction, or any longer path kept
/// as its debug rendering.
#[derive(Clone, Debug)]
pub enum Junctions {
    Here,
    X1(Junction),
    Rendered(String),
}

#[derive(Clone, Debug)]
pub struct MultiLocation {
    pub parents: u8,
    pub interior: Junctions,
}

#[derive(Clone, Debug)]
pub enum AssetId {
    Concrete(MultiLocation),
    Abstract([u8; 32]),
}

#[derive(Clone, Debug)]
pub enum Fungibility {
    Fungible(u128),
    NonFungible,
}

#[derive(Clone, Debug)]
pub struct MultiAsset {
    pub id: AssetId,
    pub fun: Fungibility,
}

/// An instruction: `WithdrawAsset` with its assets, or any other instruction as its
/// one-line and pretty-printed debug dumps.
#[derive(Clone, Debug)]
pub enum Instruction {
    WithdrawAsset(Vec<MultiAsset>),
    Other { debug: String, pretty: String },
}

/// An XCM v3 program.
#[derive(Clone, Debug)]
pub struct Xcm(pub Vec<Instruction>);

pub open spec fn junction_text(junction: Junction) -> Seq<char> {
    match junction {
        Junction::AccountId32 { id } => "AccountId32: "@ + short_hex_text(id@),
        Junction::Parachain(id) => "Parachain("@ + decimal(id as nat) + ")"@,
        Junction::Rendered(text) => text@,
    }
}

pub fn format_junction(junction: &Junction) -> (s: String)
    ensures
        s@ == junction_text(*junction),
{
    proof {
        reveal_strlit("");
    }
    match junction {
        Junction::AccountId32 { id } => wrap("AccountId32: ", short_hex(id).as_str(), ""),
        Junction::Parachain(id) => wrap_decimal("Parachain(", *id as u128, ")"),
        Junction::Rendered(text) => text.clone(),
    }
}

/// How an asset id is shown: a concrete location with its parent count and interior,
/// or an abstract id in hex.
pub open spec fn asset_id_text(id: AssetId) -> Seq<char> {
    match id {
        AssetId::Concrete(location) => {
            let parents = if location.parents > 0 {
                "parents: "@ + decimal(location.parents as nat) + ", "@
            } else {
                Seq::empty()
            };
            parents + match location.interior {
                Junctions::Here => "Here"@,
                Junctions::X1(junction) => junction_text(junction),
                Junctions::Rendered(text) => text@,
            }
        },
        AssetId::Abstract(bytes) => "Abstract(0x"@ + hex_lower(bytes@) + ")"@,
    }
}

pub fn format_multi_location(id: &AssetId) -> (s: String)
    ensures
        s@ == asset_id_text(*id),
{
    proof {
        reveal_strlit("");
    }
    match id {
        AssetId::Concrete(location) => {
            let mut s = if location.parents > 0 {
                wrap_decimal("parents: ", location.parents as u128, ", ")
            } else {
                String::new()
            };
            match &location.interior {
                Junctions::Here => s.append("Here"),
                Junctions::X1(junction) => s.append(format_junction(junction).as_str()),
                Junctions::Rendered(text) => s.append(text.as_str()),
            }
            s
        },
        AssetId::Abstract(bytes) => wrap("Abstract(0x", hex_encode(bytes).as_str(), ")"),
    }
}

/// An asset on one line: location, kind (`Native` or `NFT`) and amount (zero for NFTs).
pub open spec fn multi_asset_text(asset: MultiAsset) -> Seq<char> {
    let (kind, amount) = match asset.fun {
        Fungibility::Fungible(amount) => ("Native"@, amount),
        Fungibility::NonFungible => ("NFT"@, 0u128),
    };
    "Location: "@ + asset_id_text(asset.id) + ", Asset: "@ + kind + ", Amount: "@ + amount_text(
        amount as nat,
    )
}

pub fn format_multi_asset(asset: &MultiAsset) -> (s: String)
    ensures
        s@ == multi_asset_text(*asset),
{
    let (kind, amount): (&str, u128) = match asset.fun {
        Fungibility::Fungible(amount) => ("Native", amount),
        Fungibility::NonFungible => ("NFT", 0),
    };
    let mut s = String::from_str("Location: ");
    s.append(format_multi_location(&asset.id).as_str());
    s.append(", Asset: ");
    s.append(kind);
    s.append(", Amount: ");
    s.append(format_amount(amount).as_str());
    s
}

/// How an instruction is shown.
pub open spec fn instruction_view(instr: Instruction) -> (Seq<char>, Seq<Entry>) {
    match instr {
        Instruction::WithdrawAsset(assets) => (
            "WithdrawAsset"@,
            table_of(
                seq![("Assets"@, Seq::new(assets@.len(), |i: int| multi_asset_text(assets@[i])))],
            ),
        ),
        Instruction::Other { debug, pretty } => (before_paren(debug@), raw_rows(pretty@)),
    }
}

pub fn parse_instruction(instr: &Instruction) -> (r: XcmInstruction)
    ensures
        r@ == instruction_view(*instr),
{
    match instr {
        Instruction::WithdrawAsset(assets) => {
            let mut lines: Vec<String> = Vec::new();
            let mut i: usize = 0;
            while i < assets.len()
                invariant
                    i <= assets.len(),
                    lines@.len() == i,
                    forall|k: int|
                        0 <= k < i ==> (#[trigger] lines@[k])@ == multi_asset_text(assets@[k]),
                decreases assets.len() - i,
            {
                lines.push(format_multi_asset(&assets[i]));
                i = i + 1;
            }
            let ghost expected = seq![
                ("Assets"@, Seq::new(assets@.len(), |k: int| multi_asset_text(assets@[k]))),
            ];
            assert(lines.deep_view() =~= Seq::new(assets@.len(), |k: int| multi_asset_text(assets@[k])));
            let mut entries: Vec<(String, Vec<String>)> = Vec::new();
            entries.push((String::from_str("Assets"), lines));
            assert(entries.deep_view() =~= expected);
            with_params("WithdrawAsset", entries)
        },
        Instruction::Other { debug, pretty } => raw_instruction(debug.as_str(), pretty.as_str()),
    }
}

/// How a program is shown: one formatted instruction per instruction, in order.
pub open spec fn program_view(xcm: Seq<Instruction>) -> Seq<(Seq<char>, Seq<Entry>)> {
    Seq::new(xcm.len(), |i: int| instruction_view(xcm[i]))
}

impl XcmParser for Xcm {
    open spec fn parsable(&self) -> bool {
        true
    }

    fn parse_message(&self) -> (v: Vec<XcmInstruction>)
        ensures
            v.deep_view() == program_view(self.0@),
    {
        let mut v: Vec<XcmInstruction> = Vec::new();
        let mut i: usize = 0;
        while i < self.0.len()
            invariant
                i <= self.0.len(),
                v@.len() == i,
                forall|k: int| 0 <= k < i ==> (#[trigger] v@[k])@ == instruction_view(self.0@[k]),
            decreases self.0.len() - i,
        {
            v.push(parse_instruction(&self.0[i]));
            i = i + 1;
        }
        assert(v.deep_view() =~= program_view(self.0@));
        v
    }
}

/// An account junction shows a preview of the start of its id: `0x`, the hex of the
/// id's first three bytes, and `...`.
pub proof fn law_account_junction_previews_its_start(id: [u8; 32])
    ensures
        junction_text(Junction::AccountId32 { id }) == "AccountId32: 0x"@ + hex_lower(id@.take(3)) + "..."@,
{
    law_short_hex_previews_the_start(id@);
    reveal_strlit("AccountId32: ");
    reveal_strlit("AccountId32: 0x");
    reveal_strlit("0x");
    assert(junction_text(Junction::AccountId32 { id }) =~= "AccountId32: 0x"@ + hex_lower(id@.take(3)) + "..."@);
}

/// A concrete asset id with parents shows `parents: N, ` followed by exactly what the
/// same location without parents shows, whatever its interior.
pub proof fn law_asset_id_shows_its_parents(location: MultiLocation)
    ensures
        location.parents > 0 ==> asset_id_text(AssetId::Concrete(location)) == "parents: "@ + decimal(
            location.parents as nat,
        ) + ", "@ + asset_id_text(AssetId::Concrete(MultiLocation { parents: 0, interior: location.interior })),
        location.parents == 0 ==> asset_id_text(AssetId::Concrete(location)) == asset_id_text(
            AssetId::Concrete(MultiLocation { parents: 0, interior: location.interior }),
        ),
{
    let rest = match location.interior {
        Junctions::Here => "Here"@,
        Junctions::X1(junction) => junction_text(junction),
        Junctions::Rendered(text) => text@,
    };
    assert(Seq::<char>::empty() + rest =~= rest);
}

} // verus!
