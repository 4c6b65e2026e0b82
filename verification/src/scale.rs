//! SCALE decoding of XCM programs with `staging_xcm`, and the one-for-one conversion
//! of the decoded values into the library's model.

use vstd::prelude::*;

use parity_scale_codec::{Decode, Encode};
use staging_xcm::VersionedXcm as ScaleVersionedXcm;
use staging_xcm::v3::Xcm as ScaleXcm3;
use staging_xcm::v3::Instruction as ScaleInstruction3;
use staging_xcm::v3::Junction as ScaleJunction3;
use staging_xcm::v3::MultiLocation as ScaleMultiLocation3;
use staging_xcm::v3::MultiAsset as ScaleMultiAsset3;
use staging_xcm::v4::Xcm as ScaleXcm4;
use staging_xcm::v4::Instruction as ScaleInstruction4;
use staging_xcm::v4::Junction as ScaleJunction4;
use staging_xcm::v4::Asset as ScaleAsset4;
use staging_xcm::v5::Xcm as ScaleXcm5;
use staging_xcm::v5::Instruction as X;
use staging_xcm::v5::NetworkId as ScaleNetworkId5;
use staging_xcm::v5::Junction as ScaleJunction5;
use staging_xcm::v5::Junctions as ScaleJunctions5;
use staging_xcm::v5::Location as ScaleLocation5;
use staging_xcm::v5::Asset as ScaleAsset5;
use staging_xcm::v5::Assets as ScaleAssets5;
use staging_xcm::v5::WildFungibility as ScaleWildFungibility5;
use staging_xcm::v5::WildAsset as ScaleWildAsset5;
use staging_xcm::v5::AssetFilter as ScaleAssetFilter5;
use staging_xcm::v5::AssetTransferFilter as ScaleAssetTransferFilter5;
use staging_xcm::v5::Weight as ScaleWeight5;
use staging_xcm::v5::WeightLimit as ScaleWeightLimit5;
use staging_xcm::v5::OriginKind as ScaleOriginKind5;
use staging_xcm::v5::QueryResponseInfo as ScaleQueryResponseInfo5;
use staging_xcm::v5::MaybeErrorCode as ScaleMaybeErrorCode5;
use staging_xcm::v5::Error as ScaleError5;
use staging_xcm::v5::Response as ScaleResponse5;
use staging_xcm::v5::Hint as ScaleHint5;

// Read only inside the conversions.
use staging_xcm::v3::AssetId as ScaleAssetId3;
use staging_xcm::v3::Fungibility as ScaleFungibility3;
use staging_xcm::v3::Junctions as ScaleJunctions3;
use staging_xcm::v4::Fungibility as ScaleFungibility4;
use staging_xcm::v5::Fungibility as ScaleFungibility5;

use crate::decode::VersionedXcm;
use crate::v5::model::Instruction as M;
use crate::v5::model as m5;
use crate::{v3 as m3, v4 as m4};

verus! {

/// `staging_xcm::VersionedXcm`, opaque here.
#[verifier::external_type_specification]
#[verifier::external_body]
#[verifier::reject_recursive_types(RuntimeCall)]
pub struct ExVersionedXcm<RuntimeCall>(ScaleVersionedXcm<RuntimeCall>);

/// `staging_xcm::v3::Xcm`, opaque here.
#[verifier::external_type_specification]
#[verifier::external_body]
#[verifier::reject_recursive_types(Call)]
pub struct ExXcm3<Call>(ScaleXcm3<Call>);

/// `staging_xcm::v3::Instruction`, opaque here.
#[verifier::external_type_specification]
#[verifier::external_body]
#[verifier::reject_recursive_types(Call)]
pub struct ExInstruction3<Call>(ScaleInstruction3<Call>);

/// `staging_xcm::v3::Junction`, opaque here.
#[verifier::external_type_specification]
#[verifier::external_body]
pub struct ExJunction3(ScaleJunction3);

/// `staging_xcm::v3::MultiLocation`, opaque here.
#[verifier::external_type_specification]
#[verifier::external_body]
pub struct ExMultiLocation(ScaleMultiLocation3);

/// `staging_xcm::v3::MultiAsset`, opaque here.
#[verifier::external_type_specification]
#[verifier::external_body]
pub struct ExMultiAsset(ScaleMultiAsset3);

/// `staging_xcm::v4::Xcm`, opaque here.
#[verifier::external_type_specification]
#[verifier::external_body]
#[verifier::reject_recursive_types(Call)]
pub struct ExXcm4<Call>(ScaleXcm4<Call>);

/// `staging_xcm::v4::Instruction`, opaque here.
#[verifier::external_type_specification]
#[verifier::external_body]
#[verifier::reject_recursive_types(Call)]
pub struct ExInstruction4<Call>(ScaleInstruction4<Call>);

/// `staging_xcm::v4::Junction`, opaque here.
#[verifier::external_type_specification]
#[verifier::external_body]
pub struct ExJunction4(ScaleJunction4);

/// `staging_xcm::v4::Asset`, opaque here.
#[verifier::external_type_specification]
#[verifier::external_body]
pub struct ExAsset4(ScaleAsset4);

/// `staging_xcm::v5::Xcm`, opaque here.
#[verifier::external_type_specification]
#[verifier::external_body]
#[verifier::reject_recursive_types(Call)]
pub struct ExXcm5<Call>(ScaleXcm5<Call>);

/// `staging_xcm::v5::Instruction`, opaque here.
#[verifier::external_type_specification]
#[verifier::external_body]
#[verifier::reject_recursive_types(Call)]
pub struct ExInstruction5<Call>(X<Call>);

/// `staging_xcm::v5::NetworkId`, opaque here.
#[verifier::external_type_specification]
#[verifier::external_body]
pub struct ExNetworkId(ScaleNetworkId5);

/// `staging_xcm::v5::Junction`, opaque here.
#[verifier::external_type_specification]
#[verifier::external_body]
pub struct ExJunction5(ScaleJunction5);

/// `staging_xcm::v5::Junctions`, opaque here.
#[verifier::external_type_specification]
#[verifier::external_body]
pub struct ExJunctions5(ScaleJunctions5);

/// `staging_xcm::v5::Location`, opaque here.
#[verifier::external_type_specification]
#[verifier::external_body]
pub struct ExLocation5(ScaleLocation5);

/// `staging_xcm::v5::Asset`, opaque here.
#[verifier::external_type_specification]
#[verifier::external_body]
pub struct ExAsset5(ScaleAsset5);

/// `staging_xcm::v5::Assets`, opaque here.
#[verifier::external_type_specification]
#[verifier::external_body]
pub struct ExAssets5(ScaleAssets5);

/// `staging_xcm::v5::WildFungibility`, opaque here.
#[verifier::external_type_specification]
#[verifier::external_body]
pub struct ExWildFungibility(ScaleWildFungibility5);

/// `staging_xcm::v5::WildAsset`, opaque here.
#[verifier::external_type_specification]
#[verifier::external_body]
pub struct ExWildAsset(ScaleWildAsset5);

/// `staging_xcm::v5::AssetFilter`, opaque here.
#[verifier::external_type_specification]
#[verifier::external_body]
pub struct ExAssetFilter(ScaleAssetFilter5);

/// `staging_xcm::v5::AssetTransferFilter`, opaque here.
#[verifier::external_type_specification]
#[verifier::external_body]
pub struct ExAssetTransferFilter(ScaleAssetTransferFilter5);

/// `staging_xcm::v5::Weight` (the weight type of `sp_weights`), opaque here.
#[verifier::external_type_specification]
#[verifier::external_body]
pub struct ExWeight(ScaleWeight5);

/// `staging_xcm::v5::WeightLimit`, opaque here.
#[verifier::external_type_specification]
#[verifier::external_body]
pub struct ExWeightLimit(ScaleWeightLimit5);

/// `staging_xcm::v5::OriginKind`, opaque here.
#[verifier::external_type_specification]
#[verifier::external_body]
pub struct ExOriginKind(ScaleOriginKind5);

/// `staging_xcm::v5::QueryResponseInfo`, opaque here.
#[verifier::external_type_specification]
#[verifier::external_body]
pub struct ExQueryResponseInfo(ScaleQueryResponseInfo5);

/// `staging_xcm::v5::MaybeErrorCode`, opaque here.
#[verifier::external_type_specification]
#[verifier::external_body]
pub struct ExMaybeErrorCode(ScaleMaybeErrorCode5);

/// `staging_xcm::v5::Error`, opaque here.
#[verifier::external_type_specification]
#[verifier::external_body]
pub struct ExError5(ScaleError5);

/// `staging_xcm::v5::Response`, opaque here.
#[verifier::external_type_specification]
#[verifier::external_body]
pub struct ExResponse5(ScaleResponse5);

/// `staging_xcm::v5::Hint`, opaque here.
#[verifier::external_type_specification]
#[verifier::external_body]
pub struct ExHint(ScaleHint5);

/// What `staging_xcm` decodes from the start of the given bytes as a versioned program
/// (with no runtime calls), in the library's model, together with the length of the
/// decoded program's SCALE encoding; `None` where the bytes do not decode. Bytes after
/// the program are not read.
pub uninterp spec fn scale_versioned(bytes: Seq<u8>) -> Option<(VersionedXcm, nat)>;

/// What `staging_xcm` decodes from the start of the given bytes as a bare v5 program,
/// in the library's model, together with the length of its SCALE encoding as a
/// versioned program; or the message of the decoder's error.
pub uninterp spec fn scale_bare_v5(bytes: Seq<u8>) -> Result<(m5::Xcm, nat), Seq<char>>;

/// `VersionedXcm::<()>::decode` of `staging_xcm` on the bytes, the decoded program
/// converted one for one into the model, and `encode().len()` of the decoded program.
/// The contract claims that the outcome is `scale_versioned` of the bytes, and that the
/// length lies between 2 and the number of bytes: SCALE decoding here is canonical
/// (compact integers must be minimal, enum indices, booleans and option tags must be
/// valid, and the few hand-written decoders only reject values), so encoding the
/// decoded program gives back exactly the bytes read, which are at least a version
/// byte and an instruction count.
#[verifier::external_body]
pub(crate) fn decode_versioned(bytes: &[u8]) -> (res: Option<(VersionedXcm, usize)>)
    ensures
        res is None <==> scale_versioned(bytes@) is None,
        res is Some ==> scale_versioned(bytes@) == Some((res->Some_0.0, res->Some_0.1 as nat)),
        res is Some ==> 2 <= res->Some_0.1 <= bytes@.len(),
{
    match ScaleVersionedXcm::<()>::decode(&mut &bytes[..]) {
        Ok(program) => Some((versioned(&program), program.encode().len())),
        Err(_) => None,
    }
}

/// `v5::Xcm::<()>::decode` of `staging_xcm` on the bytes; the decoded program converted
/// one for one into the model, with `encode().len()` of it wrapped as a versioned v5
/// program; or the decoder's error as text. The contract claims that the outcome is
/// `scale_bare_v5` of the bytes, and that the length lies between 2 and one more than
/// the number of bytes: decoding is canonical (see `decode_versioned`), so the program
/// re-encodes to the bytes read, at least an instruction count, and the version adds
/// one byte.
#[verifier::external_body]
pub(crate) fn decode_bare_v5(bytes: &[u8]) -> (res: Result<(m5::Xcm, usize), String>)
    ensures
        res is Ok <==> scale_bare_v5(bytes@) is Ok,
        res is Ok ==> scale_bare_v5(bytes@) == Ok::<(m5::Xcm, nat), Seq<char>>(
            (res->Ok_0.0, res->Ok_0.1 as nat),
        ),
        res is Err ==> scale_bare_v5(bytes@) == Err::<(m5::Xcm, nat), Seq<char>>(res->Err_0@),
        res is Ok ==> 2 <= res->Ok_0.1 <= bytes@.len() + 1,
{
    match ScaleXcm5::<()>::decode(&mut &bytes[..]) {
        Ok(program) => {
            let model = program5(&program);
            Ok((model, ScaleVersionedXcm::V5(program).encode().len()))
        },
        Err(error) => Err(error.to_string()),
    }
}

/// Converts a decoded versioned program into the model, one for one.
#[verifier::external_body]
fn versioned(program: &ScaleVersionedXcm<()>) -> VersionedXcm {
    match program {
        ScaleVersionedXcm::V3(program) => VersionedXcm::V3(program3(program)),
        ScaleVersionedXcm::V4(program) => VersionedXcm::V4(program4(program)),
        ScaleVersionedXcm::V5(program) => VersionedXcm::V5(program5(program)),
    }
}

// ---- version 3 ----

/// Converts a decoded v3 junction; junctions the formatter does not name are kept as
/// their debug rendering.
#[verifier::external_body]
fn junction3(junction: &ScaleJunction3) -> m3::Junction {
    match junction {
        ScaleJunction3::AccountId32 { id, .. } => m3::Junction::AccountId32 { id: *id },
        ScaleJunction3::Parachain(id) => m3::Junction::Parachain(*id),
        other => m3::Junction::Rendered(format!("{other:?}")),
    }
}

/// Converts a decoded v3 location; an interior of more than one junction is kept as
/// its debug rendering.
#[verifier::external_body]
fn location3(location: &ScaleMultiLocation3) -> m3::MultiLocation {
    let interior = match &location.interior {
        ScaleJunctions3::Here => m3::Junctions::Here,
        ScaleJunctions3::X1(junction) => m3::Junctions::X1(junction3(junction)),
        other => m3::Junctions::Rendered(format!("{other:?}")),
    };
    m3::MultiLocation { parents: location.parents, interior }
}

/// Converts a decoded v3 asset, one for one (a non-fungible instance is not kept).
#[verifier::external_body]
fn asset3(asset: &ScaleMultiAsset3) -> m3::MultiAsset {
    let id = match &asset.id {
        ScaleAssetId3::Concrete(location) => m3::AssetId::Concrete(location3(location)),
        ScaleAssetId3::Abstract(bytes) => m3::AssetId::Abstract(*bytes),
    };
    let fun = match &asset.fun {
        ScaleFungibility3::Fungible(amount) => m3::Fungibility::Fungible(*amount),
        ScaleFungibility3::NonFungible(_) => m3::Fungibility::NonFungible,
    };
    m3::MultiAsset { id, fun }
}

/// Converts a decoded v3 instruction: `WithdrawAsset` with its assets, any other as
/// its one-line and pretty-printed debug dumps.
#[verifier::external_body]
fn instruction3(instruction: &ScaleInstruction3<()>) -> m3::Instruction {
    match instruction {
        ScaleInstruction3::WithdrawAsset(assets) => {
            m3::Instruction::WithdrawAsset(assets.inner().iter().map(asset3).collect())
        },
        other => m3::Instruction::Other { debug: format!("{other:?}"), pretty: format!("{other:#?}") },
    }
}

/// Converts a decoded v3 program, instruction by instruction.
#[verifier::external_body]
fn program3(program: &ScaleXcm3<()>) -> m3::Xcm {
    m3::Xcm(program.0.iter().map(instruction3).collect())
}

// ---- version 4 ----

/// Converts a decoded v4 junction; junctions the formatter does not name are kept as
/// their debug rendering.
#[verifier::external_body]
fn junction4(junction: &ScaleJunction4) -> m4::Junction {
    match junction {
        ScaleJunction4::AccountId32 { id, .. } => m4::Junction::AccountId32 { id: *id },
        ScaleJunction4::Parachain(id) => m4::Junction::Parachain(*id),
        other => m4::Junction::Rendered(format!("{other:?}")),
    }
}

/// Converts a decoded v4 asset, one for one (a non-fungible instance is not kept).
#[verifier::external_body]
fn asset4(asset: &ScaleAsset4) -> m4::Asset {
    let location = &asset.id.0;
    let interior = location.interior.iter().map(junction4).collect();
    let fun = match &asset.fun {
        ScaleFungibility4::Fungible(amount) => m4::Fungibility::Fungible(*amount),
        ScaleFungibility4::NonFungible(_) => m4::Fungibility::NonFungible,
    };
    m4::Asset { id: m4::Location { parents: location.parents, interior }, fun }
}

/// Converts a decoded v4 instruction: `WithdrawAsset` with its assets, any other as
/// its one-line and pretty-printed debug dumps.
#[verifier::external_body]
fn instruction4(instruction: &ScaleInstruction4<()>) -> m4::Instruction {
    match instruction {
        ScaleInstruction4::WithdrawAsset(assets) => {
            m4::Instruction::WithdrawAsset(assets.inner().iter().map(asset4).collect())
        },
        other => m4::Instruction::Other { debug: format!("{other:?}"), pretty: format!("{other:#?}") },
    }
}

/// Converts a decoded v4 program, instruction by instruction.
#[verifier::external_body]
fn program4(program: &ScaleXcm4<()>) -> m4::Xcm {
    m4::Xcm(program.inner().iter().map(instruction4).collect())
}

// ---- version 5 ----

/// Converts a decoded v5 network id; networks the formatter does not name are kept as
/// their debug rendering.
#[verifier::external_body]
fn network_id(network: &ScaleNetworkId5) -> m5::NetworkId {
    match network {
        ScaleNetworkId5::Polkadot => m5::NetworkId::Polkadot,
        ScaleNetworkId5::Kusama => m5::NetworkId::Kusama,
        ScaleNetworkId5::Ethereum { chain_id } => m5::NetworkId::Ethereum { chain_id: *chain_id },
        ScaleNetworkId5::BitcoinCore => m5::NetworkId::BitcoinCore,
        ScaleNetworkId5::BitcoinCash => m5::NetworkId::BitcoinCash,
        ScaleNetworkId5::PolkadotBulletin => m5::NetworkId::PolkadotBulletin,
        other => m5::NetworkId::Rendered(format!("{other:?}")),
    }
}

/// Converts a decoded optional v5 network id, one for one.
#[verifier::external_body]
fn optional_network(network: &Option<ScaleNetworkId5>) -> Option<m5::NetworkId> {
    network.as_ref().map(network_id)
}

/// Converts a decoded v5 junction, one for one. The parachain and account junctions are
/// converted here; each of the others is handed to `other_junction`.
#[verifier::external_body]
fn junction(junction: &ScaleJunction5) -> m5::Junction {
    match junction {
        ScaleJunction5::Parachain(id) => m5::Junction::Parachain(*id),
        ScaleJunction5::AccountId32 { network: n, id } => m5::Junction::AccountId32 { network: optional_network(n), id: *id },
        ScaleJunction5::AccountIndex64 { network: n, index } => m5::Junction::AccountIndex64 { network: optional_network(n), index: *index },
        ScaleJunction5::AccountKey20 { network: n, key } => m5::Junction::AccountKey20 { network: optional_network(n), key: *key },
        other => other_junction(other),
    }
}

/// Converts the v5 junctions that `junction` hands over, one for one; a plurality's body
/// id and part are kept as their debug renderings.
#[verifier::external_body]
fn other_junction(step: &ScaleJunction5) -> m5::Junction {
    match step {
        ScaleJunction5::PalletInstance(index) => m5::Junction::PalletInstance(*index),
        ScaleJunction5::GeneralIndex(index) => m5::Junction::GeneralIndex(*index),
        ScaleJunction5::GeneralKey { length, data } => m5::Junction::GeneralKey { length: *length, data: *data },
        ScaleJunction5::OnlyChild => m5::Junction::OnlyChild,
        ScaleJunction5::Plurality { id, part } => m5::Junction::Plurality { id: format!("{id:?}"), part: format!("{part:?}") },
        ScaleJunction5::GlobalConsensus(n) => m5::Junction::GlobalConsensus(network_id(n)),
        first => junction(first),
    }
}

/// Converts decoded v5 junctions, in order.
#[verifier::external_body]
fn interior(junctions: &ScaleJunctions5) -> Vec<m5::Junction> {
    junctions.iter().map(junction).collect()
}

/// Converts a decoded v5 location, one for one.
#[verifier::external_body]
fn location(location: &ScaleLocation5) -> m5::Location {
    m5::Location { parents: location.parents, interior: interior(&location.interior) }
}

/// Converts a decoded optional v5 location, one for one.
#[verifier::external_body]
fn optional_location(place: &Option<ScaleLocation5>) -> Option<m5::Location> {
    place.as_ref().map(location)
}

/// Converts a decoded v5 asset, one for one (a non-fungible instance is not kept).
#[verifier::external_body]
fn asset(asset: &ScaleAsset5) -> m5::Asset {
    let fun = match &asset.fun {
        ScaleFungibility5::Fungible(amount) => m5::Fungibility::Fungible(*amount),
        ScaleFungibility5::NonFungible(_) => m5::Fungibility::NonFungible,
    };
    m5::Asset { id: location(&asset.id.0), fun }
}

/// Converts decoded v5 assets, in order.
#[verifier::external_body]
fn assets(assets: &ScaleAssets5) -> Vec<m5::Asset> {
    assets.inner().iter().map(asset).collect()
}

/// Converts a decoded v5 wildcard fungibility, one for one.
#[verifier::external_body]
fn wild_fungibility(fun: &ScaleWildFungibility5) -> m5::WildFungibility {
    match fun {
        ScaleWildFungibility5::Fungible => m5::WildFungibility::Fungible,
        ScaleWildFungibility5::NonFungible => m5::WildFungibility::NonFungible,
    }
}

/// Converts a decoded v5 wildcard asset, one for one.
#[verifier::external_body]
fn wild_asset(wild: &ScaleWildAsset5) -> m5::WildAsset {
    match wild {
        ScaleWildAsset5::All => m5::WildAsset::All,
        ScaleWildAsset5::AllOf { id, fun } => m5::WildAsset::AllOf { id: location(&id.0), fun: wild_fungibility(fun) },
        ScaleWildAsset5::AllCounted(count) => m5::WildAsset::AllCounted(*count),
        ScaleWildAsset5::AllOfCounted { id, fun, count } => {
            m5::WildAsset::AllOfCounted { id: location(&id.0), fun: wild_fungibility(fun), count: *count }
        },
    }
}

/// Converts a decoded v5 asset filter, one for one.
#[verifier::external_body]
fn asset_filter(filter: &ScaleAssetFilter5) -> m5::AssetFilter {
    match filter {
        ScaleAssetFilter5::Definite(list) => m5::AssetFilter::Definite(assets(list)),
        ScaleAssetFilter5::Wild(wild) => m5::AssetFilter::Wild(wild_asset(wild)),
    }
}

/// Converts a decoded v5 asset transfer filter, one for one.
#[verifier::external_body]
fn transfer_filter(filter: &ScaleAssetTransferFilter5) -> m5::AssetTransferFilter {
    match filter {
        ScaleAssetTransferFilter5::Teleport(f) => m5::AssetTransferFilter::Teleport(asset_filter(f)),
        ScaleAssetTransferFilter5::ReserveDeposit(f) => m5::AssetTransferFilter::ReserveDeposit(asset_filter(f)),
        ScaleAssetTransferFilter5::ReserveWithdraw(f) => m5::AssetTransferFilter::ReserveWithdraw(asset_filter(f)),
    }
}

/// Converts a decoded weight, one for one.
#[verifier::external_body]
fn weight(weight: &ScaleWeight5) -> m5::Weight {
    m5::Weight { ref_time: weight.ref_time(), proof_size: weight.proof_size() }
}

/// Converts a decoded weight limit, one for one.
#[verifier::external_body]
fn weight_limit(limit: &ScaleWeightLimit5) -> m5::WeightLimit {
    match limit {
        ScaleWeightLimit5::Unlimited => m5::WeightLimit::Unlimited,
        ScaleWeightLimit5::Limited(w) => m5::WeightLimit::Limited(weight(w)),
    }
}

/// Converts a decoded origin kind, one for one.
#[verifier::external_body]
fn origin_kind(kind: &ScaleOriginKind5) -> m5::OriginKind {
    match kind {
        ScaleOriginKind5::Native => m5::OriginKind::Native,
        ScaleOriginKind5::SovereignAccount => m5::OriginKind::SovereignAccount,
        ScaleOriginKind5::Superuser => m5::OriginKind::Superuser,
        ScaleOriginKind5::Xcm => m5::OriginKind::Xcm,
    }
}

/// Converts decoded v5 query response information, one for one.
#[verifier::external_body]
fn response_info(info: &ScaleQueryResponseInfo5) -> m5::QueryResponseInfo {
    m5::QueryResponseInfo {
        destination: location(&info.destination),
        query_id: info.query_id,
        max_weight: weight(&info.max_weight),
    }
}

/// Converts a decoded dispatch error code, one for one.
#[verifier::external_body]
fn error_code(code: &ScaleMaybeErrorCode5) -> m5::MaybeErrorCode {
    match code {
        ScaleMaybeErrorCode5::Success => m5::MaybeErrorCode::Success,
        ScaleMaybeErrorCode5::Error(bytes) => m5::MaybeErrorCode::Error(bytes.to_vec()),
        ScaleMaybeErrorCode5::TruncatedError(bytes) => m5::MaybeErrorCode::TruncatedError(bytes.to_vec()),
    }
}

/// Converts a decoded optional execution error: its instruction index, and the error
/// as its debug rendering.
#[verifier::external_body]
fn execution_error(error: &Option<(u32, ScaleError5)>) -> Option<(u32, String)> {
    error.as_ref().map(|(index, error)| (*index, format!("{error:?}")))
}

/// Converts a decoded v5 response, one for one; pallet information is kept as the
/// number of its entries.
#[verifier::external_body]
fn response(response: &ScaleResponse5) -> m5::Response {
    match response {
        ScaleResponse5::Null => m5::Response::Null,
        ScaleResponse5::Assets(list) => m5::Response::Assets(assets(list)),
        ScaleResponse5::ExecutionResult(result) => m5::Response::ExecutionResult(execution_error(result)),
        ScaleResponse5::Version(version) => m5::Response::Version(*version),
        ScaleResponse5::PalletsInfo(info) => m5::Response::PalletsInfo(info.len()),
        ScaleResponse5::DispatchResult(code) => m5::Response::DispatchResult(error_code(code)),
    }
}

/// Converts a decoded v5 hint, one for one.
#[verifier::external_body]
fn hint(hint: &ScaleHint5) -> m5::Hint {
    match hint {
        ScaleHint5::AssetClaimer { location: claimer } => m5::Hint::AssetClaimer { location: location(claimer) },
    }
}

/// Converts a decoded v5 program, instruction by instruction.
#[verifier::external_body]
fn program5(program: &ScaleXcm5<()>) -> m5::Xcm {
    m5::Xcm(nested(program))
}

/// Converts the instructions of a decoded v5 program, in order.
#[verifier::external_body]
fn nested(program: &ScaleXcm5<()>) -> Vec<M> {
    program.0.iter().map(instruction).collect()
}

/// Converts a decoded v5 instruction, one for one. The conversion is spread over this
/// function and `instruction_b` to `instruction_j`, each converting a few variants and
/// handing every other one to the next, the last back to this one; each variant is
/// converted by exactly one of them.
#[verifier::external_body]
fn instruction(step: &X<()>) -> M {
    match step {
        X::WithdrawAsset(a) => M::WithdrawAsset(assets(a)),
        X::ReserveAssetDeposited(a) => M::ReserveAssetDeposited(assets(a)),
        X::ReceiveTeleportedAsset(a) => M::ReceiveTeleportedAsset(assets(a)),
        X::QueryResponse { query_id, response: r, max_weight: w, querier: q } => {
            M::QueryResponse { query_id: *query_id, response: response(r), max_weight: weight(w), querier: optional_location(q) }
        },
        X::TransferAsset { assets: a, beneficiary: b } => M::TransferAsset { assets: assets(a), beneficiary: location(b) },
        other => instruction_b(other),
    }
}

/// Converts reserve transfers, transacts and channel requests; see `instruction`.
#[verifier::external_body]
fn instruction_b(step: &X<()>) -> M {
    match step {
        X::TransferReserveAsset { assets: a, dest, xcm } => M::TransferReserveAsset { assets: assets(a), dest: location(dest), xcm: nested(xcm) },
        X::Transact { origin_kind: o, fallback_max_weight: w, call } => {
            M::Transact { origin_kind: origin_kind(o), fallback_max_weight: w.as_ref().map(weight), call: call.encoded().to_vec() }
        },
        X::HrmpNewChannelOpenRequest { sender, max_message_size: size, max_capacity: capacity } => {
            M::HrmpNewChannelOpenRequest { sender: *sender, max_message_size: *size, max_capacity: *capacity }
        },
        X::HrmpChannelAccepted { recipient } => M::HrmpChannelAccepted { recipient: *recipient },
        other => instruction_c(other),
    }
}

/// Converts channel closings, origin changes, error reports and deposits; see
/// `instruction`.
#[verifier::external_body]
fn instruction_c(step: &X<()>) -> M {
    match step {
        X::HrmpChannelClosing { initiator: i, sender: s, recipient: r } => M::HrmpChannelClosing { initiator: *i, sender: *s, recipient: *r },
        X::ClearOrigin => M::ClearOrigin,
        X::DescendOrigin(junctions) => M::DescendOrigin(interior(junctions)),
        X::ReportError(info) => M::ReportError(response_info(info)),
        X::DepositAsset { assets: a, beneficiary: b } => M::DepositAsset { assets: asset_filter(a), beneficiary: location(b) },
        X::DepositReserveAsset { assets: a, dest, xcm } => {
            M::DepositReserveAsset { assets: asset_filter(a), dest: location(dest), xcm: nested(xcm) }
        },
        other => instruction_d(other),
    }
}

/// Converts exchanges, reserve withdrawals, teleports and holding reports; see
/// `instruction`.
#[verifier::external_body]
fn instruction_d(step: &X<()>) -> M {
    match step {
        X::ExchangeAsset { give, want, maximal } => M::ExchangeAsset { give: asset_filter(give), want: assets(want), maximal: *maximal },
        X::InitiateReserveWithdraw { assets: a, reserve, xcm } => {
            M::InitiateReserveWithdraw { assets: asset_filter(a), reserve: location(reserve), xcm: nested(xcm) }
        },
        X::InitiateTeleport { assets: a, dest, xcm } => M::InitiateTeleport { assets: asset_filter(a), dest: location(dest), xcm: nested(xcm) },
        X::ReportHolding { response_info: info, assets: a } => M::ReportHolding { response_info: response_info(info), assets: asset_filter(a) },
        other => instruction_e(other),
    }
}

/// Converts execution purchases, handlers, claims, traps and subscriptions; see
/// `instruction`.
#[verifier::external_body]
fn instruction_e(step: &X<()>) -> M {
    match step {
        X::BuyExecution { fees, weight_limit: w } => M::BuyExecution { fees: asset(fees), weight_limit: weight_limit(w) },
        X::RefundSurplus => M::RefundSurplus,
        X::SetErrorHandler(xcm) => M::SetErrorHandler(nested(xcm)),
        X::SetAppendix(xcm) => M::SetAppendix(nested(xcm)),
        X::ClearError => M::ClearError,
        X::ClaimAsset { assets: a, ticket } => M::ClaimAsset { assets: assets(a), ticket: location(ticket) },
        X::Trap(code) => M::Trap(*code),
        X::SubscribeVersion { query_id, max_response_weight: w } => M::SubscribeVersion { query_id: *query_id, max_response_weight: weight(w) },
        other => instruction_f(other),
    }
}

/// Converts unsubscriptions, burns, expectations, pallet queries and transact status
/// reports; see `instruction`.
#[verifier::external_body]
fn instruction_f(step: &X<()>) -> M {
    match step {
        X::UnsubscribeVersion => M::UnsubscribeVersion,
        X::BurnAsset(a) => M::BurnAsset(assets(a)),
        X::ExpectAsset(a) => M::ExpectAsset(assets(a)),
        X::ExpectOrigin(origin) => M::ExpectOrigin(optional_location(origin)),
        X::ExpectError(error) => M::ExpectError(execution_error(error)),
        X::ExpectTransactStatus(status) => M::ExpectTransactStatus(error_code(status)),
        X::QueryPallet { module_name, response_info: info } => M::QueryPallet { module_name: module_name.clone(), response_info: response_info(info) },
        X::ReportTransactStatus(info) => M::ReportTransactStatus(response_info(info)),
        X::ClearTransactStatus => M::ClearTransactStatus,
        other => instruction_g(other),
    }
}

/// Converts pallet expectations, universal origins, exports and locks; see
/// `instruction`.
#[verifier::external_body]
fn instruction_g(step: &X<()>) -> M {
    match step {
        X::ExpectPallet { index, name, module_name: module, crate_major: major, min_crate_minor: minor } => {
            M::ExpectPallet { index: *index, name: name.clone(), module_name: module.clone(), crate_major: *major, min_crate_minor: *minor }
        },
        X::UniversalOrigin(j) => M::UniversalOrigin(junction(j)),
        X::ExportMessage { network: n, destination: d, xcm } => M::ExportMessage { network: network_id(n), destination: interior(d), xcm: nested(xcm) },
        X::LockAsset { asset: a, unlocker } => M::LockAsset { asset: asset(a), unlocker: location(unlocker) },
        other => instruction_h(other),
    }
}

/// Converts unlocks, fee modes and topics; see `instruction`.
#[verifier::external_body]
fn instruction_h(step: &X<()>) -> M {
    match step {
        X::UnlockAsset { asset: a, target } => M::UnlockAsset { asset: asset(a), target: location(target) },
        X::NoteUnlockable { asset: a, owner } => M::NoteUnlockable { asset: asset(a), owner: location(owner) },
        X::RequestUnlock { asset: a, locker } => M::RequestUnlock { asset: asset(a), locker: location(locker) },
        X::SetFeesMode { jit_withdraw } => M::SetFeesMode { jit_withdraw: *jit_withdraw },
        X::SetTopic(topic) => M::SetTopic(*topic),
        X::ClearTopic => M::ClearTopic,
        other => instruction_i(other),
    }
}

/// Converts aliasing, unpaid execution, fee payment and hints; see `instruction`.
#[verifier::external_body]
fn instruction_i(step: &X<()>) -> M {
    match step {
        X::AliasOrigin(origin) => M::AliasOrigin(location(origin)),
        X::UnpaidExecution { weight_limit: w, check_origin: o } => M::UnpaidExecution { weight_limit: weight_limit(w), check_origin: optional_location(o) },
        X::PayFees { asset: a } => M::PayFees { asset: asset(a) },
        X::SetHints { hints } => M::SetHints { hints: hints.iter().map(hint).collect() },
        other => instruction_j(other),
    }
}

/// Converts transfers and execution with an origin; see `instruction`.
#[verifier::external_body]
fn instruction_j(step: &X<()>) -> M {
    match step {
        X::ExecuteWithOrigin { descendant_origin: d, xcm } => M::ExecuteWithOrigin { descendant_origin: d.as_ref().map(interior), xcm: nested(xcm) },
        X::InitiateTransfer { destination: d, remote_fees: f, preserve_origin: p, assets: a, remote_xcm: xcm } => M::InitiateTransfer {
            destination: location(d),
            remote_fees: f.as_ref().map(transfer_filter),
            preserve_origin: *p,
            assets: a.iter().map(transfer_filter).collect(),
            remote_xcm: nested(xcm),
        },
        first => instruction(first),
    }
}

} // verus!
