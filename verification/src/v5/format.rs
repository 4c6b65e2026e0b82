//! How the parts of an XCM v5 instruction are shown.

use vstd::prelude::*;
use vstd::slice::slice_subrange;

use crate::text::{
    decimal_value, law_decimal_round_trip, amount_text, decimal, decimal_string, format_amount, join, join_strings, wrap, wrap_decimal,
};
use crate::util::{
    hex_lower, law_short_hex_previews_the_start, short_hex, short_hex_text, summarize_hex,
    summary_text,
};
use crate::v5::model::{
    Asset, AssetFilter, AssetTransferFilter, Fungibility, Hint, Junction, Location, MaybeErrorCode,
    NetworkId, OriginKind, QueryResponseInfo, Response, Weight, WeightLimit, WildAsset,
    WildFungibility,
};

verus! {

/// The name of a network, `Any` when none is given.
pub open spec fn network_text(network: Option<NetworkId>) -> Seq<char> {
    match network {
        None => "Any"@,
        Some(NetworkId::Polkadot) => "Polkadot"@,
        Some(NetworkId::Kusama) => "Kusama"@,
        Some(NetworkId::BitcoinCore) => "BitcoinCore"@,
        Some(NetworkId::BitcoinCash) => "BitcoinCash"@,
        Some(NetworkId::PolkadotBulletin) => "PolkadotBulletin"@,
        Some(NetworkId::Ethereum { chain_id }) => "Ethereum("@ + decimal(chain_id as nat) + ")"@,
        Some(NetworkId::Rendered(text)) => text@,
    }
}

pub fn format_network_id(network: &NetworkId) -> (s: String)
    ensures
        s@ == network_text(Some(*network)),
{
    match network {
        NetworkId::Polkadot => String::from_str("Polkadot"),
        NetworkId::Kusama => String::from_str("Kusama"),
        NetworkId::BitcoinCore => String::from_str("BitcoinCore"),
        NetworkId::BitcoinCash => String::from_str("BitcoinCash"),
        NetworkId::PolkadotBulletin => String::from_str("PolkadotBulletin"),
        NetworkId::Ethereum { chain_id } => wrap_decimal("Ethereum(", *chain_id as u128, ")"),
        NetworkId::Rendered(text) => text.clone(),
    }
}

pub fn format_network(network: &Option<NetworkId>) -> (s: String)
    ensures
        s@ == network_text(*network),
{
    match network {
        None => String::from_str("Any"),
        Some(n) => format_network_id(n),
    }
}

/// A junction can be shown: a general key's declared length is at most its 32-byte
/// buffer, of which the first `length` bytes are shown.
pub open spec fn junction_fits(junction: Junction) -> bool {
    junction matches Junction::GeneralKey { length, .. } ==> length <= 32
}

pub open spec fn interior_fits(interior: Seq<Junction>) -> bool {
    forall|i: int| 0 <= i < interior.len() ==> junction_fits(#[trigger] interior[i])
}

pub open spec fn location_fits(location: Location) -> bool {
    interior_fits(location.interior@)
}

pub open spec fn optional_location_fits(location: Option<Location>) -> bool {
    location matches Some(l) ==> location_fits(l)
}

pub open spec fn assets_fit(assets: Seq<Asset>) -> bool {
    forall|i: int| 0 <= i < assets.len() ==> location_fits(#[trigger] assets[i].id)
}

pub open spec fn wild_asset_fits(wild: WildAsset) -> bool {
    match wild {
        WildAsset::AllOf { id, .. } => location_fits(id),
        WildAsset::AllOfCounted { id, .. } => location_fits(id),
        _ => true,
    }
}

pub open spec fn asset_filter_fits(filter: AssetFilter) -> bool {
    match filter {
        AssetFilter::Definite(assets) => assets_fit(assets@),
        AssetFilter::Wild(wild) => wild_asset_fits(wild),
    }
}

pub open spec fn transfer_filter_fits(filter: AssetTransferFilter) -> bool {
    match filter {
        AssetTransferFilter::Teleport(inner) => asset_filter_fits(inner),
        AssetTransferFilter::ReserveDeposit(inner) => asset_filter_fits(inner),
        AssetTransferFilter::ReserveWithdraw(inner) => asset_filter_fits(inner),
    }
}

pub open spec fn response_fits(response: Response) -> bool {
    response matches Response::Assets(assets) ==> assets_fit(assets@)
}

pub open spec fn hint_fits(hint: Hint) -> bool {
    match hint {
        Hint::AssetClaimer { location } => location_fits(location),
    }
}

/// How a junction is shown.
pub open spec fn junction_text(junction: Junction) -> Seq<char> {
    match junction {
        Junction::Parachain(id) => "Parachain("@ + decimal(id as nat) + ")"@,
        Junction::AccountId32 { network, id } => "AccountId32("@ + network_text(network) + ", "@
            + short_hex_text(id@) + ")"@,
        Junction::AccountIndex64 { network, index } => "AccountIndex64("@ + network_text(network)
            + ", "@ + decimal(index as nat) + ")"@,
        Junction::AccountKey20 { network, key } => "AccountKey20("@ + network_text(network) + ", "@
            + short_hex_text(key@) + ")"@,
        Junction::PalletInstance(id) => "PalletInstance("@ + decimal(id as nat) + ")"@,
        Junction::GeneralIndex(id) => "GeneralIndex("@ + decimal(id as nat) + ")"@,
        Junction::GeneralKey { length, data } => "GeneralKey(len="@ + decimal(length as nat)
            + ", data="@ + short_hex_text(data@.take(length as int)) + ")"@,
        Junction::OnlyChild => "OnlyChild"@,
        Junction::Plurality { id, part } => "Plurality("@ + id@ + ", "@ + part@ + ")"@,
        Junction::GlobalConsensus(network) => "GlobalConsensus("@ + network_text(Some(network))
            + ")"@,
    }
}

/// `prefix`, `middle`, `", "`, `last`, `")"`.
fn pair_text(prefix: &str, middle: &str, last: &str) -> (s: String)
    ensures
        s@ == prefix@ + middle@ + ", "@ + last@ + ")"@,
{
    let mut s = String::from_str(prefix);
    s.append(middle);
    s.append(", ");
    s.append(last);
    s.append(")");
    s
}

pub fn format_junction(junction: &Junction) -> (s: String)
    requires
        junction_fits(*junction),
    ensures
        s@ == junction_text(*junction),
{
    match junction {
        Junction::Parachain(id) => wrap_decimal("Parachain(", *id as u128, ")"),
        Junction::AccountId32 { network, id } => {
            pair_text("AccountId32(", format_network(network).as_str(), short_hex(id).as_str())
        },
        Junction::AccountIndex64 { network, index } => {
            pair_text(
                "AccountIndex64(",
                format_network(network).as_str(),
                decimal_string(*index as u128).as_str(),
            )
        },
        Junction::AccountKey20 { network, key } => {
            pair_text("AccountKey20(", format_network(network).as_str(), short_hex(key).as_str())
        },
        Junction::PalletInstance(id) => wrap_decimal("PalletInstance(", *id as u128, ")"),
        Junction::GeneralIndex(id) => wrap_decimal("GeneralIndex(", *id as u128, ")"),
        Junction::GeneralKey { length, data } => {
            let mut s = wrap_decimal("GeneralKey(len=", *length as u128, ", data=");
            s.append(short_hex(slice_subrange(data, 0, *length as usize)).as_str());
            s.append(")");
            s
        },
        Junction::OnlyChild => String::from_str("OnlyChild"),
        Junction::Plurality { id, part } => pair_text("Plurality(", id.as_str(), part.as_str()),
        Junction::GlobalConsensus(network) => {
            wrap("GlobalConsensus(", format_network_id(network).as_str(), ")")
        },
    }
}

/// How interior junctions are shown: `Here` when there are none, otherwise each
/// junction joined by `/`.
pub open spec fn interior_text(interior: Seq<Junction>) -> Seq<char> {
    if interior.len() == 0 {
        "Here"@
    } else {
        join(Seq::new(interior.len(), |i: int| junction_text(interior[i])), "/"@)
    }
}

pub fn format_interior(interior: &Vec<Junction>) -> (s: String)
    requires
        interior_fits(interior@),
    ensures
        s@ == interior_text(interior@),
{
    if interior.len() == 0 {
        return String::from_str("Here");
    }
    let mut parts: Vec<String> = Vec::new();
    let mut i: usize = 0;
    while i < interior.len()
        invariant
            i <= interior.len(),
            interior_fits(interior@),
            parts@.len() == i,
            forall|k: int| 0 <= k < i ==> (#[trigger] parts@[k])@ == junction_text(interior@[k]),
        decreases interior.len() - i,
    {
        parts.push(format_junction(&interior[i]));
        i = i + 1;
    }
    assert(parts.deep_view() =~= Seq::new(interior@.len(), |k: int| junction_text(interior@[k])));
    join_strings(&parts, "/")
}

/// How a location is shown: the parent count when there is one, then the interior.
pub open spec fn location_text(location: Location) -> Seq<char> {
    let parents = if location.parents > 0 {
        "parents: "@ + decimal(location.parents as nat) + ", "@
    } else {
        Seq::empty()
    };
    parents + interior_text(location.interior@)
}

pub fn format_location(location: &Location) -> (s: String)
    requires
        location_fits(*location),
    ensures
        s@ == location_text(*location),
{
    let mut s = if location.parents > 0 {
        wrap_decimal("parents: ", location.parents as u128, ", ")
    } else {
        String::new()
    };
    s.append(format_interior(&location.interior).as_str());
    s
}

pub open spec fn optional_location_text(location: Option<Location>) -> Seq<char> {
    match location {
        Some(l) => location_text(l),
        None => "None"@,
    }
}

pub fn format_optional_location(location: &Option<Location>) -> (s: String)
    requires
        optional_location_fits(*location),
    ensures
        s@ == optional_location_text(*location),
{
    match location {
        Some(l) => format_location(l),
        None => String::from_str("None"),
    }
}

/// The kind of an asset and the amount shown for it (NFTs show zero).
pub open spec fn fungibility_parts(fun: Fungibility) -> (Seq<char>, u128) {
    match fun {
        Fungibility::Fungible(amount) => ("Native"@, amount),
        Fungibility::NonFungible => ("NFT"@, 0),
    }
}

fn format_fungibility(fun: &Fungibility) -> (r: (&'static str, u128))
    ensures
        r.0@ == fungibility_parts(*fun).0,
        r.1 == fungibility_parts(*fun).1,
{
    match fun {
        Fungibility::Fungible(amount) => ("Native", *amount),
        Fungibility::NonFungible => ("NFT", 0),
    }
}

/// An asset on one line.
pub open spec fn asset_text(asset: Asset) -> Seq<char> {
    let (kind, amount) = fungibility_parts(asset.fun);
    "Location: "@ + location_text(asset.id) + ", Asset: "@ + kind + ", Amount: "@ + amount_text(
        amount as nat,
    )
}

pub fn format_asset(asset: &Asset) -> (s: String)
    requires
        location_fits(asset.id),
    ensures
        s@ == asset_text(*asset),
{
    let (kind, amount) = format_fungibility(&asset.fun);
    let mut s = String::from_str("Location: ");
    s.append(format_location(&asset.id).as_str());
    s.append(", Asset: ");
    s.append(kind);
    s.append(", Amount: ");
    s.append(format_amount(amount).as_str());
    s
}

/// An asset as three lines: location, kind and amount.
pub open spec fn asset_rows(asset: Asset) -> Seq<Seq<char>> {
    let (kind, amount) = fungibility_parts(asset.fun);
    seq![
        "Location: "@ + location_text(asset.id),
        "Asset: "@ + kind,
        "Amount: "@ + amount_text(amount as nat),
    ]
}

pub fn format_asset_rows(asset: &Asset) -> (v: Vec<String>)
    requires
        location_fits(asset.id),
    ensures
        v.deep_view() == asset_rows(*asset),
{
    let (kind, amount) = format_fungibility(&asset.fun);
    let mut v: Vec<String> = Vec::new();
    v.push(wrap("Location: ", format_location(&asset.id).as_str(), ""));
    v.push(wrap("Asset: ", kind, ""));
    v.push(wrap("Amount: ", format_amount(amount).as_str(), ""));
    proof {
        reveal_strlit("");
    }
    assert(v.deep_view() =~= asset_rows(*asset));
    v
}

/// Each asset on a line of its own.
pub open spec fn assets_lines(assets: Seq<Asset>) -> Seq<Seq<char>> {
    Seq::new(assets.len(), |i: int| asset_text(assets[i]))
}

pub fn format_assets(assets: &Vec<Asset>) -> (v: Vec<String>)
    requires
        assets_fit(assets@),
    ensures
        v.deep_view() == assets_lines(assets@),
{
    let mut v: Vec<String> = Vec::new();
    let mut i: usize = 0;
    while i < assets.len()
        invariant
            i <= assets.len(),
            assets_fit(assets@),
            v@.len() == i,
            forall|k: int| 0 <= k < i ==> (#[trigger] v@[k])@ == asset_text(assets@[k]),
        decreases assets.len() - i,
    {
        v.push(format_asset(&assets[i]));
        i = i + 1;
    }
    assert(v.deep_view() =~= assets_lines(assets@));
    v
}

pub open spec fn wild_fungibility_text(fun: WildFungibility) -> Seq<char> {
    match fun {
        WildFungibility::Fungible => "Fungible"@,
        WildFungibility::NonFungible => "NonFungible"@,
    }
}

fn format_wild_fungibility(fun: &WildFungibility) -> (s: &'static str)
    ensures
        s@ == wild_fungibility_text(*fun),
{
    match fun {
        WildFungibility::Fungible => "Fungible",
        WildFungibility::NonFungible => "NonFungible",
    }
}

pub open spec fn wild_asset_text(wild: WildAsset) -> Seq<char> {
    match wild {
        WildAsset::All => "All"@,
        WildAsset::AllCounted(count) => "AllCounted("@ + decimal(count as nat) + ")"@,
        WildAsset::AllOf { id, fun } => "AllOf(id="@ + location_text(id) + ", fun="@
            + wild_fungibility_text(fun) + ")"@,
        WildAsset::AllOfCounted { id, fun, count } => "AllOfCounted(id="@ + location_text(id)
            + ", fun="@ + wild_fungibility_text(fun) + ", count="@ + decimal(count as nat) + ")"@,
    }
}

pub fn format_wild_asset(wild: &WildAsset) -> (s: String)
    requires
        wild_asset_fits(*wild),
    ensures
        s@ == wild_asset_text(*wild),
{
    match wild {
        WildAsset::All => String::from_str("All"),
        WildAsset::AllCounted(count) => wrap_decimal("AllCounted(", *count as u128, ")"),
        WildAsset::AllOf { id, fun } => {
            let mut s = wrap("AllOf(id=", format_location(id).as_str(), ", fun=");
            s.append(format_wild_fungibility(fun));
            s.append(")");
            s
        },
        WildAsset::AllOfCounted { id, fun, count } => {
            let mut s = wrap("AllOfCounted(id=", format_location(id).as_str(), ", fun=");
            s.append(format_wild_fungibility(fun));
            s.append(", count=");
            s.append(decimal_string(*count as u128).as_str());
            s.append(")");
            s
        },
    }
}

pub open spec fn asset_filter_text(filter: AssetFilter) -> Seq<char> {
    match filter {
        AssetFilter::Definite(assets) => "Definite(["@ + join(assets_lines(assets@), "; "@) + "])"@,
        AssetFilter::Wild(wild) => "Wild("@ + wild_asset_text(wild) + ")"@,
    }
}

pub fn format_asset_filter(filter: &AssetFilter) -> (s: String)
    requires
        asset_filter_fits(*filter),
    ensures
        s@ == asset_filter_text(*filter),
{
    match filter {
        AssetFilter::Definite(assets) => {
            let rows = format_assets(assets);
            wrap("Definite([", join_strings(&rows, "; ").as_str(), "])")
        },
        AssetFilter::Wild(wild) => wrap("Wild(", format_wild_asset(wild).as_str(), ")"),
    }
}

pub open spec fn transfer_filter_text(filter: AssetTransferFilter) -> Seq<char> {
    match filter {
        AssetTransferFilter::Teleport(inner) => "Teleport("@ + asset_filter_text(inner) + ")"@,
        AssetTransferFilter::ReserveDeposit(inner) => "ReserveDeposit("@ + asset_filter_text(inner)
            + ")"@,
        AssetTransferFilter::ReserveWithdraw(inner) => "ReserveWithdraw("@ + asset_filter_text(
            inner,
        ) + ")"@,
    }
}

pub fn format_asset_transfer_filter(filter: &AssetTransferFilter) -> (s: String)
    requires
        transfer_filter_fits(*filter),
    ensures
        s@ == transfer_filter_text(*filter),
{
    match filter {
        AssetTransferFilter::Teleport(inner) => {
            wrap("Teleport(", format_asset_filter(inner).as_str(), ")")
        },
        AssetTransferFilter::ReserveDeposit(inner) => {
            wrap("ReserveDeposit(", format_asset_filter(inner).as_str(), ")")
        },
        AssetTransferFilter::ReserveWithdraw(inner) => {
            wrap("ReserveWithdraw(", format_asset_filter(inner).as_str(), ")")
        },
    }
}

pub open spec fn weight_text(weight: Weight) -> Seq<char> {
    "ref_time="@ + decimal(weight.ref_time as nat) + ", proof_size="@ + decimal(
        weight.proof_size as nat,
    )
}

pub fn format_weight(weight: &Weight) -> (s: String)
    ensures
        s@ == weight_text(*weight),
{
    let mut s = wrap_decimal("ref_time=", weight.ref_time as u128, ", proof_size=");
    s.append(decimal_string(weight.proof_size as u128).as_str());
    s
}

pub open spec fn weight_limit_text(limit: WeightLimit) -> Seq<char> {
    match limit {
        WeightLimit::Unlimited => "Unlimited"@,
        WeightLimit::Limited(weight) => "Limited("@ + weight_text(weight) + ")"@,
    }
}

pub fn format_weight_limit(limit: &WeightLimit) -> (s: String)
    ensures
        s@ == weight_limit_text(*limit),
{
    match limit {
        WeightLimit::Unlimited => String::from_str("Unlimited"),
        WeightLimit::Limited(weight) => wrap("Limited(", format_weight(weight).as_str(), ")"),
    }
}

pub open spec fn origin_kind_text(kind: OriginKind) -> Seq<char> {
    match kind {
        OriginKind::Native => "Native"@,
        OriginKind::SovereignAccount => "SovereignAccount"@,
        OriginKind::Xcm => "XCM"@,
        OriginKind::Superuser => "Superuser"@,
    }
}

pub fn format_origin_kind(kind: &OriginKind) -> (s: String)
    ensures
        s@ == origin_kind_text(*kind),
{
    match kind {
        OriginKind::Native => String::from_str("Native"),
        OriginKind::SovereignAccount => String::from_str("SovereignAccount"),
        OriginKind::Xcm => String::from_str("XCM"),
        OriginKind::Superuser => String::from_str("Superuser"),
    }
}

/// Response information as three lines: destination, query id and maximum weight.
pub open spec fn query_response_info_lines(info: QueryResponseInfo) -> Seq<Seq<char>> {
    seq![
        "Destination: "@ + location_text(info.destination),
        "Query Id: "@ + decimal(info.query_id as nat),
        "Max Weight: "@ + weight_text(info.max_weight),
    ]
}

pub fn format_query_response_info(info: &QueryResponseInfo) -> (v: Vec<String>)
    requires
        location_fits(info.destination),
    ensures
        v.deep_view() == query_response_info_lines(*info),
{
    let mut v: Vec<String> = Vec::new();
    v.push(wrap("Destination: ", format_location(&info.destination).as_str(), ""));
    v.push(wrap_decimal("Query Id: ", info.query_id as u128, ""));
    v.push(wrap("Max Weight: ", format_weight(&info.max_weight).as_str(), ""));
    proof {
        reveal_strlit("");
    }
    assert(v.deep_view() =~= query_response_info_lines(*info));
    v
}

pub open spec fn maybe_error_code_text(code: MaybeErrorCode) -> Seq<char> {
    match code {
        MaybeErrorCode::Success => "Success"@,
        MaybeErrorCode::Error(bytes) => "Error("@ + summary_text(bytes@, 34) + ")"@,
        MaybeErrorCode::TruncatedError(bytes) => "TruncatedError("@ + summary_text(bytes@, 34)
            + ")"@,
    }
}

pub fn format_maybe_error_code(code: &MaybeErrorCode) -> (s: String)
    ensures
        s@ == maybe_error_code_text(*code),
{
    match code {
        MaybeErrorCode::Success => String::from_str("Success"),
        MaybeErrorCode::Error(bytes) => wrap("Error(", summarize_hex(bytes.as_slice(), 34).as_str(), ")"),
        MaybeErrorCode::TruncatedError(bytes) => {
            wrap("TruncatedError(", summarize_hex(bytes.as_slice(), 34).as_str(), ")")
        },
    }
}

pub open spec fn response_text(response: Response) -> Seq<char> {
    match response {
        Response::Null => "Null"@,
        Response::Assets(assets) => "Assets(["@ + join(assets_lines(assets@), "; "@) + "])"@,
        Response::ExecutionResult(None) => "ExecutionResult(Ok)"@,
        Response::ExecutionResult(Some((index, error))) => "ExecutionResult(instruction="@
            + decimal(index as nat) + ", error="@ + error@ + ")"@,
        Response::Version(version) => "Version("@ + decimal(version as nat) + ")"@,
        Response::PalletsInfo(count) => "PalletsInfo("@ + decimal(count as nat) + " entries)"@,
        Response::DispatchResult(code) => "DispatchResult("@ + maybe_error_code_text(code) + ")"@,
    }
}

pub fn format_response(response: &Response) -> (s: String)
    requires
        response_fits(*response),
    ensures
        s@ == response_text(*response),
{
    match response {
        Response::Null => String::from_str("Null"),
        Response::Assets(assets) => {
            let rows = format_assets(assets);
            wrap("Assets([", join_strings(&rows, "; ").as_str(), "])")
        },
        Response::ExecutionResult(None) => String::from_str("ExecutionResult(Ok)"),
        Response::ExecutionResult(Some((index, error))) => {
            let mut s = wrap_decimal("ExecutionResult(instruction=", *index as u128, ", error=");
            s.append(error.as_str());
            s.append(")");
            s
        },
        Response::Version(version) => wrap_decimal("Version(", *version as u128, ")"),
        Response::PalletsInfo(count) => wrap_decimal("PalletsInfo(", *count as u128, " entries)"),
        Response::DispatchResult(code) => {
            wrap("DispatchResult(", format_maybe_error_code(code).as_str(), ")")
        },
    }
}

pub open spec fn hint_text(hint: Hint) -> Seq<char> {
    match hint {
        Hint::AssetClaimer { location } => "AssetClaimer("@ + location_text(location) + ")"@,
    }
}

pub fn format_hint(hint: &Hint) -> (s: String)
    requires
        hint_fits(*hint),
    ensures
        s@ == hint_text(*hint),
{
    match hint {
        Hint::AssetClaimer { location } => {
            wrap("AssetClaimer(", format_location(location).as_str(), ")")
        },
    }
}

/// Whether a junction can be shown.
pub fn check_junction(junction: &Junction) -> (b: bool)
    ensures
        b == junction_fits(*junction),
{
    match junction {
        Junction::GeneralKey { length, .. } => *length <= 32,
        _ => true,
    }
}

/// Whether interior junctions can be shown.
pub fn check_interior(interior: &Vec<Junction>) -> (b: bool)
    ensures
        b == interior_fits(interior@),
{
    let mut i: usize = 0;
    while i < interior.len()
        invariant
            i <= interior.len(),
            forall|k: int| 0 <= k < i ==> junction_fits(#[trigger] interior@[k]),
        decreases interior.len() - i,
    {
        if !check_junction(&interior[i]) {
            return false;
        }
        i = i + 1;
    }
    true
}

/// Whether a location can be shown.
pub fn check_location(location: &Location) -> (b: bool)
    ensures
        b == location_fits(*location),
{
    check_interior(&location.interior)
}

/// Whether an optional location can be shown.
pub fn check_optional_location(location: &Option<Location>) -> (b: bool)
    ensures
        b == optional_location_fits(*location),
{
    match location {
        Some(l) => check_location(l),
        None => true,
    }
}

/// Whether assets can be shown.
pub fn check_assets(assets: &Vec<Asset>) -> (b: bool)
    ensures
        b == assets_fit(assets@),
{
    let mut i: usize = 0;
    while i < assets.len()
        invariant
            i <= assets.len(),
            forall|k: int| 0 <= k < i ==> location_fits(#[trigger] assets@[k].id),
        decreases assets.len() - i,
    {
        if !check_location(&assets[i].id) {
            return false;
        }
        i = i + 1;
    }
    true
}

/// Whether an asset filter can be shown.
pub fn check_asset_filter(filter: &AssetFilter) -> (b: bool)
    ensures
        b == asset_filter_fits(*filter),
{
    match filter {
        AssetFilter::Definite(assets) => check_assets(assets),
        AssetFilter::Wild(WildAsset::AllOf { id, .. }) => check_location(id),
        AssetFilter::Wild(WildAsset::AllOfCounted { id, .. }) => check_location(id),
        AssetFilter::Wild(_) => true,
    }
}

/// Whether an asset transfer filter can be shown.
pub fn check_transfer_filter(filter: &AssetTransferFilter) -> (b: bool)
    ensures
        b == transfer_filter_fits(*filter),
{
    match filter {
        AssetTransferFilter::Teleport(inner) => check_asset_filter(inner),
        AssetTransferFilter::ReserveDeposit(inner) => check_asset_filter(inner),
        AssetTransferFilter::ReserveWithdraw(inner) => check_asset_filter(inner),
    }
}

/// Whether a response can be shown.
pub fn check_response(response: &Response) -> (b: bool)
    ensures
        b == response_fits(*response),
{
    match response {
        Response::Assets(assets) => check_assets(assets),
        _ => true,
    }
}

/// Whether a hint can be shown.
pub fn check_hint(hint: &Hint) -> (b: bool)
    ensures
        b == hint_fits(*hint),
{
    match hint {
        Hint::AssetClaimer { location } => check_location(location),
    }
}

/// An account junction shows its network and a preview of the start of its id: `0x`,
/// the hex of the id's first three bytes, and `...`.
pub proof fn law_account_junctions_preview_their_start(network: Option<NetworkId>, id: [u8; 32], key: [u8; 20])
    ensures
        junction_text(Junction::AccountId32 { network, id }) == "AccountId32("@ + network_text(network)
            + ", 0x"@ + hex_lower(id@.take(3)) + "...)"@,
        junction_text(Junction::AccountKey20 { network, key }) == "AccountKey20("@ + network_text(network)
            + ", 0x"@ + hex_lower(key@.take(3)) + "...)"@,
{
    law_short_hex_previews_the_start(id@);
    law_short_hex_previews_the_start(key@);
    reveal_strlit("AccountId32(");
    reveal_strlit("AccountKey20(");
    reveal_strlit(", ");
    reveal_strlit(", 0x");
    reveal_strlit("0x");
    reveal_strlit("...");
    reveal_strlit("...)");
    reveal_strlit(")");
    assert(junction_text(Junction::AccountId32 { network, id }) =~= "AccountId32("@ + network_text(network)
        + ", 0x"@ + hex_lower(id@.take(3)) + "...)"@);
    assert(junction_text(Junction::AccountKey20 { network, key }) =~= "AccountKey20("@ + network_text(network)
        + ", 0x"@ + hex_lower(key@.take(3)) + "...)"@);
}

/// A location with parents shows `parents: N, ` followed by exactly what the same
/// location without parents shows, whatever its interior.
pub proof fn law_location_shows_its_parents(location: Location)
    ensures
        location.parents > 0 ==> location_text(location) == "parents: "@ + decimal(location.parents as nat) + ", "@
            + location_text(Location { parents: 0, interior: location.interior }),
        location.parents == 0 ==> location_text(location) == location_text(Location { parents: 0, interior: location.interior }),
{
    assert(Seq::<char>::empty() + interior_text(location.interior@) =~= interior_text(location.interior@));
}

/// Each origin kind is shown by its own name (`Xcm` as `XCM`), so no two kinds are
/// shown alike.
pub proof fn law_origin_kinds_show_their_names(a: OriginKind, b: OriginKind)
    ensures
        origin_kind_text(OriginKind::Native) == "Native"@,
        origin_kind_text(OriginKind::SovereignAccount) == "SovereignAccount"@,
        origin_kind_text(OriginKind::Superuser) == "Superuser"@,
        origin_kind_text(OriginKind::Xcm) == "XCM"@,
        origin_kind_text(a) == origin_kind_text(b) ==> a == b,
{
    reveal_strlit("Native");
    reveal_strlit("SovereignAccount");
    reveal_strlit("Superuser");
    reveal_strlit("XCM");
    assert(origin_kind_text(a) == origin_kind_text(b) ==> origin_kind_text(a).len()
        == origin_kind_text(b).len());
}

/// Each network is shown by its own name, an absent network as `Any`, and an Ethereum
/// chain with its chain id, which reads back as that id.
pub proof fn law_networks_show_their_names(chain_id: u64)
    ensures
        network_text(None) == "Any"@,
        network_text(Some(NetworkId::Polkadot)) == "Polkadot"@,
        network_text(Some(NetworkId::Kusama)) == "Kusama"@,
        network_text(Some(NetworkId::BitcoinCore)) == "BitcoinCore"@,
        network_text(Some(NetworkId::BitcoinCash)) == "BitcoinCash"@,
        network_text(Some(NetworkId::PolkadotBulletin)) == "PolkadotBulletin"@,
        network_text(Some(NetworkId::Ethereum { chain_id })) == "Ethereum("@ + decimal(chain_id as nat) + ")"@,
        decimal_value(decimal(chain_id as nat)) == chain_id,
{
    law_decimal_round_trip(chain_id as nat);
}

} // verus!
