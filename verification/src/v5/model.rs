//! Plain-value model of XCM v5 programs, holding what the formatters read.

use vstd::prelude::*;

verus! {

/// A consensus network. Networks the formatter does not name explicitly are kept
/// as their debug rendering.
#[derive(Clone, Debug)]
pub enum NetworkId {
    Polkadot,
    Kusama,
    Ethereum { chain_id: u64 },
    BitcoinCore,
    BitcoinCash,
    PolkadotBulletin,
    Rendered(String),
}

/// One step of an interior location.
#[derive(Clone, Debug)]
pub enum Junction {
    Parachain(u32),
    AccountId32 { network: Option<NetworkId>, id: [u8; 32] },
    AccountIndex64 { network: Option<NetworkId>, index: u64 },
    AccountKey20 { network: Option<NetworkId>, key: [u8; 20] },
    PalletInstance(u8),
    GeneralIndex(u128),
    /// A general key: its declared length and the fixed-size buffer whose first
    /// `length` bytes are the key.
    GeneralKey { length: u8, data: [u8; 32] },
    OnlyChild,
    /// A plurality, with the debug renderings of its body id and body part.
    Plurality { id: String, part: String },
    GlobalConsensus(NetworkId),
}

/// A location: how many parents to ascend, then the interior junctions
/// (none for `Here`).
#[derive(Clone, Debug)]
pub struct Location {
    pub parents: u8,
    pub interior: Vec<Junction>,
}

#[derive(Clone, Debug)]
pub enum Fungibility {
    Fungible(u128),
    NonFungible,
}

#[derive(Clone, Debug)]
pub enum WildFungibility {
    Fungible,
    NonFungible,
}

/// An asset: the location identifying it and its fungibility.
#[derive(Clone, Debug)]
pub struct Asset {
    pub id: Location,
    pub fun: Fungibility,
}

#[derive(Clone, Debug)]
pub enum WildAsset {
    All,
    AllOf { id: Location, fun: WildFungibility },
    AllCounted(u32),
    AllOfCounted { id: Location, fun: WildFungibility, count: u32 },
}

#[derive(Clone, Debug)]
pub enum AssetFilter {
    Definite(Vec<Asset>),
    Wild(WildAsset),
}

#[derive(Clone, Debug)]
pub enum AssetTransferFilter {
    Teleport(AssetFilter),
    ReserveDeposit(AssetFilter),
    ReserveWithdraw(AssetFilter),
}

#[derive(Clone, Debug)]
pub struct Weight {
    pub ref_time: u64,
    pub proof_size: u64,
}

#[derive(Clone, Debug)]
pub enum WeightLimit {
    Unlimited,
    Limited(Weight),
}

#[derive(Clone, Debug)]
pub enum OriginKind {
    Native,
    SovereignAccount,
    Superuser,
    Xcm,
}

#[derive(Clone, Debug)]
pub struct QueryResponseInfo {
    pub destination: Location,
    pub query_id: u64,
    pub max_weight: Weight,
}

#[derive(Clone, Debug)]
pub enum MaybeErrorCode {
    Success,
    Error(Vec<u8>),
    TruncatedError(Vec<u8>),
}

/// A response. An execution error is kept as its debug rendering; pallet
/// information as the number of entries.
#[derive(Clone, Debug)]
pub enum Response {
    Null,
    Assets(Vec<Asset>),
    ExecutionResult(Option<(u32, String)>),
    Version(u32),
    PalletsInfo(usize),
    DispatchResult(MaybeErrorCode),
}

#[derive(Clone, Debug)]
pub enum Hint {
    AssetClaimer { location: Location },
}

/// One XCM v5 instruction. Errors are kept as their debug renderings and a
/// transact call as its encoded bytes.
#[derive(Debug)]
pub enum Instruction {
    WithdrawAsset(Vec<Asset>),
    ReserveAssetDeposited(Vec<Asset>),
    ReceiveTeleportedAsset(Vec<Asset>),
    QueryResponse { query_id: u64, response: Response, max_weight: Weight, querier: Option<Location> },
    TransferAsset { assets: Vec<Asset>, beneficiary: Location },
    TransferReserveAsset { assets: Vec<Asset>, dest: Location, xcm: Vec<Instruction> },
    Transact { origin_kind: OriginKind, fallback_max_weight: Option<Weight>, call: Vec<u8> },
    HrmpNewChannelOpenRequest { sender: u32, max_message_size: u32, max_capacity: u32 },
    HrmpChannelAccepted { recipient: u32 },
    HrmpChannelClosing { initiator: u32, sender: u32, recipient: u32 },
    ClearOrigin,
    DescendOrigin(Vec<Junction>),
    ReportError(QueryResponseInfo),
    DepositAsset { assets: AssetFilter, beneficiary: Location },
    DepositReserveAsset { assets: AssetFilter, dest: Location, xcm: Vec<Instruction> },
    ExchangeAsset { give: AssetFilter, want: Vec<Asset>, maximal: bool },
    InitiateReserveWithdraw { assets: AssetFilter, reserve: Location, xcm: Vec<Instruction> },
    InitiateTeleport { assets: AssetFilter, dest: Location, xcm: Vec<Instruction> },
    ReportHolding { response_info: QueryResponseInfo, assets: AssetFilter },
    BuyExecution { fees: Asset, weight_limit: WeightLimit },
    RefundSurplus,
    SetErrorHandler(Vec<Instruction>),
    SetAppendix(Vec<Instruction>),
    ClearError,
    ClaimAsset { assets: Vec<Asset>, ticket: Location },
    Trap(u64),
    SubscribeVersion { query_id: u64, max_response_weight: Weight },
    UnsubscribeVersion,
    BurnAsset(Vec<Asset>),
    ExpectAsset(Vec<Asset>),
    ExpectOrigin(Option<Location>),
    ExpectError(Option<(u32, String)>),
    ExpectTransactStatus(MaybeErrorCode),
    QueryPallet { module_name: Vec<u8>, response_info: QueryResponseInfo },
    ExpectPallet { index: u32, name: Vec<u8>, module_name: Vec<u8>, crate_major: u32, min_crate_minor: u32 },
    ReportTransactStatus(QueryResponseInfo),
    ClearTransactStatus,
    UniversalOrigin(Junction),
    ExportMessage { network: NetworkId, destination: Vec<Junction>, xcm: Vec<Instruction> },
    LockAsset { asset: Asset, unlocker: Location },
    UnlockAsset { asset: Asset, target: Location },
    NoteUnlockable { asset: Asset, owner: Location },
    RequestUnlock { asset: Asset, locker: Location },
    SetFeesMode { jit_withdraw: bool },
    SetTopic([u8; 32]),
    ClearTopic,
    AliasOrigin(Location),
    UnpaidExecution { weight_limit: WeightLimit, check_origin: Option<Location> },
    PayFees { asset: Asset },
    InitiateTransfer {
        destination: Location,
        remote_fees: Option<AssetTransferFilter>,
        preserve_origin: bool,
        assets: Vec<AssetTransferFilter>,
        remote_xcm: Vec<Instruction>,
    },
    ExecuteWithOrigin { descendant_origin: Option<Vec<Junction>>, xcm: Vec<Instruction> },
    SetHints { hints: Vec<Hint> },
}

/// An XCM v5 program: its instructions in order.
#[derive(Debug)]
pub struct Xcm(pub Vec<Instruction>);

} // verus!
