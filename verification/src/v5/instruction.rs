//! The XCM v5 instruction parser: each instruction becomes its name and a table of
//! labelled lines.

use vstd::prelude::*;

use crate::params::{table_of, Entry};
use crate::text::{bool_string, bool_text, decimal, decimal_string, wrap, wrap_decimal};
use crate::types::{with_params, XcmInstruction, XcmParser};
use crate::util::{
    format_bytes_as_utf8_or_hex, hex_encode, prefixed_hex, summarize_hex, summary_text,
    utf8_or_hex_text,
};
use crate::v5::format::{
    check_asset_filter, check_assets, check_hint, check_interior, check_junction, check_location,
    check_optional_location, check_response, check_transfer_filter, asset_filter_fits, assets_fit, hint_fits, interior_fits, junction_fits, location_fits,
    optional_location_fits, response_fits, transfer_filter_fits, asset_filter_text, asset_rows, assets_lines, format_asset_filter, format_asset_rows,
    format_asset_transfer_filter, format_assets, format_hint, format_interior, format_junction,
    format_location, format_maybe_error_code, format_network_id, format_optional_location,
    format_origin_kind, format_query_response_info, format_response, format_weight,
    format_weight_limit, hint_text, interior_text, junction_text, location_text,
    maybe_error_code_text, network_text, optional_location_text, origin_kind_text,
    query_response_info_lines, response_text, transfer_filter_text, weight_limit_text,
    weight_text,
};
use crate::v5::model::{AssetTransferFilter, Hint, Instruction, Junction, Xcm};

verus! {

/// The name under which an instruction is shown.
pub open spec fn instruction_name(instr: Instruction) -> Seq<char> {
    match instr {
        Instruction::WithdrawAsset(..) => "WithdrawAsset"@,
        Instruction::ReserveAssetDeposited(..) => "ReserveAssetDeposited"@,
        Instruction::ReceiveTeleportedAsset(..) => "ReceiveTeleportedAsset"@,
        Instruction::QueryResponse { .. } => "QueryResponse"@,
        Instruction::TransferAsset { .. } => "TransferAsset"@,
        Instruction::TransferReserveAsset { .. } => "TransferReserveAsset"@,
        Instruction::Transact { .. } => "Transact"@,
        Instruction::HrmpNewChannelOpenRequest { .. } => "HrmpNewChannelOpenRequest"@,
        Instruction::HrmpChannelAccepted { .. } => "HrmpChannelAccepted"@,
        Instruction::HrmpChannelClosing { .. } => "HrmpChannelClosing"@,
        Instruction::ClearOrigin => "ClearOrigin"@,
        Instruction::DescendOrigin(..) => "DescendOrigin"@,
        Instruction::ReportError(..) => "ReportError"@,
        Instruction::DepositAsset { .. } => "DepositAsset"@,
        Instruction::DepositReserveAsset { .. } => "DepositReserveAsset"@,
        Instruction::ExchangeAsset { .. } => "ExchangeAsset"@,
        Instruction::InitiateReserveWithdraw { .. } => "InitiateReserveWithdraw"@,
        Instruction::InitiateTeleport { .. } => "InitiateTeleport"@,
        Instruction::ReportHolding { .. } => "ReportHolding"@,
        Instruction::BuyExecution { .. } => "BuyExecution"@,
        Instruction::RefundSurplus => "RefundSurplus"@,
        Instruction::SetErrorHandler(..) => "SetErrorHandler"@,
        Instruction::SetAppendix(..) => "SetAppendix"@,
        Instruction::ClearError => "ClearError"@,
        Instruction::ClaimAsset { .. } => "ClaimAsset"@,
        Instruction::Trap(..) => "Trap"@,
        Instruction::SubscribeVersion { .. } => "SubscribeVersion"@,
        Instruction::UnsubscribeVersion => "UnsubscribeVersion"@,
        Instruction::BurnAsset(..) => "BurnAsset"@,
        Instruction::ExpectAsset(..) => "ExpectAsset"@,
        Instruction::ExpectOrigin(..) => "ExpectOrigin"@,
        Instruction::ExpectError(..) => "ExpectError"@,
        Instruction::ExpectTransactStatus(..) => "ExpectTransactStatus"@,
        Instruction::QueryPallet { .. } => "QueryPallet"@,
        Instruction::ExpectPallet { .. } => "ExpectPallet"@,
        Instruction::ReportTransactStatus(..) => "ReportTransactStatus"@,
        Instruction::ClearTransactStatus => "ClearTransactStatus"@,
        Instruction::UniversalOrigin(..) => "UniversalOrigin"@,
        Instruction::ExportMessage { .. } => "ExportMessage"@,
        Instruction::LockAsset { .. } => "LockAsset"@,
        Instruction::UnlockAsset { .. } => "UnlockAsset"@,
        Instruction::NoteUnlockable { .. } => "NoteUnlockable"@,
        Instruction::RequestUnlock { .. } => "RequestUnlock"@,
        Instruction::SetFeesMode { .. } => "SetFeesMode"@,
        Instruction::SetTopic(..) => "SetTopic"@,
        Instruction::ClearTopic => "ClearTopic"@,
        Instruction::AliasOrigin(..) => "AliasOrigin"@,
        Instruction::UnpaidExecution { .. } => "UnpaidExecution"@,
        Instruction::PayFees { .. } => "PayFees"@,
        Instruction::InitiateTransfer { .. } => "InitiateTransfer"@,
        Instruction::ExecuteWithOrigin { .. } => "ExecuteWithOrigin"@,
        Instruction::SetHints { .. } => "SetHints"@,
    }
}

pub fn format_instruction_name(instr: &Instruction) -> (s: &'static str)
    ensures
        s@ == instruction_name(*instr),
{
    match instr {
        Instruction::WithdrawAsset(..) => "WithdrawAsset",
        Instruction::ReserveAssetDeposited(..) => "ReserveAssetDeposited",
        Instruction::ReceiveTeleportedAsset(..) => "ReceiveTeleportedAsset",
        Instruction::QueryResponse { .. } => "QueryResponse",
        Instruction::TransferAsset { .. } => "TransferAsset",
        Instruction::TransferReserveAsset { .. } => "TransferReserveAsset",
        Instruction::Transact { .. } => "Transact",
        Instruction::HrmpNewChannelOpenRequest { .. } => "HrmpNewChannelOpenRequest",
        Instruction::HrmpChannelAccepted { .. } => "HrmpChannelAccepted",
        Instruction::HrmpChannelClosing { .. } => "HrmpChannelClosing",
        Instruction::ClearOrigin => "ClearOrigin",
        Instruction::DescendOrigin(..) => "DescendOrigin",
        Instruction::ReportError(..) => "ReportError",
        Instruction::DepositAsset { .. } => "DepositAsset",
        Instruction::DepositReserveAsset { .. } => "DepositReserveAsset",
        Instruction::ExchangeAsset { .. } => "ExchangeAsset",
        Instruction::InitiateReserveWithdraw { .. } => "InitiateReserveWithdraw",
        Instruction::InitiateTeleport { .. } => "InitiateTeleport",
        Instruction::ReportHolding { .. } => "ReportHolding",
        Instruction::BuyExecution { .. } => "BuyExecution",
        Instruction::RefundSurplus => "RefundSurplus",
        Instruction::SetErrorHandler(..) => "SetErrorHandler",
        Instruction::SetAppendix(..) => "SetAppendix",
        Instruction::ClearError => "ClearError",
        Instruction::ClaimAsset { .. } => "ClaimAsset",
        Instruction::Trap(..) => "Trap",
        Instruction::SubscribeVersion { .. } => "SubscribeVersion",
        Instruction::UnsubscribeVersion => "UnsubscribeVersion",
        Instruction::BurnAsset(..) => "BurnAsset",
        Instruction::ExpectAsset(..) => "ExpectAsset",
        Instruction::ExpectOrigin(..) => "ExpectOrigin",
        Instruction::ExpectError(..) => "ExpectError",
        Instruction::ExpectTransactStatus(..) => "ExpectTransactStatus",
        Instruction::QueryPallet { .. } => "QueryPallet",
        Instruction::ExpectPallet { .. } => "ExpectPallet",
        Instruction::ReportTransactStatus(..) => "ReportTransactStatus",
        Instruction::ClearTransactStatus => "ClearTransactStatus",
        Instruction::UniversalOrigin(..) => "UniversalOrigin",
        Instruction::ExportMessage { .. } => "ExportMessage",
        Instruction::LockAsset { .. } => "LockAsset",
        Instruction::UnlockAsset { .. } => "UnlockAsset",
        Instruction::NoteUnlockable { .. } => "NoteUnlockable",
        Instruction::RequestUnlock { .. } => "RequestUnlock",
        Instruction::SetFeesMode { .. } => "SetFeesMode",
        Instruction::SetTopic(..) => "SetTopic",
        Instruction::ClearTopic => "ClearTopic",
        Instruction::AliasOrigin(..) => "AliasOrigin",
        Instruction::UnpaidExecution { .. } => "UnpaidExecution",
        Instruction::PayFees { .. } => "PayFees",
        Instruction::InitiateTransfer { .. } => "InitiateTransfer",
        Instruction::ExecuteWithOrigin { .. } => "ExecuteWithOrigin",
        Instruction::SetHints { .. } => "SetHints",
    }
}

/// A nested program as one line per instruction: its index and its name.
pub open spec fn nested_lines(xcm: Seq<Instruction>) -> Seq<Seq<char>> {
    Seq::new(
        xcm.len(),
        |i: int| "["@ + decimal(i as nat) + "] "@ + instruction_name(xcm[i]),
    )
}

pub fn format_nested_xcm(xcm: &Vec<Instruction>) -> (v: Vec<String>)
    ensures
        v.deep_view() == nested_lines(xcm@),
{
    let mut v: Vec<String> = Vec::new();
    let mut i: usize = 0;
    while i < xcm.len()
        invariant
            i <= xcm.len(),
            v@.len() == i,
            forall|k: int|
                0 <= k < i ==> (#[trigger] v@[k])@ == "["@ + decimal(k as nat) + "] "@
                    + instruction_name(xcm@[k]),
        decreases xcm.len() - i,
    {
        v.push(wrap("[", decimal_string(i as u128).as_str(), "] ").concat(format_instruction_name(&xcm[i])));
        i = i + 1;
    }
    assert(v.deep_view() =~= nested_lines(xcm@));
    v
}

/// An instruction can be shown: each general key it holds fits its buffer. Nested
/// programs are listed by instruction name only, so their keys do not matter.
pub open spec fn instruction_fits(instr: Instruction) -> bool {
    match instr {
        Instruction::WithdrawAsset(assets) => assets_fit(assets@),
        Instruction::ReserveAssetDeposited(assets) => assets_fit(assets@),
        Instruction::ReceiveTeleportedAsset(assets) => assets_fit(assets@),
        Instruction::QueryResponse { response, querier, .. } => response_fits(response)
            && optional_location_fits(querier),
        Instruction::TransferAsset { assets, beneficiary } => assets_fit(assets@) && location_fits(
            beneficiary,
        ),
        Instruction::TransferReserveAsset { assets, dest, .. } => assets_fit(assets@)
            && location_fits(dest),
        Instruction::DescendOrigin(interior) => interior_fits(interior@),
        Instruction::ReportError(info) => location_fits(info.destination),
        Instruction::DepositAsset { assets, beneficiary } => asset_filter_fits(assets)
            && location_fits(beneficiary),
        Instruction::DepositReserveAsset { assets, dest, .. } => asset_filter_fits(assets)
            && location_fits(dest),
        Instruction::ExchangeAsset { give, want, .. } => asset_filter_fits(give) && assets_fit(
            want@,
        ),
        Instruction::InitiateReserveWithdraw { assets, reserve, .. } => asset_filter_fits(assets)
            && location_fits(reserve),
        Instruction::InitiateTeleport { assets, dest, .. } => asset_filter_fits(assets)
            && location_fits(dest),
        Instruction::ReportHolding { response_info, assets } => location_fits(
            response_info.destination,
        ) && asset_filter_fits(assets),
        Instruction::BuyExecution { fees, .. } => location_fits(fees.id),
        Instruction::ClaimAsset { assets, ticket } => assets_fit(assets@) && location_fits(ticket),
        Instruction::BurnAsset(assets) => assets_fit(assets@),
        Instruction::ExpectAsset(assets) => assets_fit(assets@),
        Instruction::ExpectOrigin(origin) => optional_location_fits(origin),
        Instruction::QueryPallet { response_info, .. } => location_fits(response_info.destination),
        Instruction::ReportTransactStatus(info) => location_fits(info.destination),
        Instruction::UniversalOrigin(junction) => junction_fits(junction),
        Instruction::ExportMessage { destination, .. } => interior_fits(destination@),
        Instruction::LockAsset { asset, unlocker } => location_fits(asset.id) && location_fits(
            unlocker,
        ),
        Instruction::UnlockAsset { asset, target } => location_fits(asset.id) && location_fits(
            target,
        ),
        Instruction::NoteUnlockable { asset, owner } => location_fits(asset.id) && location_fits(
            owner,
        ),
        Instruction::RequestUnlock { asset, locker } => location_fits(asset.id) && location_fits(
            locker,
        ),
        Instruction::AliasOrigin(location) => location_fits(location),
        Instruction::UnpaidExecution { check_origin, .. } => optional_location_fits(check_origin),
        Instruction::PayFees { asset } => location_fits(asset.id),
        Instruction::InitiateTransfer { destination, remote_fees, assets, .. } => {
            &&& location_fits(destination)
            &&& remote_fees matches Some(fees) ==> transfer_filter_fits(fees)
            &&& transfer_filters_fit(assets@)
        },
        Instruction::ExecuteWithOrigin { descendant_origin, .. } => descendant_origin matches Some(
            origin,
        ) ==> interior_fits(origin@),
        Instruction::SetHints { hints } => hints_fit(hints@),
        _ => true,
    }
}

pub open spec fn transfer_filters_fit(filters: Seq<AssetTransferFilter>) -> bool {
    forall|i: int| 0 <= i < filters.len() ==> transfer_filter_fits(#[trigger] filters[i])
}

pub open spec fn hints_fit(hints: Seq<Hint>) -> bool {
    forall|i: int| 0 <= i < hints.len() ==> hint_fits(#[trigger] hints[i])
}

/// A program can be shown: each of its instructions can.
pub open spec fn program_fits(xcm: Seq<Instruction>) -> bool {
    forall|i: int| 0 <= i < xcm.len() ==> instruction_fits(#[trigger] xcm[i])
}

/// A single explanatory line.
pub open spec fn note_row(note: Seq<char>) -> Seq<Entry> {
    seq![("Note"@, seq![note])]
}

/// The labelled lines an instruction is shown with, in the order they are set.
pub open spec fn instruction_rows(instr: Instruction) -> Seq<Entry> {
    match instr {
        Instruction::WithdrawAsset(assets) => seq![("Assets"@, assets_lines(assets@))],
        Instruction::ReserveAssetDeposited(assets) => seq![("Assets"@, assets_lines(assets@))],
        Instruction::ReceiveTeleportedAsset(assets) => seq![("Assets"@, assets_lines(assets@))],
        Instruction::QueryResponse { query_id, response, max_weight, querier } => seq![
            ("Query Id"@, seq![decimal(query_id as nat)]),
            ("Response"@, seq![response_text(response)]),
            ("Max Weight"@, seq![weight_text(max_weight)]),
            ("Querier"@, seq![optional_location_text(querier)]),
        ],
        Instruction::TransferAsset { assets, beneficiary } => seq![
            ("Assets"@, assets_lines(assets@)),
            ("Beneficiary"@, seq![location_text(beneficiary)]),
        ],
        Instruction::TransferReserveAsset { assets, dest, xcm } => seq![
            ("Assets"@, assets_lines(assets@)),
            ("Destination"@, seq![location_text(dest)]),
            ("Onward XCM"@, nested_lines(xcm@)),
        ],
        Instruction::Transact { origin_kind, fallback_max_weight, call } => seq![
            ("Origin Kind"@, seq![origin_kind_text(origin_kind)]),
            (
                "Maximum Fallback Weight"@,
                seq![
                    match fallback_max_weight {
                        Some(w) => weight_text(w),
                        None => "None"@,
                    },
                ],
            ),
            ("Call Payload"@, seq![summary_text(call@, 34)]),
        ],
        Instruction::HrmpNewChannelOpenRequest { sender, max_message_size, max_capacity } => seq![
            ("Sender"@, seq![decimal(sender as nat)]),
            ("Max Message Size"@, seq![decimal(max_message_size as nat)]),
            ("Max Capacity"@, seq![decimal(max_capacity as nat)]),
        ],
        Instruction::HrmpChannelAccepted { recipient } => seq![
            ("Recipient"@, seq![decimal(recipient as nat)]),
        ],
        Instruction::HrmpChannelClosing { initiator, sender, recipient } => seq![
            ("Initiator"@, seq![decimal(initiator as nat)]),
            ("Sender"@, seq![decimal(sender as nat)]),
            ("Recipient"@, seq![decimal(recipient as nat)]),
        ],
        Instruction::ClearOrigin => note_row(
            "Clears the origin register so later instructions cannot use origin authority."@,
        ),
        Instruction::DescendOrigin(interior) => seq![
            ("Interior"@, seq![interior_text(interior@)]),
        ],
        Instruction::ReportError(info) => seq![
            ("Response Info"@, query_response_info_lines(info)),
        ],
        Instruction::DepositAsset { assets, beneficiary } => seq![
            ("Assets"@, seq![asset_filter_text(assets)]),
            ("Beneficiary"@, seq![location_text(beneficiary)]),
        ],
        Instruction::DepositReserveAsset { assets, dest, xcm } => seq![
            ("Assets"@, seq![asset_filter_text(assets)]),
            ("Destination"@, seq![location_text(dest)]),
            ("Onward XCM"@, nested_lines(xcm@)),
        ],
        Instruction::ExchangeAsset { give, want, maximal } => seq![
            ("Give"@, seq![asset_filter_text(give)]),
            ("Want"@, assets_lines(want@)),
            ("Maximal"@, seq![bool_text(maximal)]),
        ],
        Instruction::InitiateReserveWithdraw { assets, reserve, xcm } => seq![
            ("Assets"@, seq![asset_filter_text(assets)]),
            ("Reserve"@, seq![location_text(reserve)]),
            ("Onward XCM"@, nested_lines(xcm@)),
        ],
        Instruction::InitiateTeleport { assets, dest, xcm } => seq![
            ("Assets"@, seq![asset_filter_text(assets)]),
            ("Destination"@, seq![location_text(dest)]),
            ("Onward XCM"@, nested_lines(xcm@)),
        ],
        Instruction::ReportHolding { response_info, assets } => seq![
            ("Response Info"@, query_response_info_lines(response_info)),
            ("Assets"@, seq![asset_filter_text(assets)]),
        ],
        Instruction::BuyExecution { fees, weight_limit } => seq![
            ("Fees"@, asset_rows(fees)),
            ("Weight Limit"@, seq![weight_limit_text(weight_limit)]),
        ],
        Instruction::RefundSurplus => note_row(
            "Calculates unspent execution fees dynamically at runtime and moves surplus weight from the holding register to the asset register."@,
        ),
        Instruction::SetErrorHandler(xcm) => seq![("Handler XCM"@, nested_lines(xcm@))],
        Instruction::SetAppendix(xcm) => seq![("Appendix XCM"@, nested_lines(xcm@))],
        Instruction::ClearError => note_row("Clears the error register."@),
        Instruction::ClaimAsset { assets, ticket } => seq![
            ("Assets"@, assets_lines(assets@)),
            ("Ticket"@, seq![location_text(ticket)]),
        ],
        Instruction::Trap(code) => seq![("Code"@, seq![decimal(code as nat)])],
        Instruction::SubscribeVersion { query_id, max_response_weight } => seq![
            ("Query Id"@, seq![decimal(query_id as nat)]),
            ("Max Response Weight"@, seq![weight_text(max_response_weight)]),
        ],
        Instruction::UnsubscribeVersion => note_row("Cancels a previous SubscribeVersion request."@),
        Instruction::BurnAsset(assets) => seq![("Assets"@, assets_lines(assets@))],
        Instruction::ExpectAsset(assets) => seq![("Assets"@, assets_lines(assets@))],
        Instruction::ExpectOrigin(origin) => seq![
            ("Origin"@, seq![optional_location_text(origin)]),
        ],
        Instruction::ExpectError(error) => seq![
            (
                "Expected"@,
                seq![
                    match error {
                        None => "None (no error expected)"@,
                        Some((index, err)) => "instruction="@ + decimal(index as nat) + ", error="@
                            + err@,
                    },
                ],
            ),
        ],
        Instruction::ExpectTransactStatus(status) => seq![
            ("Status"@, seq![maybe_error_code_text(status)]),
        ],
        Instruction::QueryPallet { module_name, response_info } => seq![
            ("Module Name"@, seq![utf8_or_hex_text(module_name@)]),
            ("Response Info"@, query_response_info_lines(response_info)),
        ],
        Instruction::ExpectPallet { index, name, module_name, crate_major, min_crate_minor } => seq![
            ("Index"@, seq![decimal(index as nat)]),
            ("Name"@, seq![utf8_or_hex_text(name@)]),
            ("Module Name"@, seq![utf8_or_hex_text(module_name@)]),
            ("Crate Major"@, seq![decimal(crate_major as nat)]),
            ("Min Crate Minor"@, seq![decimal(min_crate_minor as nat)]),
        ],
        Instruction::ReportTransactStatus(info) => seq![
            ("Response Info"@, query_response_info_lines(info)),
        ],
        Instruction::ClearTransactStatus => note_row("Clears the Transact Status Register."@),
        Instruction::UniversalOrigin(junction) => seq![
            ("Junction"@, seq![junction_text(junction)]),
        ],
        Instruction::ExportMessage { network, destination, xcm } => seq![
            ("Network"@, seq![network_text(Some(network))]),
            ("Destination"@, seq![interior_text(destination@)]),
            ("Exported XCM"@, nested_lines(xcm@)),
        ],
        Instruction::LockAsset { asset, unlocker } => seq![
            ("Asset"@, asset_rows(asset)),
            ("Unlocker"@, seq![location_text(unlocker)]),
        ],
        Instruction::UnlockAsset { asset, target } => seq![
            ("Asset"@, asset_rows(asset)),
            ("Target"@, seq![location_text(target)]),
        ],
        Instruction::NoteUnlockable { asset, owner } => seq![
            ("Asset"@, asset_rows(asset)),
            ("Owner"@, seq![location_text(owner)]),
        ],
        Instruction::RequestUnlock { asset, locker } => seq![
            ("Asset"@, asset_rows(asset)),
            ("Locker"@, seq![location_text(locker)]),
        ],
        Instruction::SetFeesMode { jit_withdraw } => seq![
            ("JIT Withdraw"@, seq![bool_text(jit_withdraw)]),
        ],
        Instruction::SetTopic(topic) => seq![("Topic"@, seq![prefixed_hex(topic@)])],
        Instruction::ClearTopic => note_row("Clears the topic register."@),
        Instruction::AliasOrigin(location) => seq![("Origin"@, seq![location_text(location)])],
        Instruction::UnpaidExecution { weight_limit, check_origin } => seq![
            ("Weight Limit"@, seq![weight_limit_text(weight_limit)]),
            ("Check Origin"@, seq![optional_location_text(check_origin)]),
        ],
        Instruction::PayFees { asset } => seq![("Asset"@, asset_rows(asset))],
        Instruction::InitiateTransfer {
            destination,
            remote_fees,
            preserve_origin,
            assets,
            remote_xcm,
        } => seq![
            ("Destination"@, seq![location_text(destination)]),
            (
                "Remote Fees"@,
                seq![
                    match remote_fees {
                        Some(filter) => transfer_filter_text(filter),
                        None => "None (UnpaidExecution)"@,
                    },
                ],
            ),
            ("Preserve Origin"@, seq![bool_text(preserve_origin)]),
            ("Assets"@, transfer_filters_lines(assets@)),
            ("Remote XCM"@, nested_lines(remote_xcm@)),
        ],
        Instruction::ExecuteWithOrigin { descendant_origin, xcm } => seq![
            (
                "Descendant Origin"@,
                seq![
                    match descendant_origin {
                        Some(interior) => interior_text(interior@),
                        None => "None"@,
                    },
                ],
            ),
            ("Inner XCM"@, nested_lines(xcm@)),
        ],
        Instruction::SetHints { hints } => seq![("Hints"@, hints_lines(hints@))],
    }
}

/// Each transfer filter on a line of its own.
pub open spec fn transfer_filters_lines(filters: Seq<AssetTransferFilter>) -> Seq<Seq<char>> {
    Seq::new(filters.len(), |i: int| transfer_filter_text(filters[i]))
}

/// Each hint on a line of its own.
pub open spec fn hints_lines(hints: Seq<Hint>) -> Seq<Seq<char>> {
    Seq::new(hints.len(), |i: int| hint_text(hints[i]))
}

/// How an instruction is shown: its name and the table of its labelled lines.
pub open spec fn instruction_view(instr: Instruction) -> (Seq<char>, Seq<Entry>) {
    (instruction_name(instr), table_of(instruction_rows(instr)))
}

fn one(line: String) -> (v: Vec<String>)
    ensures
        v.deep_view() == seq![line@],
{
    let mut v: Vec<String> = Vec::new();
    v.push(line);
    assert(v.deep_view() =~= seq![line@]);
    v
}

fn row(key: &str, lines: Vec<String>) -> (e: (String, Vec<String>))
    ensures
        e.deep_view() == (key@, lines.deep_view()),
{
    (String::from_str(key), lines)
}

fn rows1(a: (String, Vec<String>)) -> (v: Vec<(String, Vec<String>)>)
    ensures
        v.deep_view() == seq![a.deep_view()],
{
    let mut v = Vec::new();
    v.push(a);
    assert(v.deep_view() =~= seq![a.deep_view()]);
    v
}

fn rows2(a: (String, Vec<String>), b: (String, Vec<String>)) -> (v: Vec<(String, Vec<String>)>)
    ensures
        v.deep_view() == seq![a.deep_view(), b.deep_view()],
{
    let ghost (ga, gb) = (a.deep_view(), b.deep_view());
    let mut v = Vec::new();
    v.push(a);
    v.push(b);
    assert(v.deep_view() =~= seq![ga, gb]);
    v
}

fn rows3(
    a: (String, Vec<String>),
    b: (String, Vec<String>),
    c: (String, Vec<String>),
) -> (v: Vec<(String, Vec<String>)>)
    ensures
        v.deep_view() == seq![a.deep_view(), b.deep_view(), c.deep_view()],
{
    let ghost (ga, gb, gc) = (a.deep_view(), b.deep_view(), c.deep_view());
    let mut v = Vec::new();
    v.push(a);
    v.push(b);
    v.push(c);
    assert(v.deep_view() =~= seq![ga, gb, gc]);
    v
}

fn rows4(
    a: (String, Vec<String>),
    b: (String, Vec<String>),
    c: (String, Vec<String>),
    d: (String, Vec<String>),
) -> (v: Vec<(String, Vec<String>)>)
    ensures
        v.deep_view() == seq![a.deep_view(), b.deep_view(), c.deep_view(), d.deep_view()],
{
    let ghost (ga, gb, gc, gd) = (a.deep_view(), b.deep_view(), c.deep_view(), d.deep_view());
    let mut v = Vec::new();
    v.push(a);
    v.push(b);
    v.push(c);
    v.push(d);
    assert(v.deep_view() =~= seq![ga, gb, gc, gd]);
    v
}

fn rows5(
    a: (String, Vec<String>),
    b: (String, Vec<String>),
    c: (String, Vec<String>),
    d: (String, Vec<String>),
    e: (String, Vec<String>),
) -> (v: Vec<(String, Vec<String>)>)
    ensures
        v.deep_view() == seq![a.deep_view(), b.deep_view(), c.deep_view(), d.deep_view(), e.deep_view()],
{
    let ghost (ga, gb, gc, gd, ge) = (
        a.deep_view(),
        b.deep_view(),
        c.deep_view(),
        d.deep_view(),
        e.deep_view(),
    );
    let mut v = Vec::new();
    v.push(a);
    v.push(b);
    v.push(c);
    v.push(d);
    v.push(e);
    assert(v.deep_view() =~= seq![ga, gb, gc, gd, ge]);
    v
}

fn note_instruction(name: &str, note: &str) -> (r: XcmInstruction)
    ensures
        r.name@ == name@,
        r.params@ == table_of(note_row(note@)),
{
    with_params(name, rows1(row("Note", one(String::from_str(note)))))
}

fn format_transfer_filters(filters: &Vec<AssetTransferFilter>) -> (v: Vec<String>)
    requires
        transfer_filters_fit(filters@),
    ensures
        v.deep_view() == transfer_filters_lines(filters@),
{
    let mut v: Vec<String> = Vec::new();
    let mut i: usize = 0;
    while i < filters.len()
        invariant
            i <= filters.len(),
            transfer_filters_fit(filters@),
            v@.len() == i,
            forall|k: int| 0 <= k < i ==> (#[trigger] v@[k])@ == transfer_filter_text(filters@[k]),
        decreases filters.len() - i,
    {
        v.push(format_asset_transfer_filter(&filters[i]));
        i = i + 1;
    }
    assert(v.deep_view() =~= transfer_filters_lines(filters@));
    v
}

fn format_hints(hints: &Vec<Hint>) -> (v: Vec<String>)
    requires
        hints_fit(hints@),
    ensures
        v.deep_view() == hints_lines(hints@),
{
    let mut v: Vec<String> = Vec::new();
    let mut i: usize = 0;
    while i < hints.len()
        invariant
            i <= hints.len(),
            hints_fit(hints@),
            v@.len() == i,
            forall|k: int| 0 <= k < i ==> (#[trigger] v@[k])@ == hint_text(hints@[k]),
        decreases hints.len() - i,
    {
        v.push(format_hint(&hints[i]));
        i = i + 1;
    }
    assert(v.deep_view() =~= hints_lines(hints@));
    v
}

fn lines_of_location(location: &crate::v5::model::Location) -> (v: Vec<String>)
    requires
        location_fits(*location),
    ensures
        v.deep_view() == seq![location_text(*location)],
{
    one(format_location(location))
}

/// Law: a nested program's listing has one line per instruction, naming it exactly as
/// parsing that instruction does.
pub proof fn law_nested_lines_name_each_instruction(xcm: Seq<Instruction>)
    ensures
        nested_lines(xcm).len() == xcm.len(),
        forall|k: int|
            0 <= k < xcm.len() ==> #[trigger] nested_lines(xcm)[k] == "["@ + decimal(k as nat) + "] "@
                + instruction_view(xcm[k]).0,
{
}

/// Formats one instruction: its name and a table of its labelled lines.
#[verifier::rlimit(60)]
pub fn parse_instruction(instr: &Instruction) -> (r: XcmInstruction)
    requires
        instruction_fits(*instr),
    ensures
        r@ == instruction_view(*instr),
{
    match instr {
        Instruction::WithdrawAsset(assets) => {
            with_params("WithdrawAsset", rows1(row("Assets", format_assets(assets))))
        },
        Instruction::ReserveAssetDeposited(assets) => {
            with_params("ReserveAssetDeposited", rows1(row("Assets", format_assets(assets))))
        },
        Instruction::ReceiveTeleportedAsset(assets) => {
            with_params("ReceiveTeleportedAsset", rows1(row("Assets", format_assets(assets))))
        },
        Instruction::QueryResponse { query_id, response, max_weight, querier } => with_params(
            "QueryResponse",
            rows4(
                row("Query Id", one(decimal_string(*query_id as u128))),
                row("Response", one(format_response(response))),
                row("Max Weight", one(format_weight(max_weight))),
                row("Querier", one(format_optional_location(querier))),
            ),
        ),
        Instruction::TransferAsset { assets, beneficiary } => with_params(
            "TransferAsset",
            rows2(
                row("Assets", format_assets(assets)),
                row("Beneficiary", lines_of_location(beneficiary)),
            ),
        ),
        Instruction::TransferReserveAsset { assets, dest, xcm } => with_params(
            "TransferReserveAsset",
            rows3(
                row("Assets", format_assets(assets)),
                row("Destination", lines_of_location(dest)),
                row("Onward XCM", format_nested_xcm(xcm)),
            ),
        ),
        Instruction::Transact { origin_kind, fallback_max_weight, call } => {
            let weight = match fallback_max_weight {
                Some(w) => format_weight(w),
                None => String::from_str("None"),
            };
            assert(instruction_rows(*instr) == seq![
                ("Origin Kind"@, seq![origin_kind_text(*origin_kind)]),
                ("Maximum Fallback Weight"@, seq![weight@]),
                ("Call Payload"@, seq![summary_text(call@, 34)]),
            ]);
            with_params(
                "Transact",
                rows3(
                    row("Origin Kind", one(format_origin_kind(origin_kind))),
                    row("Maximum Fallback Weight", one(weight)),
                    row("Call Payload", one(summarize_hex(call.as_slice(), 34))),
                ),
            )
        },
        Instruction::HrmpNewChannelOpenRequest { sender, max_message_size, max_capacity } => {
            with_params(
                "HrmpNewChannelOpenRequest",
                rows3(
                    row("Sender", one(decimal_string(*sender as u128))),
                    row("Max Message Size", one(decimal_string(*max_message_size as u128))),
                    row("Max Capacity", one(decimal_string(*max_capacity as u128))),
                ),
            )
        },
        Instruction::HrmpChannelAccepted { recipient } => with_params(
            "HrmpChannelAccepted",
            rows1(row("Recipient", one(decimal_string(*recipient as u128)))),
        ),
        Instruction::HrmpChannelClosing { initiator, sender, recipient } => with_params(
            "HrmpChannelClosing",
            rows3(
                row("Initiator", one(decimal_string(*initiator as u128))),
                row("Sender", one(decimal_string(*sender as u128))),
                row("Recipient", one(decimal_string(*recipient as u128))),
            ),
        ),
        Instruction::ClearOrigin => note_instruction(
            "ClearOrigin",
            "Clears the origin register so later instructions cannot use origin authority.",
        ),
        Instruction::DescendOrigin(interior) => with_params(
            "DescendOrigin",
            rows1(row("Interior", one(format_interior(interior)))),
        ),
        Instruction::ReportError(info) => with_params(
            "ReportError",
            rows1(row("Response Info", format_query_response_info(info))),
        ),
        Instruction::DepositAsset { assets, beneficiary } => with_params(
            "DepositAsset",
            rows2(
                row("Assets", one(format_asset_filter(assets))),
                row("Beneficiary", lines_of_location(beneficiary)),
            ),
        ),
        Instruction::DepositReserveAsset { assets, dest, xcm } => with_params(
            "DepositReserveAsset",
            rows3(
                row("Assets", one(format_asset_filter(assets))),
                row("Destination", lines_of_location(dest)),
                row("Onward XCM", format_nested_xcm(xcm)),
            ),
        ),
        Instruction::ExchangeAsset { give, want, maximal } => with_params(
            "ExchangeAsset",
            rows3(
                row("Give", one(format_asset_filter(give))),
                row("Want", format_assets(want)),
                row("Maximal", one(bool_string(*maximal))),
            ),
        ),
        Instruction::InitiateReserveWithdraw { assets, reserve, xcm } => with_params(
            "InitiateReserveWithdraw",
            rows3(
                row("Assets", one(format_asset_filter(assets))),
                row("Reserve", lines_of_location(reserve)),
                row("Onward XCM", format_nested_xcm(xcm)),
            ),
        ),
        Instruction::InitiateTeleport { assets, dest, xcm } => with_params(
            "InitiateTeleport",
            rows3(
                row("Assets", one(format_asset_filter(assets))),
                row("Destination", lines_of_location(dest)),
                row("Onward XCM", format_nested_xcm(xcm)),
            ),
        ),
        Instruction::ReportHolding { response_info, assets } => with_params(
            "ReportHolding",
            rows2(
                row("Response Info", format_query_response_info(response_info)),
                row("Assets", one(format_asset_filter(assets))),
            ),
        ),
        Instruction::BuyExecution { fees, weight_limit } => with_params(
            "BuyExecution",
            rows2(
                row("Fees", format_asset_rows(fees)),
                row("Weight Limit", one(format_weight_limit(weight_limit))),
            ),
        ),
        Instruction::RefundSurplus => note_instruction(
            "RefundSurplus",
            "Calculates unspent execution fees dynamically at runtime and moves surplus weight from the holding register to the asset register.",
        ),
        Instruction::SetErrorHandler(xcm) => with_params(
            "SetErrorHandler",
            rows1(row("Handler XCM", format_nested_xcm(xcm))),
        ),
        Instruction::SetAppendix(xcm) => with_params(
            "SetAppendix",
            rows1(row("Appendix XCM", format_nested_xcm(xcm))),
        ),
        Instruction::ClearError => note_instruction("ClearError", "Clears the error register."),
        Instruction::ClaimAsset { assets, ticket } => with_params(
            "ClaimAsset",
            rows2(row("Assets", format_assets(assets)), row("Ticket", lines_of_location(ticket))),
        ),
        Instruction::Trap(code) => with_params(
            "Trap",
            rows1(row("Code", one(decimal_string(*code as u128)))),
        ),
        Instruction::SubscribeVersion { query_id, max_response_weight } => with_params(
            "SubscribeVersion",
            rows2(
                row("Query Id", one(decimal_string(*query_id as u128))),
                row("Max Response Weight", one(format_weight(max_response_weight))),
            ),
        ),
        Instruction::UnsubscribeVersion => note_instruction(
            "UnsubscribeVersion",
            "Cancels a previous SubscribeVersion request.",
        ),
        Instruction::BurnAsset(assets) => {
            with_params("BurnAsset", rows1(row("Assets", format_assets(assets))))
        },
        Instruction::ExpectAsset(assets) => {
            with_params("ExpectAsset", rows1(row("Assets", format_assets(assets))))
        },
        Instruction::ExpectOrigin(origin) => with_params(
            "ExpectOrigin",
            rows1(row("Origin", one(format_optional_location(origin)))),
        ),
        Instruction::ExpectError(error) => {
            let value = match error {
                None => String::from_str("None (no error expected)"),
                Some((index, err)) => {
                    let mut s = wrap_decimal("instruction=", *index as u128, ", error=");
                    s.append(err.as_str());
                    s
                },
            };
            with_params("ExpectError", rows1(row("Expected", one(value))))
        },
        Instruction::ExpectTransactStatus(status) => with_params(
            "ExpectTransactStatus",
            rows1(row("Status", one(format_maybe_error_code(status)))),
        ),
        Instruction::QueryPallet { module_name, response_info } => with_params(
            "QueryPallet",
            rows2(
                row("Module Name", one(format_bytes_as_utf8_or_hex(module_name.as_slice()))),
                row("Response Info", format_query_response_info(response_info)),
            ),
        ),
        Instruction::ExpectPallet { index, name, module_name, crate_major, min_crate_minor } => {
            with_params(
                "ExpectPallet",
                rows5(
                    row("Index", one(decimal_string(*index as u128))),
                    row("Name", one(format_bytes_as_utf8_or_hex(name.as_slice()))),
                    row("Module Name", one(format_bytes_as_utf8_or_hex(module_name.as_slice()))),
                    row("Crate Major", one(decimal_string(*crate_major as u128))),
                    row("Min Crate Minor", one(decimal_string(*min_crate_minor as u128))),
                ),
            )
        },
        Instruction::ReportTransactStatus(info) => with_params(
            "ReportTransactStatus",
            rows1(row("Response Info", format_query_response_info(info))),
        ),
        Instruction::ClearTransactStatus => note_instruction(
            "ClearTransactStatus",
            "Clears the Transact Status Register.",
        ),
        Instruction::UniversalOrigin(junction) => with_params(
            "UniversalOrigin",
            rows1(row("Junction", one(format_junction(junction)))),
        ),
        Instruction::ExportMessage { network, destination, xcm } => with_params(
            "ExportMessage",
            rows3(
                row("Network", one(format_network_id(network))),
                row("Destination", one(format_interior(destination))),
                row("Exported XCM", format_nested_xcm(xcm)),
            ),
        ),
        Instruction::LockAsset { asset, unlocker } => with_params(
            "LockAsset",
            rows2(row("Asset", format_asset_rows(asset)), row("Unlocker", lines_of_location(unlocker))),
        ),
        Instruction::UnlockAsset { asset, target } => with_params(
            "UnlockAsset",
            rows2(row("Asset", format_asset_rows(asset)), row("Target", lines_of_location(target))),
        ),
        Instruction::NoteUnlockable { asset, owner } => with_params(
            "NoteUnlockable",
            rows2(row("Asset", format_asset_rows(asset)), row("Owner", lines_of_location(owner))),
        ),
        Instruction::RequestUnlock { asset, locker } => with_params(
            "RequestUnlock",
            rows2(row("Asset", format_asset_rows(asset)), row("Locker", lines_of_location(locker))),
        ),
        Instruction::SetFeesMode { jit_withdraw } => with_params(
            "SetFeesMode",
            rows1(row("JIT Withdraw", one(bool_string(*jit_withdraw)))),
        ),
        Instruction::SetTopic(topic) => {
            let hex = wrap("0x", hex_encode(topic).as_str(), "");
            proof {
                reveal_strlit("");
            }
            with_params("SetTopic", rows1(row("Topic", one(hex))))
        },
        Instruction::ClearTopic => note_instruction("ClearTopic", "Clears the topic register."),
        Instruction::AliasOrigin(location) => with_params(
            "AliasOrigin",
            rows1(row("Origin", lines_of_location(location))),
        ),
        Instruction::UnpaidExecution { weight_limit, check_origin } => with_params(
            "UnpaidExecution",
            rows2(
                row("Weight Limit", one(format_weight_limit(weight_limit))),
                row("Check Origin", one(format_optional_location(check_origin))),
            ),
        ),
        Instruction::PayFees { asset } => {
            with_params("PayFees", rows1(row("Asset", format_asset_rows(asset))))
        },
        Instruction::InitiateTransfer {
            destination,
            remote_fees,
            preserve_origin,
            assets,
            remote_xcm,
        } => {
            let fees = match remote_fees {
                Some(filter) => format_asset_transfer_filter(filter),
                None => String::from_str("None (UnpaidExecution)"),
            };
            assert(instruction_rows(*instr) == seq![
                ("Destination"@, seq![location_text(*destination)]),
                ("Remote Fees"@, seq![fees@]),
                ("Preserve Origin"@, seq![bool_text(*preserve_origin)]),
                ("Assets"@, transfer_filters_lines(assets@)),
                ("Remote XCM"@, nested_lines(remote_xcm@)),
            ]);
            with_params(
                "InitiateTransfer",
                rows5(
                    row("Destination", lines_of_location(destination)),
                    row("Remote Fees", one(fees)),
                    row("Preserve Origin", one(bool_string(*preserve_origin))),
                    row("Assets", format_transfer_filters(assets)),
                    row("Remote XCM", format_nested_xcm(remote_xcm)),
                ),
            )
        },
        Instruction::ExecuteWithOrigin { descendant_origin, xcm } => {
            let origin = match descendant_origin {
                Some(interior) => format_interior(interior),
                None => String::from_str("None"),
            };
            assert(instruction_rows(*instr) == seq![
                ("Descendant Origin"@, seq![origin@]),
                ("Inner XCM"@, nested_lines(xcm@)),
            ]);
            with_params(
                "ExecuteWithOrigin",
                rows2(row("Descendant Origin", one(origin)), row("Inner XCM", format_nested_xcm(xcm))),
            )
        },
        Instruction::SetHints { hints } => {
            with_params("SetHints", rows1(row("Hints", format_hints(hints))))
        },
    }
}

/// How a program is shown: one formatted instruction per instruction, in order.
pub open spec fn program_view(xcm: Seq<Instruction>) -> Seq<(Seq<char>, Seq<Entry>)> {
    Seq::new(xcm.len(), |i: int| instruction_view(xcm[i]))
}

impl XcmParser for Xcm {
    open spec fn parsable(&self) -> bool {
        program_fits(self.0@)
    }

    fn parse_message(&self) -> (v: Vec<XcmInstruction>)
        ensures
            v.deep_view() == program_view(self.0@),
    {
        let mut v: Vec<XcmInstruction> = Vec::new();
        let mut i: usize = 0;
        while i < self.0.len()
            invariant
                i <= self.0.len(),
                program_fits(self.0@),
                v@.len() == i,
                forall|k: int| 0 <= k < i ==> (#[trigger] v@[k])@ == instruction_view(self.0@[k]),
            decreases self.0.len() - i,
        {
            v.push(parse_instruction(&self.0[i]));
            i = i + 1;
        }
        assert(v.deep_view() =~= program_view(self.0@));
        v
    }
}

/// Whether each of a list of transfer filters can be shown.
fn check_transfer_filters(filters: &Vec<AssetTransferFilter>) -> (b: bool)
    ensures
        b == transfer_filters_fit(filters@),
{
    let mut i: usize = 0;
    while i < filters.len()
        invariant
            i <= filters.len(),
            forall|k: int| 0 <= k < i ==> transfer_filter_fits(#[trigger] filters@[k]),
        decreases filters.len() - i,
    {
        if !check_transfer_filter(&filters[i]) {
            return false;
        }
        i = i + 1;
    }
    true
}

/// Whether each of a list of hints can be shown.
fn check_hints(hints: &Vec<Hint>) -> (b: bool)
    ensures
        b == hints_fit(hints@),
{
    let mut i: usize = 0;
    while i < hints.len()
        invariant
            i <= hints.len(),
            forall|k: int| 0 <= k < i ==> hint_fits(#[trigger] hints@[k]),
        decreases hints.len() - i,
    {
        if !check_hint(&hints[i]) {
            return false;
        }
        i = i + 1;
    }
    true
}

/// Whether an instruction can be shown.
pub fn check_instruction(instr: &Instruction) -> (b: bool)
    ensures
        b == instruction_fits(*instr),
{
    match instr {
        Instruction::WithdrawAsset(assets) => check_assets(assets),
        Instruction::ReserveAssetDeposited(assets) => check_assets(assets),
        Instruction::ReceiveTeleportedAsset(assets) => check_assets(assets),
        Instruction::QueryResponse { response, querier, .. } => {
            check_response(response) && check_optional_location(querier)
        },
        Instruction::TransferAsset { assets, beneficiary } => {
            check_assets(assets) && check_location(beneficiary)
        },
        Instruction::TransferReserveAsset { assets, dest, .. } => {
            check_assets(assets) && check_location(dest)
        },
        Instruction::DescendOrigin(interior) => check_interior(interior),
        Instruction::ReportError(info) => check_location(&info.destination),
        Instruction::DepositAsset { assets, beneficiary } => {
            check_asset_filter(assets) && check_location(beneficiary)
        },
        Instruction::DepositReserveAsset { assets, dest, .. } => {
            check_asset_filter(assets) && check_location(dest)
        },
        Instruction::ExchangeAsset { give, want, .. } => {
            check_asset_filter(give) && check_assets(want)
        },
        Instruction::InitiateReserveWithdraw { assets, reserve, .. } => {
            check_asset_filter(assets) && check_location(reserve)
        },
        Instruction::InitiateTeleport { assets, dest, .. } => {
            check_asset_filter(assets) && check_location(dest)
        },
        Instruction::ReportHolding { response_info, assets } => {
            check_location(&response_info.destination) && check_asset_filter(assets)
        },
        Instruction::BuyExecution { fees, .. } => check_location(&fees.id),
        Instruction::ClaimAsset { assets, ticket } => {
            check_assets(assets) && check_location(ticket)
        },
        Instruction::BurnAsset(assets) => check_assets(assets),
        Instruction::ExpectAsset(assets) => check_assets(assets),
        Instruction::ExpectOrigin(origin) => check_optional_location(origin),
        Instruction::QueryPallet { response_info, .. } => {
            check_location(&response_info.destination)
        },
        Instruction::ReportTransactStatus(info) => check_location(&info.destination),
        Instruction::UniversalOrigin(junction) => check_junction(junction),
        Instruction::ExportMessage { destination, .. } => check_interior(destination),
        Instruction::LockAsset { asset, unlocker } => {
            check_location(&asset.id) && check_location(unlocker)
        },
        Instruction::UnlockAsset { asset, target } => {
            check_location(&asset.id) && check_location(target)
        },
        Instruction::NoteUnlockable { asset, owner } => {
            check_location(&asset.id) && check_location(owner)
        },
        Instruction::RequestUnlock { asset, locker } => {
            check_location(&asset.id) && check_location(locker)
        },
        Instruction::AliasOrigin(location) => check_location(location),
        Instruction::UnpaidExecution { check_origin, .. } => {
            check_optional_location(check_origin)
        },
        Instruction::PayFees { asset } => check_location(&asset.id),
        Instruction::InitiateTransfer { destination, remote_fees, assets, .. } => {
            let fees_fit = match remote_fees {
                Some(fees) => check_transfer_filter(fees),
                None => true,
            };
            check_location(destination) && fees_fit && check_transfer_filters(assets)
        },
        Instruction::ExecuteWithOrigin { descendant_origin, .. } => match descendant_origin {
            Some(origin) => check_interior(origin),
            None => true,
        },
        Instruction::SetHints { hints } => check_hints(hints),
        _ => true,
    }
}

/// Whether a program can be shown.
pub fn check_program(xcm: &Xcm) -> (b: bool)
    ensures
        b == program_fits(xcm.0@),
{
    let mut i: usize = 0;
    while i < xcm.0.len()
        invariant
            i <= xcm.0.len(),
            forall|k: int| 0 <= k < i ==> instruction_fits(#[trigger] xcm.0@[k]),
        decreases xcm.0.len() - i,
    {
        if !check_instruction(&xcm.0[i]) {
            return false;
        }
        i = i + 1;
    }
    true
}

} // verus!
