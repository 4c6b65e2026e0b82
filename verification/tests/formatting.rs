use xcm::decode::{decode_hex_message, strip_hex_prefix, summarize, summarize_bare_v5, VersionedXcm};
use xcm::params::{lex_less, Params};
use xcm::report::{render_decode_report, render_message};
use xcm::text::{decimal_string, format_amount, join_strings};
use xcm::types::{copy_instruction, with_params, CError, XcmInstruction, XcmMessage, XcmParser};
use xcm::util::{
    format_bytes_as_utf8_or_hex, instruction_name_from_debug, raw_instruction, short_hex,
    summarize_hex,
};
use xcm::v3;
use xcm::v4;
use xcm::v5::format::{
    format_asset, format_interior, format_junction, format_location, format_network,
    format_response, format_weight_limit, format_wild_asset,
};
use xcm::v5::instruction::{format_nested_xcm, parse_instruction};
use xcm::v5::model::{
    Asset, AssetFilter, Fungibility, Instruction, Junction, Location, MaybeErrorCode, NetworkId,
    OriginKind, Response, Weight, WeightLimit, WildAsset, WildFungibility, Xcm,
};

fn key_buffer(key: &[u8]) -> [u8; 32] {
    let mut data = [0u8; 32];
    data[..key.len()].copy_from_slice(key);
    data
}

fn rows(instr: &XcmInstruction) -> Vec<(String, Vec<String>)> {
    instr.params.entries().clone()
}

fn lines(v: &[&str]) -> Vec<String> {
    v.iter().map(|s| s.to_string()).collect()
}

fn here() -> Location {
    Location { parents: 0, interior: vec![] }
}

fn dot() -> Asset {
    Asset { id: Location { parents: 1, interior: vec![] }, fun: Fungibility::Fungible(1_000_000) }
}

#[test]
fn amount_is_grouped_by_thousands() {
    assert_eq!(format_amount(1_000_000), "1,000,000");
    assert_eq!(format_amount(0), "0");
    assert_eq!(format_amount(999), "999");
    assert_eq!(format_amount(1_234), "1,234");
    assert_eq!(format_amount(12_345_678), "12,345,678");
    assert_eq!(
        format_amount(u128::MAX),
        "340,282,366,920,938,463,463,374,607,431,768,211,455"
    );
}

#[test]
fn amount_without_commas_is_the_decimal() {
    for n in [0u128, 7, 10, 100, 1_000, 65_535, 1_000_001, u64::MAX as u128] {
        assert_eq!(format_amount(n).replace(',', ""), n.to_string());
        assert_eq!(decimal_string(n), n.to_string());
    }
}

#[test]
fn short_hex_previews_six_digits() {
    assert_eq!(short_hex(&[0xde, 0xad, 0xbe, 0xef]), "0xdeadbe...");
    assert_eq!(short_hex(&[1, 2, 3]), "0x010203");
    assert_eq!(short_hex(&[]), "0x");
    assert_eq!(short_hex(&[0xab; 32]), "0xababab...");
}

#[test]
fn summarize_hex_keeps_total_length() {
    assert_eq!(summarize_hex(&[0xff, 0x01], 34), "0xff01");
    let long = [0x11u8; 20];
    assert_eq!(
        summarize_hex(&long, 34),
        "0x11111111111111111111111111111111.. (20 bytes total)"
    );
    assert_eq!(summarize_hex(&[0xab, 0xcd], 4), "0xab.. (2 bytes total)");
    assert_eq!(summarize_hex(&[0xab], 4), "0xab");
}

#[test]
fn bytes_as_text_or_hex() {
    assert_eq!(format_bytes_as_utf8_or_hex(b"Balances"), "Balances");
    assert_eq!(format_bytes_as_utf8_or_hex("héllo".as_bytes()), "héllo");
    assert_eq!(format_bytes_as_utf8_or_hex(&[0xff, 0xfe]), "0xfffe");
    assert_eq!(format_bytes_as_utf8_or_hex(b""), "0x");
    assert_eq!(format_bytes_as_utf8_or_hex(b"a\nb"), "0x610a62");
    assert_eq!(format_bytes_as_utf8_or_hex("a\u{85}".as_bytes()), "0x61c285");
}

#[test]
fn name_from_debug_stops_at_parenthesis() {
    assert_eq!(instruction_name_from_debug("Foo(1, 2)"), "Foo");
    assert_eq!(instruction_name_from_debug("ClearOrigin"), "ClearOrigin");
    assert_eq!(instruction_name_from_debug("(x)"), "");
    assert_eq!(instruction_name_from_debug("BuyExecution { fees: (1) }"), "BuyExecution { fees: ");
}

#[test]
fn raw_instruction_keeps_pretty_dump() {
    let r = raw_instruction("Trap(5)", "Trap(\n    5,\n)");
    assert_eq!(r.name, "Trap");
    assert_eq!(rows(&r), vec![("Raw".to_string(), lines(&["Trap(\n    5,\n)"]))]);
}

#[test]
fn note_instruction_has_single_row() {
    let r = XcmInstruction::note("ClearError", "Clears the error register.");
    assert_eq!(r.name, "ClearError");
    assert_eq!(rows(&r), vec![("Note".to_string(), lines(&["Clears the error register."]))]);
}

#[test]
fn params_are_sorted_and_replaced() {
    let mut p = Params::new();
    p.insert("b".to_string(), lines(&["2"]));
    p.insert("a".to_string(), lines(&["1"]));
    p.insert("ab".to_string(), lines(&["3"]));
    p.insert("b".to_string(), lines(&["4"]));
    let keys: Vec<&str> = p.entries().iter().map(|e| e.0.as_str()).collect();
    assert_eq!(keys, vec!["a", "ab", "b"]);
    assert_eq!(p.len(), 3);
    assert_eq!(p.get("b"), Some(&lines(&["4"])));
    assert_eq!(p.get("c"), None);
    assert!(lex_less("Assets", "Beneficiary"));
    assert!(lex_less("Max", "Max Weight"));
    assert!(!lex_less("Query", "Query"));
}

#[test]
fn with_params_orders_by_label() {
    let r = with_params(
        "Example",
        vec![("Zeta".to_string(), lines(&["z"])), ("Alpha".to_string(), lines(&["a"]))],
    );
    assert_eq!(r.name, "Example");
    assert_eq!(
        rows(&r),
        vec![("Alpha".to_string(), lines(&["a"])), ("Zeta".to_string(), lines(&["z"]))]
    );
    let copy = copy_instruction(&r);
    assert_eq!(copy.name, r.name);
    assert_eq!(rows(&copy), rows(&r));
}

#[test]
fn message_getters() {
    let m = XcmMessage::new(4, 2, 17, vec![XcmInstruction::note("A", "b")]);
    assert_eq!(m.version(), 4);
    assert_eq!(m.size(), 2);
    assert_eq!(m.bytes(), 17);
    assert_eq!(m.instructions().len(), 1);
    assert_eq!(m.instructions()[0].name, "A");
    let e = CError::new("boom".to_string(), "why");
    assert_eq!(e.error, "boom");
    assert_eq!(e.message, "why");
}

#[test]
fn join_strings_uses_separator() {
    assert_eq!(join_strings(&lines(&["a", "b", "c"]), "/"), "a/b/c");
    assert_eq!(join_strings(&lines(&["a"]), "/"), "a");
    assert_eq!(join_strings(&lines(&[]), "/"), "");
}

#[test]
fn hex_message_decoding() {
    assert_eq!(decode_hex_message("0102ff").ok(), Some(vec![1, 2, 255]));
    assert_eq!(decode_hex_message("ABcd").ok(), Some(vec![0xab, 0xcd]));
    assert_eq!(decode_hex_message("").ok(), Some(vec![]));
    let odd = decode_hex_message("123").err().unwrap();
    assert_eq!(odd.error, "Odd number of digits");
    assert_eq!(odd.message, "Invalid character suspected!");
    let bad = decode_hex_message("zz").err().unwrap();
    assert_eq!(bad.error, "Invalid character 'z' at position 0");
    assert_eq!(bad.message, "Invalid character suspected!");
}

#[test]
fn hex_prefix_is_stripped() {
    assert_eq!(strip_hex_prefix("0x0102"), "0102");
    assert_eq!(strip_hex_prefix("0102"), "0102");
    assert_eq!(strip_hex_prefix("0X01"), "0X01");
    assert_eq!(strip_hex_prefix("0x"), "");
}

#[test]
fn junctions_and_locations() {
    assert_eq!(format_junction(&Junction::Parachain(1000)), "Parachain(1000)");
    assert_eq!(
        format_junction(&Junction::AccountId32 { network: None, id: [1u8; 32] }),
        "AccountId32(Any, 0x010101...)"
    );
    assert_eq!(
        format_junction(&Junction::AccountKey20 {
            network: Some(NetworkId::Ethereum { chain_id: 1 }),
            key: [0xaa; 20]
        }),
        "AccountKey20(Ethereum(1), 0xaaaaaa...)"
    );
    assert_eq!(
        format_junction(&Junction::AccountIndex64 { network: Some(NetworkId::Kusama), index: 9 }),
        "AccountIndex64(Kusama, 9)"
    );
    assert_eq!(
        format_junction(&Junction::GeneralKey { length: 2, data: key_buffer(&[0xbe, 0xef]) }),
        "GeneralKey(len=2, data=0xbeef)"
    );
    assert_eq!(
        format_junction(&Junction::GlobalConsensus(NetworkId::Polkadot)),
        "GlobalConsensus(Polkadot)"
    );
    assert_eq!(
        format_junction(&Junction::Plurality { id: "Unit".to_string(), part: "Voice".to_string() }),
        "Plurality(Unit, Voice)"
    );
    assert_eq!(format_interior(&vec![]), "Here");
    let loc = Location {
        parents: 1,
        interior: vec![Junction::Parachain(2000), Junction::PalletInstance(50), Junction::GeneralIndex(1984)],
    };
    assert_eq!(format_location(&loc), "parents: 1, Parachain(2000)/PalletInstance(50)/GeneralIndex(1984)");
    assert_eq!(format_location(&here()), "Here");
    assert_eq!(format_network(&Some(NetworkId::Rendered("ByGenesis([0])".to_string()))), "ByGenesis([0])");
}

#[test]
fn assets_and_filters() {
    assert_eq!(format_asset(&dot()), "Location: parents: 1, Here, Asset: Native, Amount: 1,000,000");
    let nft = Asset { id: here(), fun: Fungibility::NonFungible };
    assert_eq!(format_asset(&nft), "Location: Here, Asset: NFT, Amount: 0");
    assert_eq!(
        format_wild_asset(&WildAsset::AllOfCounted { id: here(), fun: WildFungibility::Fungible, count: 2 }),
        "AllOfCounted(id=Here, fun=Fungible, count=2)"
    );
    assert_eq!(format_wild_asset(&WildAsset::AllCounted(3)), "AllCounted(3)");
    assert_eq!(
        format_weight_limit(&WeightLimit::Limited(Weight { ref_time: 1, proof_size: 2 })),
        "Limited(ref_time=1, proof_size=2)"
    );
    assert_eq!(
        format_response(&Response::ExecutionResult(Some((3, "Overflow".to_string())))),
        "ExecutionResult(instruction=3, error=Overflow)"
    );
    assert_eq!(format_response(&Response::PalletsInfo(2)), "PalletsInfo(2 entries)");
    assert_eq!(
        format_response(&Response::DispatchResult(MaybeErrorCode::Error(vec![1, 2]))),
        "DispatchResult(Error(0x0102))"
    );
    assert_eq!(format_response(&Response::Assets(vec![dot(), nft])), "Assets([Location: parents: 1, Here, Asset: Native, Amount: 1,000,000; Location: Here, Asset: NFT, Amount: 0])");
}

#[test]
fn v5_instructions() {
    let w = parse_instruction(&Instruction::WithdrawAsset(vec![dot()]));
    assert_eq!(w.name, "WithdrawAsset");
    assert_eq!(
        rows(&w),
        vec![(
            "Assets".to_string(),
            lines(&["Location: parents: 1, Here, Asset: Native, Amount: 1,000,000"])
        )]
    );

    let b = parse_instruction(&Instruction::BuyExecution { fees: dot(), weight_limit: WeightLimit::Unlimited });
    assert_eq!(
        rows(&b),
        vec![
            ("Fees".to_string(), lines(&["Location: parents: 1, Here", "Asset: Native", "Amount: 1,000,000"])),
            ("Weight Limit".to_string(), lines(&["Unlimited"])),
        ]
    );

    let d = parse_instruction(&Instruction::DepositAsset {
        assets: AssetFilter::Wild(WildAsset::AllCounted(1)),
        beneficiary: Location { parents: 0, interior: vec![Junction::AccountId32 { network: None, id: [1u8; 32] }] },
    });
    assert_eq!(
        rows(&d),
        vec![
            ("Assets".to_string(), lines(&["Wild(AllCounted(1))"])),
            ("Beneficiary".to_string(), lines(&["AccountId32(Any, 0x010101...)"])),
        ]
    );

    let t = parse_instruction(&Instruction::Transact {
        origin_kind: OriginKind::Xcm,
        fallback_max_weight: None,
        call: vec![0x00, 0x01],
    });
    assert_eq!(
        rows(&t),
        vec![
            ("Call Payload".to_string(), lines(&["0x0001"])),
            ("Maximum Fallback Weight".to_string(), lines(&["None"])),
            ("Origin Kind".to_string(), lines(&["XCM"])),
        ]
    );

    let c = parse_instruction(&Instruction::ClearOrigin);
    assert_eq!(
        rows(&c),
        vec![(
            "Note".to_string(),
            lines(&["Clears the origin register so later instructions cannot use origin authority."])
        )]
    );

    let topic = parse_instruction(&Instruction::SetTopic([0xab; 32]));
    assert_eq!(rows(&topic), vec![("Topic".to_string(), lines(&[&format!("0x{}", "ab".repeat(32))]))]);

    let nested = parse_instruction(&Instruction::SetAppendix(vec![
        Instruction::RefundSurplus,
        Instruction::Trap(1),
    ]));
    assert_eq!(rows(&nested), vec![("Appendix XCM".to_string(), lines(&["[0] RefundSurplus", "[1] Trap"]))]);

    let pallet = parse_instruction(&Instruction::ExpectPallet {
        index: 10,
        name: b"Balances".to_vec(),
        module_name: vec![0xff],
        crate_major: 1,
        min_crate_minor: 0,
    });
    assert_eq!(
        rows(&pallet),
        vec![
            ("Crate Major".to_string(), lines(&["1"])),
            ("Index".to_string(), lines(&["10"])),
            ("Min Crate Minor".to_string(), lines(&["0"])),
            ("Module Name".to_string(), lines(&["0xff"])),
            ("Name".to_string(), lines(&["Balances"])),
        ]
    );
    assert_eq!(format_nested_xcm(&vec![Instruction::ClearTopic]), lines(&["[0] ClearTopic"]));
}

#[test]
fn v5_program_parses_every_instruction() {
    let program = Xcm(vec![
        Instruction::WithdrawAsset(vec![dot()]),
        Instruction::ClearError,
        Instruction::SetFeesMode { jit_withdraw: true },
    ]);
    let parsed = program.parse_message();
    let names: Vec<&str> = parsed.iter().map(|i| i.name.as_str()).collect();
    assert_eq!(names, vec!["WithdrawAsset", "ClearError", "SetFeesMode"]);
    assert_eq!(rows(&parsed[2]), vec![("JIT Withdraw".to_string(), lines(&["true"]))]);
}

#[test]
fn v3_and_v4_programs() {
    let asset3 = v3::MultiAsset {
        id: v3::AssetId::Concrete(v3::MultiLocation { parents: 1, interior: v3::Junctions::X1(v3::Junction::Parachain(1000)) }),
        fun: v3::Fungibility::Fungible(5_000),
    };
    let p3 = v3::Xcm(vec![
        v3::Instruction::WithdrawAsset(vec![asset3]),
        v3::Instruction::Other { debug: "ClearOrigin".to_string(), pretty: "ClearOrigin".to_string() },
    ]);
    let parsed3 = p3.parse_message();
    assert_eq!(parsed3[0].name, "WithdrawAsset");
    assert_eq!(
        rows(&parsed3[0]),
        vec![("Assets".to_string(), lines(&["Location: parents: 1, Parachain(1000), Asset: Native, Amount: 5,000"]))]
    );
    assert_eq!(parsed3[1].name, "ClearOrigin");
    assert_eq!(rows(&parsed3[1]), vec![("Raw".to_string(), lines(&["ClearOrigin"]))]);
    assert_eq!(
        v3::format_multi_location(&v3::AssetId::Abstract([0x01; 32])),
        format!("Abstract(0x{})", "01".repeat(32))
    );

    let asset4 = v4::Asset {
        id: v4::Location {
            parents: 0,
            interior: vec![v4::Junction::Parachain(1), v4::Junction::AccountId32 { id: [0xcd; 32] }],
        },
        fun: v4::Fungibility::NonFungible,
    };
    let p4 = v4::Xcm(vec![v4::Instruction::WithdrawAsset(vec![asset4])]);
    let parsed4 = p4.parse_message();
    assert_eq!(
        rows(&parsed4[0]),
        vec![("Assets".to_string(), lines(&["Location: Parachain(1)/AccountId32: 0xcdcdcd..., Asset: NFT, Amount: 0"]))]
    );
}

#[test]
fn summaries_count_instructions() {
    let m = summarize(&VersionedXcm::V5(Xcm(vec![Instruction::ClearOrigin, Instruction::ClearTopic])), 4);
    assert_eq!(m.version(), 5);
    assert_eq!(m.size(), 2);
    assert_eq!(m.bytes(), 4);
    assert_eq!(m.instructions().len(), 2);
    let bare = summarize_bare_v5(Ok((Xcm(vec![Instruction::ClearError]), 3))).ok().unwrap();
    assert_eq!(bare.version(), 5);
    assert_eq!(bare.size(), 1);
    let failed = summarize_bare_v5(Err("Not enough data".to_string())).err().unwrap();
    assert_eq!(failed.error, "Not enough data");
    assert_eq!(failed.message, "XCM message could not be interpreted.");
}

#[test]
fn generated_message_report() {
    let out = render_message("demo", "V3", &["WithdrawAsset", "ClearOrigin"], &[0x03, 0xab]);
    let banner = "=".repeat(60);
    let expected: Vec<String> = vec![
        "", &banner, "demo", &banner, "Version:      V3", "Instructions: 2", "Encoded size: 2 bytes", "",
        "Instructions:", "  [0] WithdrawAsset", "  [1] ClearOrigin", "", "SCALE:", "  0x03ab", "", "Bytes:",
        "  [000] 0x03", "  [001] 0xab", "",
    ]
    .into_iter()
    .map(|s| s.to_string())
    .collect();
    assert_eq!(out, expected);
}

#[test]
fn decoded_message_report() {
    let m = summarize(
        &VersionedXcm::V3(v3::Xcm(vec![v3::Instruction::Other {
            debug: "Trap(1)".to_string(),
            pretty: "Trap(\n    1,  \n)\n".to_string(),
        }])),
        3,
    );
    let out = render_decode_report(&m);
    let expected: Vec<String> = vec![
        "", " Decoding XCM Message", "------------------------- ", "", "Version:", "  V3 ", "",
        "Instructions:", "  1", "", "Encoded Size:", "  3 bytes", "", "", "[0] Trap", "      Raw:",
        "         - Trap(", "         -     1,", "         - )",
    ]
    .into_iter()
    .map(|s| s.to_string())
    .collect();
    assert_eq!(out, expected);
}

#[test]
fn decode_command_strips_prefix() {
    let cmd = xcm::commands::XcmCommands::Decode { message: "0xdeadbeef".to_string() };
    assert_eq!(cmd.hex_input(), "deadbeef");
    let plain = xcm::commands::XcmCommands::Decode { message: "beef".to_string() };
    assert_eq!(plain.hex_input(), "beef");
}

#[test]
fn later_row_with_same_label_wins() {
    let r = with_params(
        "Repeat",
        vec![
            ("Key".to_string(), lines(&["first"])),
            ("Other".to_string(), lines(&["x"])),
            ("Key".to_string(), lines(&["second"])),
        ],
    );
    assert_eq!(
        rows(&r),
        vec![("Key".to_string(), lines(&["second"])), ("Other".to_string(), lines(&["x"]))]
    );
}

#[test]
fn amounts_are_grouped_by_thousands() {
    for amount in [0u128, 7, 999, 1_000, 65_536, 1_234_567, u128::MAX] {
        let text = format_amount(amount);
        let groups: Vec<&str> = text.split(',').collect();
        assert!((1..=3).contains(&groups[0].len()), "{text}");
        assert!(groups[1..].iter().all(|g| g.len() == 3), "{text}");
        assert_eq!(text.replace(',', ""), amount.to_string());
    }
    assert_eq!(format_amount(1_234_567), "1,234,567");
}
