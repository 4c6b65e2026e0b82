use parity_scale_codec::Encode;
use staging_xcm::v3::{
    Instruction as Instruction3, Junction as Junction3, Junctions as Junctions3, MultiAsset,
    MultiAssets, MultiLocation, WeightLimit as WeightLimit3, WildMultiAsset, Xcm as Xcm3,
};
use staging_xcm::v5::{
    Instruction as Instruction5, Junction as Junction5, Location as Location5, Xcm as Xcm5,
};
use staging_xcm::VersionedXcm;
use xcm::decode::{decode_xcm_message, try_decode_xcm_message};

fn basic_transfer_v3() -> Vec<u8> {
    let asset = MultiAsset::from((MultiLocation::here(), 1_000_000u128));
    let beneficiary = MultiLocation::new(
        0,
        Junctions3::X1(Junction3::AccountId32 { network: None, id: [1u8; 32] }),
    );
    let message = Xcm3(vec![
        Instruction3::WithdrawAsset::<()>(MultiAssets::from(asset.clone())),
        Instruction3::BuyExecution { fees: asset, weight_limit: WeightLimit3::Unlimited },
        Instruction3::DepositAsset { assets: WildMultiAsset::All.into(), beneficiary },
    ]);
    VersionedXcm::V3(message).encode()
}

fn decoded(message: String) -> xcm::XcmMessage {
    match decode_xcm_message(message) {
        Ok(m) => m,
        Err(e) => panic!("refused: {} ({})", e.error, e.message),
    }
}

fn refused(message: String) -> xcm::CError {
    match decode_xcm_message(message) {
        Ok(m) => panic!("decoded {} instructions", m.size()),
        Err(e) => e,
    }
}

fn names(message: &xcm::XcmMessage) -> Vec<String> {
    message.instructions().iter().map(|i| i.name.clone()).collect()
}

#[test]
fn decodes_a_versioned_v3_message() {
    let encoded = basic_transfer_v3();
    let decoded = decoded(hex::encode(&encoded));
    assert_eq!(decoded.version(), 3);
    assert_eq!(decoded.size(), 3);
    assert_eq!(decoded.bytes(), encoded.len());
    // other v3 instructions are named by their debug dump up to its first parenthesis
    assert_eq!(
        names(&decoded),
        vec![
            "WithdrawAsset",
            "BuyExecution { fees: MultiAsset { id: Concrete",
            "DepositAsset { assets: Wild",
        ]
    );
    let withdraw = &decoded.instructions()[0];
    assert_eq!(
        withdraw.params.get("Assets"),
        Some(&vec!["Location: Here, Asset: Native, Amount: 1,000,000".to_string()])
    );
}

#[test]
fn hex_digits_of_either_case_decode_alike() {
    let encoded = basic_transfer_v3();
    let lower = decoded(hex::encode(&encoded));
    let upper = decoded(hex::encode_upper(&encoded));
    assert_eq!(lower.bytes(), upper.bytes());
    assert_eq!(names(&lower), names(&upper));
}

#[test]
fn decodes_a_versioned_v5_message() {
    let program = Xcm5::<()>(vec![
        Instruction5::ClearOrigin,
        Instruction5::DescendOrigin(Junction5::Parachain(1000).into()),
    ]);
    let encoded = VersionedXcm::V5(program).encode();
    let decoded = decoded(hex::encode(&encoded));
    assert_eq!(decoded.version(), 5);
    assert_eq!(decoded.size(), 2);
    assert_eq!(decoded.bytes(), encoded.len());
    assert_eq!(names(&decoded), vec!["ClearOrigin", "DescendOrigin"]);
    let descend = &decoded.instructions()[1];
    assert_eq!(descend.params.get("Interior"), Some(&vec!["Parachain(1000)".to_string()]));
}

#[test]
fn falls_back_to_a_bare_v5_program() {
    let program = Xcm5::<()>(vec![Instruction5::ClearOrigin, Instruction5::ClearError]);
    let bare = program.encode();
    let decoded = decoded(hex::encode(&bare));
    assert_eq!(decoded.version(), 5);
    assert_eq!(decoded.size(), 2);
    // the length counted is that of the program encoded as a versioned one
    assert_eq!(decoded.bytes(), bare.len() + 1);
    assert_eq!(names(&decoded), vec!["ClearOrigin", "ClearError"]);
}

#[test]
fn an_empty_bare_program_has_no_instructions() {
    let decoded = decoded("00".to_string());
    assert_eq!(decoded.version(), 5);
    assert_eq!(decoded.size(), 0);
    assert_eq!(decoded.bytes(), 2);
    assert!(decoded.instructions().is_empty());
}

#[test]
fn refuses_text_that_is_not_hex() {
    let err = refused("zz".to_string());
    assert_eq!(err.message, "Invalid character suspected!");
    assert_eq!(err.error, "Invalid character 'z' at position 0");
}

#[test]
fn refuses_an_odd_number_of_digits() {
    let err = refused("abc".to_string());
    assert_eq!(err.message, "Invalid character suspected!");
    assert_eq!(err.error, "Odd number of digits");
}

#[test]
fn refuses_bytes_that_are_no_program() {
    let err = refused("ff".to_string());
    assert_eq!(err.message, "XCM message could not be interpreted.");
    assert_eq!(err.error, "out of range decoding Compact<u32>");
}

#[test]
fn locations_keep_their_parents() {
    let program = Xcm5::<()>(vec![Instruction5::AliasOrigin(Location5::new(
        1,
        [Junction5::Parachain(2000)],
    ))]);
    let encoded = VersionedXcm::V5(program).encode();
    let decoded = decoded(hex::encode(&encoded));
    assert_eq!(names(&decoded), vec!["AliasOrigin"]);
    let alias = &decoded.instructions()[0];
    assert_eq!(alias.params.get("Origin"), Some(&vec!["parents: 1, Parachain(2000)".to_string()]));
}

fn general_key_program(length: u8) -> String {
    let mut data = [0u8; 32];
    data[0] = 0xbe;
    data[1] = 0xef;
    data[2] = 0x01;
    let origin = Location5::new(0, [Junction5::GeneralKey { length, data }]);
    let program = Xcm5::<()>(vec![Instruction5::AliasOrigin(origin)]);
    hex::encode(VersionedXcm::V5(program).encode())
}

#[test]
fn a_general_key_shows_its_declared_length() {
    let short = decoded(general_key_program(2));
    let alias = &short.instructions()[0];
    assert_eq!(alias.params.get("Origin"), Some(&vec!["GeneralKey(len=2, data=0xbeef)".to_string()]));
    let whole = decoded(general_key_program(32));
    assert_eq!(
        whole.instructions()[0].params.get("Origin"),
        Some(&vec!["GeneralKey(len=32, data=0xbeef01...)".to_string()])
    );
}

#[test]
fn a_general_key_longer_than_its_buffer_is_not_shown() {
    assert!(try_decode_xcm_message(general_key_program(33)).is_none());
    let shown = try_decode_xcm_message(general_key_program(3)).unwrap();
    assert!(shown.is_ok());
    // text that is not hex is refused before any program is read
    let refused = try_decode_xcm_message("0x".to_string()).unwrap();
    assert!(refused.is_err());
}

#[test]
fn the_encoded_length_is_bounded_by_the_text() {
    for text in [hex::encode(basic_transfer_v3()), "00".to_string(), format!("{}ff", hex::encode(basic_transfer_v3()))] {
        let m = decoded(text.clone());
        assert!(2 <= m.bytes() && m.bytes() <= text.len() / 2 + 1, "{text}");
        assert!((3..=5).contains(&m.version()));
        assert_eq!(m.size(), m.instructions().len());
    }
    // bytes after the program are not read
    let trailing = decoded(format!("{}ff", hex::encode(basic_transfer_v3())));
    assert_eq!(trailing.bytes(), basic_transfer_v3().len());
}
