use pallet_contracts_xcm::chain_ext::XCMExtension;
use pallet_contracts_xcm::codec::{
    decode_message, location_from_wire, message_from_wire, optional_response_from_wire, WireFault,
};
use pallet_contracts_xcm::contract_utils::{code_from_hex, selector_from_parsed, MetadataError};
use pallet_contracts_xcm::error::Error;
use pallet_contracts_xcm::weight::Weight;
use parity_scale_codec::Encode;
use staging_xcm::v3;
use staging_xcm::VersionedXcm;

#[test]
fn codec_outcome_for_a_message() {
    let message = message_from_wire(Ok(vec![4, 10])).unwrap();
    assert_eq!(message.as_bytes(), &[4, 10]);
    assert_eq!(message_from_wire(Err(WireFault::Malformed)).unwrap_err(), Error::DecodingFailed);
    assert_eq!(
        message_from_wire(Err(WireFault::Inconvertible)).unwrap_err(),
        Error::XcmVersionNotSupported
    );
}

#[test]
fn codec_outcome_for_a_location() {
    let location = location_from_wire(Ok(vec![1, 0])).unwrap();
    assert_eq!(location.as_bytes(), &[1, 0]);
    assert_eq!(location_from_wire(Err(WireFault::Malformed)).unwrap_err(), Error::DecodingFailed);
    assert_eq!(
        location_from_wire(Err(WireFault::Inconvertible)).unwrap_err(),
        Error::XcmVersionNotSupported
    );
}

#[test]
fn codec_outcome_for_an_optional_response() {
    assert_eq!(optional_response_from_wire(None), Ok(vec![0]));
    assert_eq!(optional_response_from_wire(Some(None)), Err(Error::DecodingFailed));
    assert_eq!(optional_response_from_wire(Some(Some(vec![3, 0]))), Ok(vec![1, 3, 0]));
    assert_eq!(optional_response_from_wire(Some(Some(vec![]))), Ok(vec![1]));
}

#[test]
fn hex_outcome_for_code() {
    assert_eq!(code_from_hex(Ok(vec![1, 2, 3])), Ok(vec![1, 2, 3]));
    let refused = impl_serde::serialize::from_hex("0xzz").unwrap_err();
    assert_eq!(code_from_hex(Err(refused)), Err(MetadataError::InvalidHex));
}

#[test]
fn parse_outcome_for_a_selector() {
    assert_eq!(selector_from_parsed(Ok(0x0102_0304)), Ok([1, 2, 3, 4]));
    assert_eq!(selector_from_parsed(Ok(0)), Ok([0, 0, 0, 0]));
    assert_eq!(selector_from_parsed(Ok(u32::MAX)), Ok([0xff, 0xff, 0xff, 0xff]));
    assert_eq!(selector_from_parsed(Ok(0xff00)), Ok([0, 0, 0xff, 0]));
    let refused = u32::from_str_radix("nope", 16).unwrap_err();
    assert_eq!(selector_from_parsed(Err(refused)), Err(MetadataError::InvalidSelector));
}

#[test]
fn quotes_follow_the_estimates() {
    // A message and the same message with one more instruction, priced by a
    // weigher that asks a fixed amount for each instruction.
    let short = v3::Xcm::<()>(vec![v3::Instruction::ClearOrigin]);
    let long = v3::Xcm::<()>(vec![v3::Instruction::ClearOrigin, v3::Instruction::Trap(1)]);
    let price = |xcm: &v3::Xcm<()>| Weight::from_parts(100 * xcm.len() as u64, 10 * xcm.len() as u64);

    let mut session = XCMExtension::new();
    let decoded = decode_message(&VersionedXcm::V3(short.clone()).encode()).unwrap();
    let first = session.prepare_execute(decoded, Some(price(&short))).unwrap();
    assert_eq!(session.prepared_execute().unwrap().weight, Weight::from_parts(100, 10));
    let decoded = decode_message(&VersionedXcm::V3(long.clone()).encode()).unwrap();
    let second = session.prepare_execute(decoded, Some(price(&long))).unwrap();
    assert_eq!(session.prepared_execute().unwrap().weight, Weight::from_parts(200, 20));

    assert_eq!(first, sp_weights::Weight::from_parts(100, 10).encode());
    assert_eq!(second, sp_weights::Weight::from_parts(200, 20).encode());
    assert!(Weight::from_parts(100, 10).all_lte(Weight::from_parts(200, 20)));
}
