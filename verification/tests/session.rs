use pallet_contracts_xcm::chain_ext::{Lane, Step, XCMExtension};
use pallet_contracts_xcm::codec::{decode_message, encode_weight};
use pallet_contracts_xcm::error::{status_of, Error};
use pallet_contracts_xcm::host::Outcome;
use pallet_contracts_xcm::meter::GasMeter;
use pallet_contracts_xcm::weight::Weight;
use parity_scale_codec::Encode;
use staging_xcm::v3;
use staging_xcm::{VersionedMultiLocation, VersionedXcm};

const PREPARE_EXECUTE: u16 = 0;
const EXECUTE: u16 = 1;
const VALIDATE_SEND: u16 = 2;
const SEND: u16 = 3;
const NEW_QUERY: u16 = 4;
const TAKE_RESPONSE: u16 = 5;

const CALLER: [u8; 32] = [42u8; 32];

fn budget() -> GasMeter {
    GasMeter::new(Weight::from_parts(1_000, 500))
}

fn message(trap: u64) -> v3::Xcm<()> {
    v3::Xcm(vec![v3::Instruction::ClearOrigin, v3::Instruction::Trap(trap)])
}

fn wire_message(trap: u64) -> Vec<u8> {
    VersionedXcm::<()>::V3(message(trap)).encode()
}

fn destination() -> v3::MultiLocation {
    v3::MultiLocation::new(1, v3::Junctions::X1(v3::Junction::Parachain(2000)))
}

fn wire_send(trap: u64) -> Vec<u8> {
    let mut wire = VersionedMultiLocation::V3(destination()).encode();
    wire.extend(wire_message(trap));
    wire
}

/// Runs the staging command for `trap` as the host would, pricing it at `weight`.
fn prepare(
    session: &mut XCMExtension,
    meter: &mut GasMeter,
    trap: u64,
    weight: Option<Weight>,
) -> Result<Vec<u8>, Error> {
    match session.call(meter, &CALLER, PREPARE_EXECUTE, &wire_message(trap))? {
        Step::Weigh(decoded) => session.prepare_execute(decoded, weight),
        other => panic!("unexpected step {:?}", other),
    }
}

#[test]
fn lane_is_a_two_state_machine() {
    let mut lane: Lane<u32> = Lane::Empty;
    assert!(!lane.is_staged());
    assert_eq!(lane.peek(), None);
    assert_eq!(lane.take(), Err(Error::PreparationMissing));
    assert!(!lane.is_staged());
    lane.stage(1);
    assert!(lane.is_staged());
    lane.stage(2);
    assert_eq!(lane.peek(), Some(&2));
    assert_eq!(lane.take(), Ok(2));
    assert!(!lane.is_staged());
    assert_eq!(lane.take(), Err(Error::PreparationMissing));
}

#[test]
fn fresh_session_has_nothing_staged() {
    let session = XCMExtension::new();
    assert!(session.prepared_execute().is_none());
    assert!(session.validated_send().is_none());
    let session = XCMExtension::default();
    assert!(session.prepared_execute().is_none());
    assert!(session.validated_send().is_none());
}

#[test]
fn execute_in_fresh_session_is_preparation_missing() {
    let mut session = XCMExtension::new();
    let mut meter = budget();
    let step = session.call(&mut meter, &CALLER, EXECUTE, &[]);
    assert!(matches!(step, Err(Error::PreparationMissing)));
    assert_eq!(status_of(&step), 4);
    assert_eq!(meter.gas_left(), Weight::from_parts(1_000, 500));
    assert!(session.prepared_execute().is_none());
}

#[test]
fn send_in_fresh_session_is_preparation_missing() {
    let mut session = XCMExtension::new();
    let mut meter = budget();
    let step = session.call(&mut meter, &CALLER, SEND, &[]);
    assert!(matches!(step, Err(Error::PreparationMissing)));
    assert!(session.validated_send().is_none());
}

#[test]
fn prepare_quotes_the_estimate_and_stages() {
    let mut session = XCMExtension::new();
    let mut meter = budget();
    let quote = Weight::from_parts(300, 40);
    let output = prepare(&mut session, &mut meter, 1, Some(quote)).unwrap();
    assert_eq!(output, encode_weight(quote));
    assert_eq!(output, sp_weights::Weight::from_parts(300, 40).encode());
    let staged = session.prepared_execute().unwrap();
    assert_eq!(staged.weight, quote);
    assert_eq!(staged.message.as_bytes(), message(1).encode().as_slice());
    // Staging charges nothing.
    assert_eq!(meter.gas_left(), Weight::from_parts(1_000, 500));
}

#[test]
fn prepare_then_execute_then_execute_again() {
    let mut session = XCMExtension::new();
    let mut meter = budget();
    let quote = Weight::from_parts(300, 40);
    prepare(&mut session, &mut meter, 1, Some(quote)).unwrap();

    let step = session.call(&mut meter, &CALLER, EXECUTE, &[]).unwrap();
    let (charged, prepared) = match step {
        Step::Execute { charged, prepared } => (charged, prepared),
        other => panic!("unexpected step {:?}", other),
    };
    assert_eq!(charged.amount(), quote);
    assert_eq!(prepared.weight, quote);
    assert_eq!(prepared.message.as_bytes(), message(1).encode().as_slice());
    assert!(session.prepared_execute().is_none());
    assert_eq!(meter.gas_left(), Weight::from_parts(700, 460));

    let end = XCMExtension::finish_execute(&mut meter, charged, Outcome::Complete(quote));
    assert_eq!(end, Ok(()));
    assert_eq!(status_of(&end), 0);

    let again = session.call(&mut meter, &CALLER, EXECUTE, &[]);
    assert!(matches!(again, Err(Error::PreparationMissing)));
    assert_eq!(meter.gas_left(), Weight::from_parts(700, 460));
}

#[test]
fn commit_costs_the_actual_consumption() {
    let mut session = XCMExtension::new();
    let mut meter = budget();
    let quote = Weight::from_parts(300, 40);
    prepare(&mut session, &mut meter, 1, Some(quote)).unwrap();
    let charged = match session.call(&mut meter, &CALLER, EXECUTE, &[]).unwrap() {
        Step::Execute { charged, .. } => charged,
        other => panic!("unexpected step {:?}", other),
    };
    let actual = Weight::from_parts(120, 7);
    let end = XCMExtension::finish_execute(&mut meter, charged, Outcome::Complete(actual));
    assert_eq!(end, Ok(()));
    assert_eq!(meter.gas_left(), Weight::from_parts(880, 493));
}

#[test]
fn incomplete_execution_fails_and_still_costs_the_actual() {
    let mut session = XCMExtension::new();
    let mut meter = budget();
    let quote = Weight::from_parts(300, 40);
    prepare(&mut session, &mut meter, 1, Some(quote)).unwrap();
    let charged = match session.call(&mut meter, &CALLER, EXECUTE, &[]).unwrap() {
        Step::Execute { charged, .. } => charged,
        other => panic!("unexpected step {:?}", other),
    };
    let used = Weight::from_parts(100, 10);
    let end = XCMExtension::finish_execute(&mut meter, charged, Outcome::Incomplete(used));
    assert_eq!(end, Err(Error::ExecutionFailed));
    assert_eq!(status_of(&end), 5);
    assert_eq!(meter.gas_left(), Weight::from_parts(900, 490));
    // The stage is cleared: the caller prepares from scratch.
    assert!(session.prepared_execute().is_none());
    assert!(matches!(
        session.call(&mut meter, &CALLER, EXECUTE, &[]),
        Err(Error::PreparationMissing)
    ));
}

#[test]
fn execution_that_did_not_start_costs_nothing() {
    let mut session = XCMExtension::new();
    let mut meter = budget();
    prepare(&mut session, &mut meter, 1, Some(Weight::from_parts(300, 40))).unwrap();
    let charged = match session.call(&mut meter, &CALLER, EXECUTE, &[]).unwrap() {
        Step::Execute { charged, .. } => charged,
        other => panic!("unexpected step {:?}", other),
    };
    let end = XCMExtension::finish_execute(&mut meter, charged, Outcome::Error);
    assert_eq!(end, Err(Error::ExecutionFailed));
    assert_eq!(meter.gas_left(), Weight::from_parts(1_000, 500));
}

#[test]
fn outcome_reports_the_weight_used() {
    let used = Weight::from_parts(5, 6);
    assert_eq!(Outcome::Complete(used).weight_used(), used);
    assert_eq!(Outcome::Incomplete(used).weight_used(), used);
    assert_eq!(Outcome::Error.weight_used(), Weight::zero());
    assert!(Outcome::Complete(used).is_complete());
    assert!(!Outcome::Incomplete(used).is_complete());
    assert!(!Outcome::Error.is_complete());
}

#[test]
fn dispatch_result_is_read_as_an_outcome() {
    let quoted = Weight::from_parts(300, 40);
    let used = Weight::from_parts(5, 6);
    assert_eq!(Outcome::from_dispatch(true, Some(used), quoted), Outcome::Complete(used));
    assert_eq!(Outcome::from_dispatch(true, None, quoted), Outcome::Complete(quoted));
    assert_eq!(Outcome::from_dispatch(false, Some(used), quoted), Outcome::Incomplete(used));
    assert_eq!(Outcome::from_dispatch(false, None, quoted), Outcome::Incomplete(quoted));
}

#[test]
fn uncovered_quote_is_out_of_gas_and_clears_the_stage() {
    let mut session = XCMExtension::new();
    let mut meter = budget();
    prepare(&mut session, &mut meter, 1, Some(Weight::from_parts(1_001, 1))).unwrap();
    let step = session.call(&mut meter, &CALLER, EXECUTE, &[]);
    assert!(matches!(step, Err(Error::OutOfGas)));
    assert_eq!(status_of(&step), 8);
    assert_eq!(meter.gas_left(), Weight::from_parts(1_000, 500));
    assert!(session.prepared_execute().is_none());
}

#[test]
fn restage_keeps_only_the_second_message() {
    let mut session = XCMExtension::new();
    let mut meter = budget();
    prepare(&mut session, &mut meter, 1, Some(Weight::from_parts(300, 40))).unwrap();
    let second = Weight::from_parts(10, 20);
    let output = prepare(&mut session, &mut meter, 2, Some(second)).unwrap();
    assert_eq!(output, encode_weight(second));

    let prepared = match session.call(&mut meter, &CALLER, EXECUTE, &[]).unwrap() {
        Step::Execute { charged, prepared } => {
            assert_eq!(charged.amount(), second);
            prepared
        },
        other => panic!("unexpected step {:?}", other),
    };
    assert_eq!(prepared.message.as_bytes(), message(2).encode().as_slice());
    assert_eq!(prepared.weight, second);
    assert!(matches!(
        session.call(&mut meter, &CALLER, EXECUTE, &[]),
        Err(Error::PreparationMissing)
    ));
}

#[test]
fn unpriced_message_is_cannot_weigh_and_keeps_the_stage() {
    let mut session = XCMExtension::new();
    let mut meter = budget();
    let first = Weight::from_parts(300, 40);
    prepare(&mut session, &mut meter, 1, Some(first)).unwrap();
    let failed = prepare(&mut session, &mut meter, 2, None);
    assert_eq!(failed, Err(Error::CannotWeigh));
    assert_eq!(status_of(&failed), 7);
    let staged = session.prepared_execute().unwrap();
    assert_eq!(staged.weight, first);
    assert_eq!(staged.message.as_bytes(), message(1).encode().as_slice());

    let mut fresh = XCMExtension::new();
    assert_eq!(prepare(&mut fresh, &mut meter, 2, None), Err(Error::CannotWeigh));
    assert!(fresh.prepared_execute().is_none());
}

#[test]
fn unsupported_version_never_stages() {
    let mut session = XCMExtension::new();
    let mut meter = budget();
    let first = Weight::from_parts(300, 40);
    prepare(&mut session, &mut meter, 1, Some(first)).unwrap();

    let mut wire = wire_message(2);
    wire[0] = 9;
    let step = session.call(&mut meter, &CALLER, PREPARE_EXECUTE, &wire);
    assert!(matches!(step, Err(Error::XcmVersionNotSupported)));
    assert_eq!(status_of(&step), 3);
    assert_eq!(session.prepared_execute().unwrap().weight, first);
    assert_eq!(meter.gas_left(), Weight::from_parts(1_000, 500));

    let mut wire = wire_send(2);
    wire[0] = 9;
    let step = session.call(&mut meter, &CALLER, VALIDATE_SEND, &wire);
    assert!(matches!(step, Err(Error::XcmVersionNotSupported)));
    assert!(session.validated_send().is_none());

    let mut fresh = XCMExtension::new();
    let step = fresh.call(&mut meter, &CALLER, PREPARE_EXECUTE, &[0]);
    assert!(matches!(step, Err(Error::XcmVersionNotSupported)));
    assert!(fresh.prepared_execute().is_none());
}

#[test]
fn malformed_payload_never_stages() {
    let mut session = XCMExtension::new();
    let mut meter = budget();
    let step = session.call(&mut meter, &CALLER, PREPARE_EXECUTE, &[]);
    assert!(matches!(step, Err(Error::DecodingFailed)));
    assert_eq!(status_of(&step), 9);
    let step = session.call(&mut meter, &CALLER, VALIDATE_SEND, &[3, 0]);
    assert!(matches!(step, Err(Error::DecodingFailed)));
    assert!(session.prepared_execute().is_none());
    assert!(session.validated_send().is_none());
}

#[test]
fn unknown_command_changes_nothing() {
    let mut session = XCMExtension::new();
    let mut meter = budget();
    let quote = Weight::from_parts(300, 40);
    prepare(&mut session, &mut meter, 1, Some(quote)).unwrap();
    assert!(matches!(
        session.call(&mut meter, &CALLER, VALIDATE_SEND, &wire_send(3)),
        Ok(Step::Done(_))
    ));

    for func_id in [6u16, 7, 100, u16::MAX] {
        let step = session.call(&mut meter, &CALLER, func_id, &wire_message(5));
        assert!(matches!(step, Err(Error::InvalidCommand)));
        assert_eq!(status_of(&step), 2);
    }
    assert_eq!(meter.gas_left(), Weight::from_parts(1_000, 500));
    let staged = session.prepared_execute().unwrap();
    assert_eq!(staged.weight, quote);
    assert_eq!(staged.message.as_bytes(), message(1).encode().as_slice());
    assert_eq!(
        session.validated_send().unwrap().message.as_bytes(),
        message(3).encode().as_slice()
    );
}

#[test]
fn validate_send_stages_and_acknowledges() {
    let mut session = XCMExtension::new();
    let mut meter = budget();
    let step = session.call(&mut meter, &CALLER, VALIDATE_SEND, &wire_send(1)).unwrap();
    match step {
        Step::Done(output) => assert_eq!(output, vec![3, 0, 0, 0, 0, 0]),
        other => panic!("unexpected step {:?}", other),
    }
    let staged = session.validated_send().unwrap();
    assert_eq!(staged.dest.as_bytes(), destination().encode().as_slice());
    assert_eq!(staged.message.as_bytes(), message(1).encode().as_slice());
    assert!(session.prepared_execute().is_none());
    assert_eq!(meter.gas_left(), Weight::from_parts(1_000, 500));
}

#[test]
fn validate_then_send_then_send_again() {
    let mut session = XCMExtension::new();
    let mut meter = budget();
    session.call(&mut meter, &CALLER, VALIDATE_SEND, &wire_send(1)).unwrap();
    session.call(&mut meter, &CALLER, VALIDATE_SEND, &wire_send(2)).unwrap();

    let validated = match session.call(&mut meter, &CALLER, SEND, &[]).unwrap() {
        Step::Send(validated) => validated,
        other => panic!("unexpected step {:?}", other),
    };
    assert_eq!(validated.dest.as_bytes(), destination().encode().as_slice());
    assert_eq!(validated.message.as_bytes(), message(2).encode().as_slice());
    assert!(session.validated_send().is_none());
    assert_eq!(XCMExtension::finish_send(true), Ok(()));

    assert!(matches!(
        session.call(&mut meter, &CALLER, SEND, &[]),
        Err(Error::PreparationMissing)
    ));
    assert_eq!(meter.gas_left(), Weight::from_parts(1_000, 500));
}

#[test]
fn refused_send_is_send_failed() {
    let end = XCMExtension::finish_send(false);
    assert_eq!(end, Err(Error::SendFailed));
    assert_eq!(status_of(&end), 6);
}

#[test]
fn the_two_lanes_are_independent() {
    let mut session = XCMExtension::new();
    let mut meter = budget();
    prepare(&mut session, &mut meter, 1, Some(Weight::from_parts(1, 1))).unwrap();
    session.call(&mut meter, &CALLER, VALIDATE_SEND, &wire_send(2)).unwrap();

    assert!(matches!(session.call(&mut meter, &CALLER, SEND, &[]), Ok(Step::Send(_))));
    assert!(session.prepared_execute().is_some());
    assert!(matches!(
        session.call(&mut meter, &CALLER, EXECUTE, &[]),
        Ok(Step::Execute { .. })
    ));
    assert!(session.validated_send().is_none());
    assert!(session.prepared_execute().is_none());
}

#[test]
fn new_query_names_the_caller_as_responder() {
    let mut session = XCMExtension::new();
    let mut meter = budget();
    let mut wire = 600u32.encode();
    wire.extend(VersionedMultiLocation::V3(destination()).encode());
    let request = match session.call(&mut meter, &CALLER, NEW_QUERY, &wire).unwrap() {
        Step::NewQuery(request) => request,
        other => panic!("unexpected step {:?}", other),
    };
    let responder = v3::MultiLocation {
        parents: 0,
        interior: v3::Junctions::X1(v3::Junction::AccountId32 { network: None, id: CALLER }),
    };
    assert_eq!(request.responder.as_bytes(), responder.encode().as_slice());
    assert_eq!(request.timeout, 600);
    assert_eq!(request.match_querier.as_bytes(), destination().encode().as_slice());
    assert_eq!(XCMExtension::finish_new_query(0x0102), vec![2, 1, 0, 0, 0, 0, 0, 0]);
    assert_eq!(XCMExtension::finish_new_query(77), 77u64.encode());
}

#[test]
fn new_query_with_bad_querier_fails() {
    let mut session = XCMExtension::new();
    let mut meter = budget();
    let mut wire = 600u32.encode();
    wire.extend(VersionedMultiLocation::V3(destination()).encode());
    wire[4] = 8;
    assert!(matches!(
        session.call(&mut meter, &CALLER, NEW_QUERY, &wire),
        Err(Error::XcmVersionNotSupported)
    ));
    assert!(matches!(
        session.call(&mut meter, &CALLER, NEW_QUERY, &[1, 2]),
        Err(Error::DecodingFailed)
    ));
}

#[test]
fn take_response_reads_the_query_id() {
    let mut session = XCMExtension::new();
    let mut meter = budget();
    let step = session.call(&mut meter, &CALLER, TAKE_RESPONSE, &0xdead_beef_u64.encode());
    assert!(matches!(step, Ok(Step::TakeResponse(0xdead_beef))));
    assert!(matches!(
        session.call(&mut meter, &CALLER, TAKE_RESPONSE, &[1, 2, 3]),
        Err(Error::DecodingFailed)
    ));
}

#[test]
fn decoded_message_can_be_staged_directly() {
    let mut session = XCMExtension::new();
    let decoded = decode_message(&wire_message(4)).unwrap();
    let quote = Weight::from_parts(9, 9);
    assert_eq!(session.prepare_execute(decoded, Some(quote)), Ok(encode_weight(quote)));
    assert_eq!(session.prepared_execute().unwrap().weight, quote);
}
