//! What holds of the bridge across calls, stated over the plain-value model
//! that the contracts of the session and of the meter speak of.

use crate::chain_ext::{
    spec_finish_execute, spec_finish_take_response, PreparedExecutionView, SessionView, StepView,
    ValidatedSendView,
};
use crate::codec::{
    spec_decode_message, spec_decode_send_input, spec_is_location_version,
    spec_is_message_version, spec_le_u32, spec_query_id_from_parts, versioned_response,
    MAX_DECODE_NESTING,
};
use crate::command::Command;
use crate::error::{spec_status_of, Error, SUCCESS};
use crate::host::{Outcome, QueryResponseStatusView};
use crate::meter::GasMeterView;
use crate::weight::Weight;
use vstd::prelude::*;

verus! {

/// The two moves of the staging command make up the whole of it: what the
/// first move leaves for the host is the decoded message, and the second
/// move, fed with the host's price for that message, ends as the whole
/// command does. Neither move touches the budget.
pub proof fn lemma_prepare_is_call_then_stage(
    session: SessionView,
    meter: GasMeterView,
    caller: Seq<u8>,
    payload: Seq<u8>,
    estimate: spec_fn(Seq<u8>) -> Option<Weight>,
)
    ensures
        ({
            let first = session.call(
                meter,
                caller,
                Command::PrepareExecute.spec_func_id(),
                payload,
            );
            &&& first.0 == session
            &&& first.1 == meter
            &&& match first.2 {
                Ok(step) => step matches StepView::Weigh(message) && spec_decode_message(payload)
                    == Ok::<Seq<u8>, Error>(message) && session.prepare(payload, estimate)
                    == session.prepare_execute(message, estimate(message)),
                Err(e) => session.prepare(payload, estimate) == (session, Err::<Weight, Error>(e)),
            }
        }),
{
}

/// A commit of the execute lane pairs with the staging before it.
///
/// In a fresh session the commit fails with `PreparationMissing`. Once a
/// message is staged at a price that the budget covers, the commit hands out
/// that message and that price and empties the lane, and a commit right after
/// it fails with `PreparationMissing` again.
pub proof fn lemma_execute_pairs_with_prepare(
    session: SessionView,
    meter: GasMeterView,
    caller: Seq<u8>,
    input: Seq<u8>,
    payload: Seq<u8>,
    estimate: spec_fn(Seq<u8>) -> Option<Weight>,
)
    requires
        meter.wf(),
        spec_decode_message(payload) matches Ok(message) && estimate(message) matches Some(weight)
            && weight.spec_all_lte(meter.gas_left),
    ensures
        SessionView::empty().call(meter, caller, Command::Execute.spec_func_id(), input) == (
            SessionView::empty(),
            meter,
            Err::<StepView, Error>(Error::PreparationMissing),
        ),
        ({
            let message = spec_decode_message(payload)->Ok_0;
            let weight = estimate(message)->Some_0;
            let staged = session.prepare(payload, estimate);
            let first = staged.0.call(meter, caller, Command::Execute.spec_func_id(), input);
            let second = first.0.call(first.1, caller, Command::Execute.spec_func_id(), input);
            &&& staged.1 == Ok::<Weight, Error>(weight)
            &&& first.2 == Ok::<StepView, Error>(
                StepView::Execute {
                    charged: weight,
                    prepared: PreparedExecutionView { message, weight },
                },
            )
            &&& first.0.prepared_execute.is_none()
            &&& first.0.validated_send == session.validated_send
            &&& meter.charge(weight) == Some(first.1)
            &&& second == (first.0, first.1, Err::<StepView, Error>(Error::PreparationMissing))
        }),
{
}

/// A commit of the send lane pairs with the staging before it.
///
/// In a fresh session the commit fails with `PreparationMissing`. Once a
/// payload that decodes is staged, the commit hands out its destination and
/// message and empties the lane, and a commit right after it fails with
/// `PreparationMissing` again. The budget is never touched.
pub proof fn lemma_send_pairs_with_validate(
    session: SessionView,
    meter: GasMeterView,
    caller: Seq<u8>,
    input: Seq<u8>,
    payload: Seq<u8>,
)
    requires
        spec_decode_send_input(payload) is Ok,
    ensures
        SessionView::empty().call(meter, caller, Command::Send.spec_func_id(), input) == (
            SessionView::empty(),
            meter,
            Err::<StepView, Error>(Error::PreparationMissing),
        ),
        ({
            let decoded = spec_decode_send_input(payload)->Ok_0;
            let staged = session.call(
                meter,
                caller,
                Command::ValidateSend.spec_func_id(),
                payload,
            );
            let first = staged.0.call(staged.1, caller, Command::Send.spec_func_id(), input);
            let second = first.0.call(first.1, caller, Command::Send.spec_func_id(), input);
            &&& staged.2 is Ok
            &&& staged.1 == meter
            &&& first.2 == Ok::<StepView, Error>(
                StepView::Send(ValidatedSendView { dest: decoded.0, message: decoded.1 }),
            )
            &&& first.0.validated_send.is_none()
            &&& first.0.prepared_execute == session.prepared_execute
            &&& first.1 == meter
            &&& second == (first.0, first.1, Err::<StepView, Error>(Error::PreparationMissing))
        }),
{
}

/// Of two stagings in a row only the second is staged, and the commit hands
/// out the second message at its price, not the first.
pub proof fn lemma_restage_keeps_last(
    session: SessionView,
    meter: GasMeterView,
    caller: Seq<u8>,
    input: Seq<u8>,
    first: Seq<u8>,
    second: Seq<u8>,
    estimate: spec_fn(Seq<u8>) -> Option<Weight>,
)
    requires
        meter.wf(),
        spec_decode_message(first) matches Ok(message) && estimate(message) is Some,
        spec_decode_message(second) matches Ok(message) && estimate(message) matches Some(weight)
            && weight.spec_all_lte(meter.gas_left),
    ensures
        ({
            let message = spec_decode_message(second)->Ok_0;
            let weight = estimate(message)->Some_0;
            let once = session.prepare(first, estimate).0;
            let twice = once.prepare(second, estimate).0;
            &&& twice == session.prepare(second, estimate).0
            &&& twice.prepared_execute == Some(PreparedExecutionView { message, weight })
            &&& twice.call(meter, caller, Command::Execute.spec_func_id(), input).2 == Ok::<
                StepView,
                Error,
            >(
                StepView::Execute {
                    charged: weight,
                    prepared: PreparedExecutionView { message, weight },
                },
            )
        }),
{
}

/// Of two payloads staged for sending in a row only the second is staged.
pub proof fn lemma_revalidate_keeps_last(session: SessionView, first: Seq<u8>, second: Seq<u8>)
    requires
        spec_decode_send_input(first) is Ok,
        spec_decode_send_input(second) is Ok,
    ensures
        session.validate_send(first).0.validate_send(second).0 == session.validate_send(second).0,
        session.validate_send(second).0.validated_send == Some(
            ValidatedSendView {
                dest: spec_decode_send_input(second)->Ok_0.0,
                message: spec_decode_send_input(second)->Ok_0.1,
            },
        ),
{
}

/// A staging that fails, for want of a message or of a price, leaves what
/// was staged before.
pub proof fn lemma_failed_prepare_keeps_session(
    session: SessionView,
    payload: Seq<u8>,
    estimate: spec_fn(Seq<u8>) -> Option<Weight>,
)
    ensures
        session.prepare(payload, estimate).1 is Err ==> session.prepare(payload, estimate).0
            == session,
        spec_decode_message(payload) matches Ok(message) && estimate(message) is None
            ==> session.prepare(payload, estimate) == (
            session,
            Err::<Weight, Error>(Error::CannotWeigh),
        ),
{
}

/// The price quoted for a message is the weigher's estimate of it, as it
/// is: wherever the weigher prices one message within another, the quotes
/// stand in the same order.
pub proof fn lemma_quote_is_estimate(
    session: SessionView,
    smaller: Seq<u8>,
    larger: Seq<u8>,
    estimate: spec_fn(Seq<u8>) -> Option<Weight>,
)
    requires
        spec_decode_message(smaller) matches Ok(message) && estimate(message) is Some,
        spec_decode_message(larger) matches Ok(message) && estimate(message) is Some,
        estimate(spec_decode_message(smaller)->Ok_0)->Some_0.spec_all_lte(
            estimate(spec_decode_message(larger)->Ok_0)->Some_0,
        ),
    ensures
        session.prepare(smaller, estimate).1 == Ok::<Weight, Error>(
            estimate(spec_decode_message(smaller)->Ok_0)->Some_0,
        ),
        session.prepare(larger, estimate).1 == Ok::<Weight, Error>(
            estimate(spec_decode_message(larger)->Ok_0)->Some_0,
        ),
        session.prepare(smaller, estimate).1->Ok_0.spec_all_lte(
            session.prepare(larger, estimate).1->Ok_0,
        ),
{
}

/// A message staged at a quoted price, committed, and executed at an actual
/// consumption within the quote costs the caller exactly the actual
/// consumption, in both dimensions, whether or not the execution completed.
pub proof fn lemma_commit_costs_actual(
    session: SessionView,
    meter: GasMeterView,
    caller: Seq<u8>,
    input: Seq<u8>,
    payload: Seq<u8>,
    estimate: spec_fn(Seq<u8>) -> Option<Weight>,
    outcome: Outcome,
)
    requires
        meter.wf(),
        spec_decode_message(payload) matches Ok(message) && estimate(message) matches Some(quoted)
            && quoted.spec_all_lte(meter.gas_left) && outcome.spec_weight_used().spec_all_lte(
            quoted,
        ),
    ensures
        ({
            let quoted = estimate(spec_decode_message(payload)->Ok_0)->Some_0;
            let staged = session.prepare(payload, estimate);
            let committed = staged.0.call(meter, caller, Command::Execute.spec_func_id(), input);
            let settled = committed.1.adjust(quoted, outcome.spec_weight_used());
            &&& staged.1 == Ok::<Weight, Error>(quoted)
            &&& committed.2 matches Ok(StepView::Execute { charged, prepared })
            &&& charged == quoted
            &&& settled.wf()
            &&& settled.gas_limit == meter.gas_limit
            &&& settled.gas_left.ref_time == meter.gas_left.ref_time
                - outcome.spec_weight_used().ref_time
            &&& settled.gas_left.proof_size == meter.gas_left.proof_size
                - outcome.spec_weight_used().proof_size
            &&& spec_finish_execute(outcome) is Ok <==> outcome is Complete
        }),
{
}

/// A commit that the budget does not cover charges nothing, and the staged
/// message is gone all the same.
pub proof fn lemma_uncovered_commit_charges_nothing(
    session: SessionView,
    meter: GasMeterView,
    caller: Seq<u8>,
    input: Seq<u8>,
    payload: Seq<u8>,
    estimate: spec_fn(Seq<u8>) -> Option<Weight>,
)
    requires
        spec_decode_message(payload) matches Ok(message) && estimate(message) matches Some(quoted)
            && !quoted.spec_all_lte(meter.gas_left),
    ensures
        ({
            let staged = session.prepare(payload, estimate).0;
            let committed = staged.call(meter, caller, Command::Execute.spec_func_id(), input);
            &&& committed.2 == Err::<StepView, Error>(Error::OutOfGas)
            &&& committed.1 == meter
            &&& committed.0.prepared_execute.is_none()
        }),
{
}

/// A command id outside the six yields `InvalidCommand` and nothing else:
/// the session and the budget are as before, and no work is asked of the
/// host.
pub proof fn lemma_unknown_command_changes_nothing(
    session: SessionView,
    meter: GasMeterView,
    caller: Seq<u8>,
    func_id: u16,
    input: Seq<u8>,
)
    requires
        func_id > 5,
    ensures
        session.call(meter, caller, func_id, input) == (
            session,
            meter,
            Err::<StepView, Error>(Error::InvalidCommand),
        ),
{
}

/// A message in a version that the codec does not know is rejected for its
/// version, and the command that carried it stages nothing and charges
/// nothing, whatever the weigher would have made of it. The same holds of a
/// destination in an unknown version.
pub proof fn lemma_unknown_version_stages_nothing(
    session: SessionView,
    meter: GasMeterView,
    caller: Seq<u8>,
    input: Seq<u8>,
    estimate: spec_fn(Seq<u8>) -> Option<Weight>,
)
    requires
        input.len() > 0,
    ensures
        !spec_is_message_version(input[0]) ==> session.call(
            meter,
            caller,
            Command::PrepareExecute.spec_func_id(),
            input,
        ) == (session, meter, Err::<StepView, Error>(Error::XcmVersionNotSupported)),
        !spec_is_message_version(input[0]) ==> session.prepare(input, estimate) == (
            session,
            Err::<Weight, Error>(Error::XcmVersionNotSupported),
        ),
        !spec_is_location_version(input[0]) ==> session.call(
            meter,
            caller,
            Command::ValidateSend.spec_func_id(),
            input,
        ) == (session, meter, Err::<StepView, Error>(Error::XcmVersionNotSupported)),
{
}

/// Whatever the command and its payload, a failure charges nothing, and any
/// failure but `OutOfGas` leaves the session as it was. A command that stages
/// does so on its success only.
pub proof fn lemma_failure_keeps_state(
    session: SessionView,
    meter: GasMeterView,
    caller: Seq<u8>,
    func_id: u16,
    input: Seq<u8>,
)
    ensures
        ({
            let after = session.call(meter, caller, func_id, input);
            &&& after.2 is Err ==> after.1 == meter
            &&& after.2 is Err && after.2 != Err::<StepView, Error>(Error::OutOfGas) ==> after.0
                == session
            &&& after.2 == Err::<StepView, Error>(Error::OutOfGas) ==> func_id
                == Command::Execute.spec_func_id() && after.0.prepared_execute.is_none()
                && after.0.validated_send == session.validated_send
        }),
{
}

/// A poll asks the store for the same query whether its id came through the
/// input buffer or as two primitive arguments, low half first: the eight
/// bytes of the buffer spell the id that the two halves make.
pub proof fn lemma_poll_reads_both_styles_alike(
    session: SessionView,
    meter: GasMeterView,
    caller: Seq<u8>,
    input: Seq<u8>,
)
    requires
        input.len() >= 8,
    ensures
        session.call(meter, caller, Command::TakeResponse.spec_func_id(), input) == (
            session,
            meter,
            Ok::<StepView, Error>(
                StepView::TakeResponse(
                    spec_query_id_from_parts(spec_le_u32(input), spec_le_u32(input.skip(4))),
                ),
            ),
        ),
{
}

/// The three answers of a poll are told apart by the caller. A pending query
/// is a success whose output is the single byte zero; a ready one is a
/// success whose output starts with the byte one; a query that is not found
/// is the failure `QueryNotFound`, and a response in an unreadable version
/// the failure `XcmVersionNotSupported`.
pub proof fn lemma_poll_is_three_way(response: Seq<u8>, at: u32, timeout: u32)
    ensures
        spec_finish_take_response(QueryResponseStatusView::Pending { timeout }) == Ok::<
            Seq<u8>,
            Error,
        >(seq![0u8]),
        spec_finish_take_response(QueryResponseStatusView::NotFound) == Err::<Seq<u8>, Error>(
            Error::QueryNotFound,
        ),
        spec_finish_take_response(QueryResponseStatusView::UnexpectedVersion) == Err::<
            Seq<u8>,
            Error,
        >(Error::XcmVersionNotSupported),
        versioned_response(MAX_DECODE_NESTING, response) matches Some(versioned)
            ==> spec_finish_take_response(QueryResponseStatusView::Ready { response, at })
            == Ok::<Seq<u8>, Error>(seq![1u8] + versioned),
        spec_finish_take_response(QueryResponseStatusView::Ready { response, at })
            != spec_finish_take_response(QueryResponseStatusView::Pending { timeout }),
        spec_finish_take_response(QueryResponseStatusView::Ready { response, at })
            != spec_finish_take_response(QueryResponseStatusView::NotFound),
        spec_status_of(spec_finish_take_response(QueryResponseStatusView::Pending { timeout }))
            == SUCCESS,
        spec_status_of(spec_finish_take_response(QueryResponseStatusView::NotFound)) != SUCCESS,
{
    assert(seq![0u8][0] == 0u8);
}

} // verus!
