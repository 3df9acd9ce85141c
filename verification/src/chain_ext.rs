//! The session between one contract invocation and the host: two lanes of
//! staged work and the dispatch of the six commands.
//!
//! A command is served in two moves. `XCMExtension::call` decodes it and does
//! all that needs no subsystem of the host; what it returns names the work
//! that the host must now do. The host does that work and hands the result to
//! the matching `finish` function, which decides how the command ends.

use crate::codec::{
    decode_message, decode_new_query_input, decode_query_id, decode_send_input,
    encode_optional_response, encode_query_id, encode_send_acknowledgment, encode_weight,
    spec_account_location, spec_decode_message, spec_decode_new_query_input,
    spec_decode_query_id, spec_decode_send_input, spec_encode_optional_response,
    spec_encoded_view, spec_send_acknowledgment, spec_u64_le_bytes, weight_encoding, Location,
    Message,
};
use crate::command::Command;
use crate::error::Error;
use crate::host::{Outcome, QueryResponseStatus, QueryResponseStatusView};
use crate::meter::{ChargedAmount, GasMeter, GasMeterView};
use crate::weight::Weight;
use vstd::prelude::*;

verus! {

/// One lane of the session: nothing staged, or one value awaiting its commit.
#[derive(Debug)]
pub enum Lane<T> {
    Empty,
    Staged(T),
}

impl<T> Lane<T> {
    /// The staged value, if there is one.
    pub open spec fn spec_staged(self) -> Option<T> {
        match self {
            Lane::Empty => None,
            Lane::Staged(value) => Some(value),
        }
    }

    pub fn is_staged(&self) -> (staged: bool)
        ensures
            staged == self.spec_staged().is_some(),
    {
        match self {
            Lane::Empty => false,
            Lane::Staged(_) => true,
        }
    }

    /// The staged value, left where it is.
    pub fn peek(&self) -> (staged: Option<&T>)
        ensures
            match staged {
                Some(value) => self.spec_staged() == Some(*value),
                None => self.spec_staged().is_none(),
            },
    {
        match self {
            Lane::Empty => None,
            Lane::Staged(value) => Some(value),
        }
    }

    /// Stages `value`, in place of whatever was staged before.
    pub fn stage(&mut self, value: T)
        ensures
            *final(self) == Lane::Staged(value),
    {
        *self = Lane::Staged(value);
    }

    /// Takes the staged value and leaves the lane empty.
    ///
    /// An empty lane gives `PreparationMissing` and stays empty.
    pub fn take(&mut self) -> (taken: Result<T, Error>)
        ensures
            *final(self) == Lane::<T>::Empty,
            taken == match *old(self) {
                Lane::Staged(value) => Ok::<T, Error>(value),
                Lane::Empty => Err::<T, Error>(Error::PreparationMissing),
            },
    {
        let mut lane = Lane::Empty;
        core::mem::swap(self, &mut lane);
        match lane {
            Lane::Staged(value) => Ok(value),
            Lane::Empty => Err(Error::PreparationMissing),
        }
    }
}

/// A message that was decoded and priced, awaiting the go-ahead to execute.
#[derive(Debug)]
pub struct PreparedExecution {
    pub message: Message,
    pub weight: Weight,
}

/// A destination and a message that were decoded, awaiting dispatch.
#[derive(Debug)]
pub struct ValidatedSend {
    pub dest: Location,
    pub message: Message,
}

/// What the query store needs to register a query.
#[derive(Debug)]
pub struct QueryRequest {
    pub responder: Location,
    pub timeout: u32,
    pub match_querier: Location,
}

/// A prepared execution, as plain values.
pub struct PreparedExecutionView {
    pub message: Seq<u8>,
    pub weight: Weight,
}

/// A validated send, as plain values.
pub struct ValidatedSendView {
    pub dest: Seq<u8>,
    pub message: Seq<u8>,
}

/// A query request, as plain values.
pub struct QueryRequestView {
    pub responder: Seq<u8>,
    pub timeout: u32,
    pub match_querier: Seq<u8>,
}

impl View for PreparedExecution {
    type V = PreparedExecutionView;

    open spec fn view(&self) -> PreparedExecutionView {
        PreparedExecutionView { message: self.message@, weight: self.weight }
    }
}

impl View for ValidatedSend {
    type V = ValidatedSendView;

    open spec fn view(&self) -> ValidatedSendView {
        ValidatedSendView { dest: self.dest@, message: self.message@ }
    }
}

impl View for QueryRequest {
    type V = QueryRequestView;

    open spec fn view(&self) -> QueryRequestView {
        QueryRequestView {
            responder: self.responder@,
            timeout: self.timeout,
            match_querier: self.match_querier@,
        }
    }
}

/// What `call` leaves for the host to do.
#[derive(Debug)]
pub enum Step {
    /// Nothing: the command is served, and these bytes are its output.
    Done(Vec<u8>),
    /// Price the message, then `prepare_execute`.
    Weigh(Message),
    /// Execute the message for the caller within the charged weight, then
    /// `finish_execute`.
    Execute { charged: ChargedAmount, prepared: PreparedExecution },
    /// Hand the message to the router, then `finish_send`.
    Send(ValidatedSend),
    /// Register the query, then `finish_new_query`.
    NewQuery(QueryRequest),
    /// Poll the query store for this id, then `finish_take_response`.
    TakeResponse(u64),
}

/// A step, as plain values.
pub enum StepView {
    Done(Seq<u8>),
    Weigh(Seq<u8>),
    Execute { charged: Weight, prepared: PreparedExecutionView },
    Send(ValidatedSendView),
    NewQuery(QueryRequestView),
    TakeResponse(u64),
}

impl View for Step {
    type V = StepView;

    open spec fn view(&self) -> StepView {
        match *self {
            Step::Done(output) => StepView::Done(output@),
            Step::Weigh(message) => StepView::Weigh(message@),
            Step::Execute { charged, prepared } => StepView::Execute {
                charged: charged@,
                prepared: prepared@,
            },
            Step::Send(validated) => StepView::Send(validated@),
            Step::NewQuery(request) => StepView::NewQuery(request@),
            Step::TakeResponse(query_id) => StepView::TakeResponse(query_id),
        }
    }
}

/// What a step or its failure holds, as plain values.
pub open spec fn spec_step_view(r: Result<Step, Error>) -> Result<StepView, Error> {
    match r {
        Ok(step) => Ok(step@),
        Err(e) => Err(e),
    }
}

/// The two lanes of a session, as plain values.
pub struct SessionView {
    pub prepared_execute: Option<PreparedExecutionView>,
    pub validated_send: Option<ValidatedSendView>,
}

impl SessionView {
    /// The session in which nothing is staged.
    pub open spec fn empty() -> SessionView {
        SessionView { prepared_execute: None, validated_send: None }
    }

    /// Staging for execution: with a price, the message and its price take
    /// the execute lane and the price is quoted; without one, the session
    /// stays as it is and the failure is `CannotWeigh`.
    pub open spec fn prepare_execute(self, message: Seq<u8>, weighed: Option<Weight>) -> (
        SessionView,
        Result<Weight, Error>,
    ) {
        match weighed {
            Some(weight) => (
                SessionView {
                    prepared_execute: Some(PreparedExecutionView { message, weight }),
                    validated_send: self.validated_send,
                },
                Ok(weight),
            ),
            None => (self, Err(Error::CannotWeigh)),
        }
    }

    /// The whole of the staging command, both moves: the payload is decoded,
    /// the host's weigher `estimate` prices the decoded message, and message
    /// and price are staged. Any failure leaves the session as it is.
    pub open spec fn prepare(
        self,
        payload: Seq<u8>,
        estimate: spec_fn(Seq<u8>) -> Option<Weight>,
    ) -> (SessionView, Result<Weight, Error>) {
        match spec_decode_message(payload) {
            Ok(message) => self.prepare_execute(message, estimate(message)),
            Err(e) => (self, Err(e)),
        }
    }

    /// Committing the execute lane: the staged value leaves the lane, and its
    /// quoted weight is charged. An empty lane gives `PreparationMissing`; a
    /// budget that does not cover the quote gives `OutOfGas`, charges nothing,
    /// and the lane is empty all the same.
    pub open spec fn execute(self, meter: GasMeterView) -> (
        SessionView,
        GasMeterView,
        Result<StepView, Error>,
    ) {
        match self.prepared_execute {
            None => (self, meter, Err(Error::PreparationMissing)),
            Some(prepared) => {
                let cleared = SessionView {
                    prepared_execute: None,
                    validated_send: self.validated_send,
                };
                match meter.charge(prepared.weight) {
                    None => (cleared, meter, Err(Error::OutOfGas)),
                    Some(charged) => (
                        cleared,
                        charged,
                        Ok(StepView::Execute { charged: prepared.weight, prepared }),
                    ),
                }
            },
        }
    }

    /// Staging for sending: a payload that decodes takes the send lane and
    /// is acknowledged; any other leaves the session as it is.
    pub open spec fn validate_send(self, input: Seq<u8>) -> (SessionView, Result<StepView, Error>) {
        match spec_decode_send_input(input) {
            Ok((dest, message)) => (
                SessionView {
                    prepared_execute: self.prepared_execute,
                    validated_send: Some(ValidatedSendView { dest, message }),
                },
                Ok(StepView::Done(spec_send_acknowledgment())),
            ),
            Err(e) => (self, Err(e)),
        }
    }

    /// Committing the send lane: the staged value leaves the lane. An empty
    /// lane gives `PreparationMissing`.
    pub open spec fn send(self) -> (SessionView, Result<StepView, Error>) {
        match self.validated_send {
            None => (self, Err(Error::PreparationMissing)),
            Some(validated) => (
                SessionView { prepared_execute: self.prepared_execute, validated_send: None },
                Ok(StepView::Send(validated)),
            ),
        }
    }

    /// The first move of a command: the session and the budget after it, and
    /// the work left for the host or the failure.
    ///
    /// A commit empties its lane, and the commit of the execute lane charges
    /// the budget; staging for a send fills the send lane. Every other
    /// command, and every failure but `OutOfGas`, leaves both as they were.
    pub open spec fn call(
        self,
        meter: GasMeterView,
        caller: Seq<u8>,
        func_id: u16,
        input: Seq<u8>,
    ) -> (SessionView, GasMeterView, Result<StepView, Error>) {
        match Command::spec_from_func_id(func_id) {
            Err(e) => (self, meter, Err(e)),
            Ok(Command::PrepareExecute) => match spec_decode_message(input) {
                Ok(message) => (self, meter, Ok(StepView::Weigh(message))),
                Err(e) => (self, meter, Err(e)),
            },
            Ok(Command::Execute) => self.execute(meter),
            Ok(Command::ValidateSend) => {
                let (session, step) = self.validate_send(input);
                (session, meter, step)
            },
            Ok(Command::Send) => {
                let (session, step) = self.send();
                (session, meter, step)
            },
            Ok(Command::NewQuery) => match spec_decode_new_query_input(input) {
                Ok((timeout, match_querier)) => (
                    self,
                    meter,
                    Ok(
                        StepView::NewQuery(
                            QueryRequestView {
                                responder: spec_account_location(0, caller),
                                timeout,
                                match_querier,
                            },
                        ),
                    ),
                ),
                Err(e) => (self, meter, Err(e)),
            },
            Ok(Command::TakeResponse) => match spec_decode_query_id(input) {
                Ok(query_id) => (self, meter, Ok(StepView::TakeResponse(query_id))),
                Err(e) => (self, meter, Err(e)),
            },
        }
    }
}

/// How a commit ends once the executor has reported: complete is success,
/// anything else `ExecutionFailed`.
pub open spec fn spec_finish_execute(outcome: Outcome) -> Result<(), Error> {
    if outcome.spec_is_complete() {
        Ok(())
    } else {
        Err(Error::ExecutionFailed)
    }
}

/// How a send ends once the router has reported.
pub open spec fn spec_finish_send(sent: bool) -> Result<(), Error> {
    if sent {
        Ok(())
    } else {
        Err(Error::SendFailed)
    }
}

/// What a poll hands to the caller: the optional response for a query that
/// is ready or pending, `XcmVersionNotSupported` for a response in an
/// unreadable version, `QueryNotFound` for a query that is not there.
pub open spec fn spec_finish_take_response(status: QueryResponseStatusView) -> Result<
    Seq<u8>,
    Error,
> {
    match status {
        QueryResponseStatusView::Ready { response, at } => spec_encode_optional_response(
            Some(response),
        ),
        QueryResponseStatusView::Pending { timeout } => spec_encode_optional_response(None),
        QueryResponseStatusView::UnexpectedVersion => Err(Error::XcmVersionNotSupported),
        QueryResponseStatusView::NotFound => Err(Error::QueryNotFound),
    }
}

/// The state that the bridge keeps between the calls of one contract
/// invocation: the execute lane and the send lane.
#[derive(Debug)]
pub struct XCMExtension {
    prepared_execute: Lane<PreparedExecution>,
    validated_send: Lane<ValidatedSend>,
}

impl View for XCMExtension {
    type V = SessionView;

    closed spec fn view(&self) -> SessionView {
        SessionView {
            prepared_execute: match self.prepared_execute {
                Lane::Empty => None,
                Lane::Staged(prepared) => Some(prepared@),
            },
            validated_send: match self.validated_send {
                Lane::Empty => None,
                Lane::Staged(validated) => Some(validated@),
            },
        }
    }
}

impl Default for XCMExtension {
    fn default() -> (session: XCMExtension)
        ensures
            session@ == SessionView::empty(),
    {
        XCMExtension::new()
    }
}

impl XCMExtension {
    /// A session with both lanes empty.
    pub fn new() -> (session: XCMExtension)
        ensures
            session@ == SessionView::empty(),
    {
        XCMExtension { prepared_execute: Lane::Empty, validated_send: Lane::Empty }
    }

    /// What is staged for execution, if anything.
    pub fn prepared_execute(&self) -> (staged: Option<&PreparedExecution>)
        ensures
            match staged {
                Some(prepared) => self@.prepared_execute == Some(prepared@),
                None => self@.prepared_execute.is_none(),
            },
    {
        self.prepared_execute.peek()
    }

    /// What is staged for sending, if anything.
    pub fn validated_send(&self) -> (staged: Option<&ValidatedSend>)
        ensures
            match staged {
                Some(validated) => self@.validated_send == Some(validated@),
                None => self@.validated_send.is_none(),
            },
    {
        self.validated_send.peek()
    }

    /// Serves the command `func_id` on the payload `input` for the contract
    /// at `caller`, as far as the bridge can without the host's subsystems.
    ///
    /// An id that names no command fails with `InvalidCommand` and changes
    /// nothing. A payload that does not decode fails and changes nothing.
    pub fn call(
        &mut self,
        meter: &mut GasMeter,
        caller: &[u8; 32],
        func_id: u16,
        input: &[u8],
    ) -> (step: Result<Step, Error>)
        requires
            old(meter)@.wf(),
        ensures
            final(meter)@.wf(),
            (final(self)@, final(meter)@, spec_step_view(step)) == old(self)@.call(
                old(meter)@,
                caller@,
                func_id,
                input@,
            ),
    {
        let command = match Command::from_func_id(func_id) {
            Ok(command) => command,
            Err(e) => {
                return Err(e);
            },
        };
        match command {
            Command::PrepareExecute => match decode_message(input) {
                Ok(message) => Ok(Step::Weigh(message)),
                Err(e) => Err(e),
            },
            Command::Execute => {
                let prepared = match self.prepared_execute.take() {
                    Ok(prepared) => prepared,
                    Err(e) => {
                        return Err(e);
                    },
                };
                match meter.charge_weight(prepared.weight) {
                    Ok(charged) => Ok(Step::Execute { charged, prepared }),
                    Err(e) => Err(e),
                }
            },
            Command::ValidateSend => match decode_send_input(input) {
                Ok((dest, message)) => {
                    self.validated_send.stage(ValidatedSend { dest, message });
                    Ok(Step::Done(encode_send_acknowledgment()))
                },
                Err(e) => Err(e),
            },
            Command::Send => match self.validated_send.take() {
                Ok(validated) => Ok(Step::Send(validated)),
                Err(e) => Err(e),
            },
            Command::NewQuery => match decode_new_query_input(input) {
                Ok((timeout, match_querier)) => Ok(
                    Step::NewQuery(
                        QueryRequest { responder: Location::account(caller), timeout, match_querier },
                    ),
                ),
                Err(e) => Err(e),
            },
            Command::TakeResponse => match decode_query_id(input) {
                Ok(query_id) => Ok(Step::TakeResponse(query_id)),
                Err(e) => Err(e),
            },
        }
    }

    /// Ends the command that stages an execution, with what the weigher made
    /// of `message`.
    ///
    /// With a price, `message` and the price are staged, in place of whatever
    /// was staged before, and the encoded price is the command's output.
    /// Without one the command fails with `CannotWeigh` and the session stays
    /// as it was.
    pub fn prepare_execute(&mut self, message: Message, weighed: Option<Weight>) -> (output:
        Result<Vec<u8>, Error>)
        ensures
            final(self)@ == old(self)@.prepare_execute(message@, weighed).0,
            spec_encoded_view(output) == match old(self)@.prepare_execute(message@, weighed).1 {
                Ok(weight) => Ok::<Seq<u8>, Error>(
                    weight_encoding(weight.ref_time, weight.proof_size),
                ),
                Err(e) => Err::<Seq<u8>, Error>(e),
            },
    {
        match weighed {
            Some(weight) => {
                self.prepared_execute.stage(PreparedExecution { message, weight });
                Ok(encode_weight(weight))
            },
            None => Err(Error::CannotWeigh),
        }
    }

    /// Ends a commit of the execute lane, with what the executor reported.
    ///
    /// The unused part of the charge goes back to the budget, whether or not
    /// the message ran to its end. The command succeeds exactly when it did.
    /// A report of more weight used than was charged is a fault of the
    /// host's accounting and no admissible argument.
    pub fn finish_execute(meter: &mut GasMeter, charged: ChargedAmount, outcome: Outcome) -> (end:
        Result<(), Error>)
        requires
            old(meter)@.wf(),
            outcome.spec_weight_used().spec_all_lte(charged@),
        ensures
            final(meter)@.wf(),
            final(meter)@ == old(meter)@.adjust(charged@, outcome.spec_weight_used()),
            end == spec_finish_execute(outcome),
    {
        meter.adjust_weight(charged, outcome.weight_used());
        if outcome.is_complete() {
            Ok(())
        } else {
            Err(Error::ExecutionFailed)
        }
    }

    /// Ends a commit of the send lane, with whether the router took the
    /// message.
    pub fn finish_send(sent: bool) -> (end: Result<(), Error>)
        ensures
            end == spec_finish_send(sent),
    {
        if sent {
            Ok(())
        } else {
            Err(Error::SendFailed)
        }
    }

    /// Ends the registration of a query: the id that the store gave is the
    /// command's output, in eight bytes, lowest first.
    pub fn finish_new_query(query_id: u64) -> (output: Vec<u8>)
        ensures
            output@ == spec_u64_le_bytes(query_id),
    {
        encode_query_id(query_id)
    }

    /// Ends a poll, with what the store knows of the query.
    ///
    /// A pending query is no failure: its output says that no response is
    /// there yet. A query that is not found is a failure of its own, so that
    /// a caller polling in a loop can tell "try again" from "stop".
    pub fn finish_take_response(status: &QueryResponseStatus) -> (output: Result<Vec<u8>, Error>)
        ensures
            spec_encoded_view(output) == spec_finish_take_response(status@),
    {
        match status {
            QueryResponseStatus::Ready { response, at } => encode_optional_response(Some(response)),
            QueryResponseStatus::Pending { timeout } => encode_optional_response(None),
            QueryResponseStatus::UnexpectedVersion => Err(Error::XcmVersionNotSupported),
            QueryResponseStatus::NotFound => Err(Error::QueryNotFound),
        }
    }
}

} // verus!
