//! The wire format of the bridge: versioned envelopes in, encoded results out.
//!
//! Messages, locations and responses are held in their encoded form, in the
//! latest version of the format. The grammar of instructions, locations and
//! responses is the codec's; what this module decides is how a payload is
//! framed and which failure an unacceptable payload gives.

use crate::error::Error;
use crate::weight::Weight;
use parity_scale_codec::{DecodeLimit, Encode};
use staging_xcm::latest::{AssetId, Fungibility, Junction, Junctions, MultiAsset, MultiLocation, Xcm};
use staging_xcm::{VersionedMultiAsset, VersionedMultiLocation, VersionedResponse, VersionedXcm};
use vstd::prelude::*;
use vstd::slice::slice_subrange;

verus! {

/// How deep a payload may nest before decoding gives up.
pub const MAX_DECODE_NESTING: u32 = 256;

/// Why the codec did not take a payload.
#[derive(Clone, Copy, Debug, PartialEq, Eq, Structural)]
pub enum WireFault {
    /// The bytes are not the encoding of a value, or bytes are left over.
    Malformed,
    /// The value decodes, but has no form in the latest version.
    Inconvertible,
}

/// The encoding, in the latest version, of the message that `input` holds in
/// its own version; the fault where `input` holds no message within `limit`
/// levels of nesting, or one that the latest version cannot express.
pub uninterp spec fn latest_xcm(limit: u32, input: Seq<u8>) -> Result<Seq<u8>, WireFault>;

/// As `latest_xcm`, for a location.
pub uninterp spec fn latest_location(limit: u32, input: Seq<u8>) -> Result<Seq<u8>, WireFault>;

/// How many bytes of `input` follow the versioned location that it starts
/// with; `None` where it starts with none.
pub uninterp spec fn location_rest_len(limit: u32, input: Seq<u8>) -> Option<usize>;

/// The versioned form of the response that `response` encodes in the latest
/// version; `None` where `response` encodes none.
pub uninterp spec fn versioned_response(limit: u32, response: Seq<u8>) -> Option<Seq<u8>>;

/// The encoding of a weight of the two given parts.
pub uninterp spec fn weight_encoding(ref_time: u64, proof_size: u64) -> Seq<u8>;

/// The versioned encoding of `amount` units of the asset that the local
/// consensus system itself identifies.
pub uninterp spec fn here_asset_encoding(amount: u128) -> Seq<u8>;

/// Calls `DecodeLimit::decode_all_with_depth_limit` for `VersionedXcm<()>` on
/// `input`, then `TryFrom<VersionedXcm<()>>` for the latest `Xcm<()>`, and
/// encodes what comes out with `Encode::encode`.
///
/// Trusted: the outcome depends on `limit` and the bytes alone. A decoding
/// error is reported as `Malformed`, a failed conversion as `Inconvertible`.
#[verifier::external_body]
fn xcm_into_latest(limit: u32, input: &[u8]) -> (r: Result<Vec<u8>, WireFault>)
    ensures
        spec_wire_view(r) == latest_xcm(limit, input@),
{
    let mut bytes = input;
    let versioned = match VersionedXcm::<()>::decode_all_with_depth_limit(limit, &mut bytes) {
        Ok(versioned) => versioned,
        Err(_) => return Err(WireFault::Malformed),
    };
    match Xcm::<()>::try_from(versioned) {
        Ok(latest) => Ok(latest.encode()),
        Err(()) => Err(WireFault::Inconvertible),
    }
}

/// Calls `DecodeLimit::decode_all_with_depth_limit` for
/// `VersionedMultiLocation` on `input`, then `TryFrom<VersionedMultiLocation>`
/// for the latest `MultiLocation`, and encodes what comes out.
///
/// Trusted: the outcome depends on `limit` and the bytes alone. A decoding
/// error is reported as `Malformed`, a failed conversion as `Inconvertible`.
#[verifier::external_body]
fn location_into_latest(limit: u32, input: &[u8]) -> (r: Result<Vec<u8>, WireFault>)
    ensures
        spec_wire_view(r) == latest_location(limit, input@),
{
    let mut bytes = input;
    let versioned = match VersionedMultiLocation::decode_all_with_depth_limit(limit, &mut bytes) {
        Ok(versioned) => versioned,
        Err(_) => return Err(WireFault::Malformed),
    };
    match MultiLocation::try_from(versioned) {
        Ok(latest) => Ok(latest.encode()),
        Err(()) => Err(WireFault::Inconvertible),
    }
}

/// Calls `DecodeLimit::decode_with_depth_limit` for `VersionedMultiLocation`
/// on a cursor over `input` and reports how many bytes the cursor has left.
///
/// Trusted: the count depends on `limit` and the bytes alone, and the cursor
/// only ever moves forward within `input`, so no more is left than there was.
#[verifier::external_body]
fn location_rest(limit: u32, input: &[u8]) -> (r: Option<usize>)
    ensures
        r == location_rest_len(limit, input@),
        r matches Some(n) ==> n <= input@.len(),
{
    let mut rest = input;
    match VersionedMultiLocation::decode_with_depth_limit(limit, &mut rest) {
        Ok(_) => Some(rest.len()),
        Err(_) => None,
    }
}

/// Calls `DecodeLimit::decode_all_with_depth_limit` for the latest `Response`
/// on `response`, wraps it with `VersionedResponse::from` and encodes it.
///
/// Trusted: the outcome depends on `limit` and the bytes alone.
#[verifier::external_body]
fn response_into_versioned(limit: u32, response: &[u8]) -> (r: Option<Vec<u8>>)
    ensures
        spec_bytes_view(r) == versioned_response(limit, response@),
{
    let mut bytes = response;
    match staging_xcm::latest::Response::decode_all_with_depth_limit(limit, &mut bytes) {
        Ok(latest) => Some(VersionedResponse::from(latest).encode()),
        Err(_) => None,
    }
}

/// Calls `Encode::encode` on the `sp_weights::Weight` that
/// `Weight::from_parts` makes of the two parts.
///
/// Trusted: the bytes depend on the two parts alone.
#[verifier::external_body]
fn weight_into_bytes(ref_time: u64, proof_size: u64) -> (r: Vec<u8>)
    ensures
        r@ == weight_encoding(ref_time, proof_size),
{
    sp_weights::Weight::from_parts(ref_time, proof_size).encode()
}

/// Builds the `MultiAsset` of `amount` fungible units identified by
/// `MultiLocation::here()`, wraps it with `VersionedMultiAsset::from` and
/// encodes it.
///
/// Trusted: the bytes depend on `amount` alone. For no units they are the
/// version tag `3`, the index `0` of an asset identified by a location, `0`
/// parents, the index `0` of the empty interior, the index `0` of a fungible
/// and the compact form `0` of the amount.
#[verifier::external_body]
fn here_asset_into_bytes(amount: u128) -> (r: Vec<u8>)
    ensures
        r@ == here_asset_encoding(amount),
        amount == 0 ==> r@ == seq![3u8, 0u8, 0u8, 0u8, 0u8, 0u8],
{
    let asset = MultiAsset {
        id: AssetId::Concrete(MultiLocation::here()),
        fun: Fungibility::Fungible(amount),
    };
    VersionedMultiAsset::from(asset).encode()
}

/// Builds the `MultiLocation` with `parents` parents whose interior is the
/// one junction `AccountId32` of no given network and the given `id`, and
/// encodes it.
///
/// Trusted: the encoding is the parent count, the index `1` of the
/// one-junction interior, the index `1` of the account junction, `0` for the
/// absent network, and the 32 bytes of `id`.
#[verifier::external_body]
fn account_location_into_bytes(parents: u8, id: &[u8; 32]) -> (r: Vec<u8>)
    ensures
        r@ == spec_account_location(parents, id@),
{
    MultiLocation::new(parents, Junctions::X1(Junction::from(*id))).encode()
}

/// What a codec outcome holds, as plain sequences.
pub open spec fn spec_wire_view(r: Result<Vec<u8>, WireFault>) -> Result<Seq<u8>, WireFault> {
    match r {
        Ok(bytes) => Ok(bytes@),
        Err(fault) => Err(fault),
    }
}

/// What optional bytes hold, as a plain sequence.
pub open spec fn spec_bytes_view(r: Option<Vec<u8>>) -> Option<Seq<u8>> {
    match r {
        Some(bytes) => Some(bytes@),
        None => None,
    }
}

/// The encoding of the location, `parents` levels up, of the account `id`.
pub open spec fn spec_account_location(parents: u8, id: Seq<u8>) -> Seq<u8> {
    seq![parents, 1u8, 1u8, 0u8] + id
}

/// A message in the latest version of the format, encoded.
#[derive(Debug)]
pub struct Message {
    encoded: Vec<u8>,
}

impl View for Message {
    type V = Seq<u8>;

    closed spec fn view(&self) -> Seq<u8> {
        self.encoded@
    }
}

impl Message {
    /// The encoded instructions.
    pub fn as_bytes(&self) -> (bytes: &[u8])
        ensures
            bytes@ == self@,
    {
        self.encoded.as_slice()
    }
}

/// A location in the latest version of the format, encoded.
#[derive(Debug)]
pub struct Location {
    encoded: Vec<u8>,
}

impl View for Location {
    type V = Seq<u8>;

    closed spec fn view(&self) -> Seq<u8> {
        self.encoded@
    }
}

impl Location {
    /// The encoded location.
    pub fn as_bytes(&self) -> (bytes: &[u8])
        ensures
            bytes@ == self@,
    {
        self.encoded.as_slice()
    }

    /// The location of the account `id` within the local consensus system:
    /// no parents, and the account as the sole junction.
    pub fn account(id: &[u8; 32]) -> (location: Location)
        ensures
            location@ == spec_account_location(0, id@),
    {
        Location { encoded: account_location_into_bytes(0, id) }
    }
}

/// Whether `tag` opens a message in a version that the codec knows.
pub open spec fn spec_is_message_version(tag: u8) -> bool {
    tag == 2 || tag == 3
}

/// Whether `tag` opens a location in a version that the codec knows.
pub open spec fn spec_is_location_version(tag: u8) -> bool {
    tag == 1 || tag == 3
}

#[verifier::when_used_as_spec(spec_is_message_version)]
pub fn is_message_version(tag: u8) -> (known: bool)
    ensures
        known == spec_is_message_version(tag),
{
    tag == 2 || tag == 3
}

#[verifier::when_used_as_spec(spec_is_location_version)]
pub fn is_location_version(tag: u8) -> (known: bool)
    ensures
        known == spec_is_location_version(tag),
{
    tag == 1 || tag == 3
}

/// The failure of the bridge that a fault of the codec gives.
pub open spec fn spec_fault_error(fault: WireFault) -> Error {
    match fault {
        WireFault::Malformed => Error::DecodingFailed,
        WireFault::Inconvertible => Error::XcmVersionNotSupported,
    }
}

/// What the bridge makes of the codec's outcome for a payload.
pub open spec fn spec_from_wire(outcome: Result<Seq<u8>, WireFault>) -> Result<Seq<u8>, Error> {
    match outcome {
        Ok(bytes) => Ok(bytes),
        Err(fault) => Err(spec_fault_error(fault)),
    }
}

/// The message that `input` carries, or why it carries none.
///
/// An empty payload is malformed. A payload whose first byte is no known
/// message version is rejected for its version, whatever follows. Anything
/// else is as the codec finds it.
pub open spec fn spec_decode_message(input: Seq<u8>) -> Result<Seq<u8>, Error> {
    if input.len() == 0 {
        Err(Error::DecodingFailed)
    } else if !spec_is_message_version(input[0]) {
        Err(Error::XcmVersionNotSupported)
    } else {
        spec_from_wire(latest_xcm(MAX_DECODE_NESTING, input))
    }
}

/// As `spec_decode_message`, for a location.
pub open spec fn spec_decode_location(input: Seq<u8>) -> Result<Seq<u8>, Error> {
    if input.len() == 0 {
        Err(Error::DecodingFailed)
    } else if !spec_is_location_version(input[0]) {
        Err(Error::XcmVersionNotSupported)
    } else {
        spec_from_wire(latest_location(MAX_DECODE_NESTING, input))
    }
}

/// What a decoded message holds, as a plain sequence.
pub open spec fn spec_message_view(r: Result<Message, Error>) -> Result<Seq<u8>, Error> {
    match r {
        Ok(message) => Ok(message@),
        Err(e) => Err(e),
    }
}

/// What a decoded location holds, as a plain sequence.
pub open spec fn spec_location_view(r: Result<Location, Error>) -> Result<Seq<u8>, Error> {
    match r {
        Ok(location) => Ok(location@),
        Err(e) => Err(e),
    }
}

/// Takes the codec's outcome for a message payload: the message, or
/// `DecodingFailed` for a malformed payload and `XcmVersionNotSupported` for
/// one that the latest version cannot express.
pub fn message_from_wire(outcome: Result<Vec<u8>, WireFault>) -> (r: Result<Message, Error>)
    ensures
        spec_message_view(r) == spec_from_wire(spec_wire_view(outcome)),
{
    match outcome {
        Ok(encoded) => Ok(Message { encoded }),
        Err(WireFault::Malformed) => Err(Error::DecodingFailed),
        Err(WireFault::Inconvertible) => Err(Error::XcmVersionNotSupported),
    }
}

/// Takes the codec's outcome for a location payload, as `message_from_wire`.
pub fn location_from_wire(outcome: Result<Vec<u8>, WireFault>) -> (r: Result<Location, Error>)
    ensures
        spec_location_view(r) == spec_from_wire(spec_wire_view(outcome)),
{
    match outcome {
        Ok(encoded) => Ok(Location { encoded }),
        Err(WireFault::Malformed) => Err(Error::DecodingFailed),
        Err(WireFault::Inconvertible) => Err(Error::XcmVersionNotSupported),
    }
}

/// Decodes a versioned message that fills `input` and brings it to the
/// latest version.
pub fn decode_message(input: &[u8]) -> (r: Result<Message, Error>)
    ensures
        spec_message_view(r) == spec_decode_message(input@),
{
    if input.len() == 0 {
        return Err(Error::DecodingFailed);
    }
    if !is_message_version(input[0]) {
        return Err(Error::XcmVersionNotSupported);
    }
    message_from_wire(xcm_into_latest(MAX_DECODE_NESTING, input))
}

/// Decodes a versioned location that fills `input` and brings it to the
/// latest version.
pub fn decode_location(input: &[u8]) -> (r: Result<Location, Error>)
    ensures
        spec_location_view(r) == spec_decode_location(input@),
{
    if input.len() == 0 {
        return Err(Error::DecodingFailed);
    }
    if !is_location_version(input[0]) {
        return Err(Error::XcmVersionNotSupported);
    }
    location_from_wire(location_into_latest(MAX_DECODE_NESTING, input))
}

/// A response to a query in the latest version of the format, encoded.
#[derive(Debug)]
pub struct Response {
    encoded: Vec<u8>,
}

impl View for Response {
    type V = Seq<u8>;

    closed spec fn view(&self) -> Seq<u8> {
        self.encoded@
    }
}

impl Response {
    /// Holds the encoding that the query store handed out.
    pub fn from_encoded(encoded: Vec<u8>) -> (response: Response)
        ensures
            response@ == encoded@,
    {
        Response { encoded }
    }

    /// The encoded response.
    pub fn as_bytes(&self) -> (bytes: &[u8])
        ensures
            bytes@ == self@,
    {
        self.encoded.as_slice()
    }
}

/// The number that the first four bytes spell, lowest byte first.
pub open spec fn spec_le_u32(bytes: Seq<u8>) -> u32
    recommends
        bytes.len() >= 4,
{
    (bytes[0] as int + bytes[1] as int * 0x100 + bytes[2] as int * 0x1_0000 + bytes[3] as int
        * 0x100_0000) as u32
}

/// The number that the first eight bytes spell, lowest byte first.
pub open spec fn spec_le_u64(bytes: Seq<u8>) -> u64
    recommends
        bytes.len() >= 8,
{
    (spec_le_u32(bytes) as int + spec_le_u32(bytes.skip(4)) as int * 0x1_0000_0000) as u64
}

/// The eight bytes of `value`, lowest byte first: each byte is what is left
/// of the value, modulo 256, once the bytes before it are divided away.
pub open spec fn spec_u64_le_bytes(value: u64) -> Seq<u8> {
    let v1 = value / 0x100;
    let v2 = v1 / 0x100;
    let v3 = v2 / 0x100;
    let v4 = v3 / 0x100;
    let v5 = v4 / 0x100;
    let v6 = v5 / 0x100;
    let v7 = v6 / 0x100;
    seq![
        (value % 0x100) as u8,
        (v1 % 0x100) as u8,
        (v2 % 0x100) as u8,
        (v3 % 0x100) as u8,
        (v4 % 0x100) as u8,
        (v5 % 0x100) as u8,
        (v6 % 0x100) as u8,
        (v7 % 0x100) as u8,
    ]
}

/// The query id whose low half is `val0` and whose high half is `val1`.
pub open spec fn spec_query_id_from_parts(val0: u32, val1: u32) -> u64 {
    (val0 as int + val1 as int * 0x1_0000_0000) as u64
}

/// `bytes` from position `from` on.
pub open spec fn spec_tail(bytes: Seq<u8>, from: int) -> Seq<u8> {
    bytes.subrange(from, bytes.len() as int)
}

/// The destination and the message that `input` carries one after the
/// other, or why it does not.
///
/// The destination is judged first: an empty payload is malformed, an
/// unknown version tag is rejected, and the location must decode and have a
/// form in the latest version. What follows it must be a message, whole.
pub open spec fn spec_decode_send_input(input: Seq<u8>) -> Result<(Seq<u8>, Seq<u8>), Error> {
    if input.len() == 0 {
        Err(Error::DecodingFailed)
    } else if !spec_is_location_version(input[0]) {
        Err(Error::XcmVersionNotSupported)
    } else {
        match location_rest_len(MAX_DECODE_NESTING, input) {
            None => Err(Error::DecodingFailed),
            Some(rest_len) => {
                let at = input.len() - rest_len;
                match spec_decode_location(input.subrange(0, at)) {
                    Err(e) => Err(e),
                    Ok(dest) => match spec_decode_message(spec_tail(input, at)) {
                        Err(e) => Err(e),
                        Ok(message) => Ok((dest, message)),
                    },
                }
            },
        }
    }
}

/// The timeout and the querier to match that `input` carries, or why it
/// does not: four bytes of timeout, lowest first, then a location, whole.
pub open spec fn spec_decode_new_query_input(input: Seq<u8>) -> Result<(u32, Seq<u8>), Error> {
    if input.len() < 4 {
        Err(Error::DecodingFailed)
    } else {
        match spec_decode_location(spec_tail(input, 4)) {
            Err(e) => Err(e),
            Ok(querier) => Ok((spec_le_u32(input), querier)),
        }
    }
}

/// The query id that `input` starts with: eight bytes, lowest first.
pub open spec fn spec_decode_query_id(input: Seq<u8>) -> Result<u64, Error> {
    if input.len() < 8 {
        Err(Error::DecodingFailed)
    } else {
        Ok(spec_le_u64(input))
    }
}

/// What a decoded pair of destination and message holds.
pub open spec fn spec_send_input_view(r: Result<(Location, Message), Error>) -> Result<
    (Seq<u8>, Seq<u8>),
    Error,
> {
    match r {
        Ok((dest, message)) => Ok((dest@, message@)),
        Err(e) => Err(e),
    }
}

/// What a decoded pair of timeout and querier holds.
pub open spec fn spec_new_query_input_view(r: Result<(u32, Location), Error>) -> Result<
    (u32, Seq<u8>),
    Error,
> {
    match r {
        Ok((timeout, querier)) => Ok((timeout, querier@)),
        Err(e) => Err(e),
    }
}

/// Reads four bytes, lowest first.
pub fn le_u32(bytes: &[u8]) -> (value: u32)
    requires
        bytes@.len() >= 4,
    ensures
        value == spec_le_u32(bytes@),
{
    let b0: u32 = bytes[0] as u32;
    let b1: u32 = bytes[1] as u32;
    let b2: u32 = bytes[2] as u32;
    let b3: u32 = bytes[3] as u32;
    b0 + b1 * 0x100 + b2 * 0x1_0000 + b3 * 0x100_0000
}

/// Joins the two halves of a query id that came as primitive arguments.
pub fn query_id_from_parts(val0: u32, val1: u32) -> (id: u64)
    ensures
        id == spec_query_id_from_parts(val0, val1),
{
    let low: u64 = val0 as u64;
    let high: u64 = val1 as u64;
    low + high * 0x1_0000_0000
}

/// Reads eight bytes, lowest first.
pub fn le_u64(bytes: &[u8]) -> (value: u64)
    requires
        bytes@.len() >= 8,
    ensures
        value == spec_le_u64(bytes@),
{
    let low = le_u32(bytes);
    let high = le_u32(slice_subrange(bytes, 4, bytes.len()));
    query_id_from_parts(low, high)
}

/// Decodes the payload of the command that stages a send.
pub fn decode_send_input(input: &[u8]) -> (r: Result<(Location, Message), Error>)
    ensures
        spec_send_input_view(r) == spec_decode_send_input(input@),
{
    if input.len() == 0 {
        return Err(Error::DecodingFailed);
    }
    if !is_location_version(input[0]) {
        return Err(Error::XcmVersionNotSupported);
    }
    let rest_len = match location_rest(MAX_DECODE_NESTING, input) {
        Some(rest_len) => rest_len,
        None => {
            return Err(Error::DecodingFailed);
        },
    };
    let at = input.len() - rest_len;
    let dest = match decode_location(slice_subrange(input, 0, at)) {
        Ok(dest) => dest,
        Err(e) => {
            return Err(e);
        },
    };
    match decode_message(slice_subrange(input, at, input.len())) {
        Ok(message) => Ok((dest, message)),
        Err(e) => Err(e),
    }
}

/// Decodes the payload of the command that registers a query.
pub fn decode_new_query_input(input: &[u8]) -> (r: Result<(u32, Location), Error>)
    ensures
        spec_new_query_input_view(r) == spec_decode_new_query_input(input@),
{
    if input.len() < 4 {
        return Err(Error::DecodingFailed);
    }
    let timeout = le_u32(input);
    match decode_location(slice_subrange(input, 4, input.len())) {
        Ok(querier) => Ok((timeout, querier)),
        Err(e) => Err(e),
    }
}

/// Decodes a query id from the input buffer.
pub fn decode_query_id(input: &[u8]) -> (r: Result<u64, Error>)
    ensures
        r == spec_decode_query_id(input@),
{
    if input.len() < 8 {
        return Err(Error::DecodingFailed);
    }
    Ok(le_u64(input))
}

/// Encodes a query id for the output buffer.
pub fn encode_query_id(id: u64) -> (bytes: Vec<u8>)
    ensures
        bytes@ == spec_u64_le_bytes(id),
{
    let mut bytes: Vec<u8> = Vec::new();
    let v1: u64 = id / 0x100;
    let v2: u64 = v1 / 0x100;
    let v3: u64 = v2 / 0x100;
    let v4: u64 = v3 / 0x100;
    let v5: u64 = v4 / 0x100;
    let v6: u64 = v5 / 0x100;
    let v7: u64 = v6 / 0x100;
    bytes.push((id % 0x100) as u8);
    bytes.push((v1 % 0x100) as u8);
    bytes.push((v2 % 0x100) as u8);
    bytes.push((v3 % 0x100) as u8);
    bytes.push((v4 % 0x100) as u8);
    bytes.push((v5 % 0x100) as u8);
    bytes.push((v6 % 0x100) as u8);
    bytes.push((v7 % 0x100) as u8);
    bytes
}

/// Encodes a cost for the output buffer.
pub fn encode_weight(weight: Weight) -> (bytes: Vec<u8>)
    ensures
        bytes@ == weight_encoding(weight.ref_time, weight.proof_size),
{
    weight_into_bytes(weight.ref_time, weight.proof_size)
}

/// The acknowledgment of a staged send: the versioned encoding of no units
/// of the local asset, which stands in for a price that the format does not
/// yet give.
pub open spec fn spec_send_acknowledgment() -> Seq<u8> {
    seq![3u8, 0u8, 0u8, 0u8, 0u8, 0u8]
}

/// Encodes the acknowledgment of a staged send for the output buffer.
pub fn encode_send_acknowledgment() -> (bytes: Vec<u8>)
    ensures
        bytes@ == spec_send_acknowledgment(),
        bytes@ == here_asset_encoding(0),
{
    here_asset_into_bytes(0)
}

/// What the caller is handed for a polled query that has not failed: one
/// zero byte while the response is awaited, and a one followed by the
/// versioned response once it is there. A response that the codec does not
/// know as one is malformed.
pub open spec fn spec_encode_optional_response(response: Option<Seq<u8>>) -> Result<
    Seq<u8>,
    Error,
> {
    match response {
        None => Ok(seq![0u8]),
        Some(latest) => spec_optional_response_from_wire(
            Some(versioned_response(MAX_DECODE_NESTING, latest)),
        ),
    }
}

/// As `spec_encode_optional_response`, over what the codec made of a
/// response that is there.
pub open spec fn spec_optional_response_from_wire(versioned: Option<Option<Seq<u8>>>) -> Result<
    Seq<u8>,
    Error,
> {
    match versioned {
        None => Ok(seq![0u8]),
        Some(None) => Err(Error::DecodingFailed),
        Some(Some(bytes)) => Ok(seq![1u8] + bytes),
    }
}

/// What encoded bytes hold, as a plain sequence.
pub open spec fn spec_encoded_view(r: Result<Vec<u8>, Error>) -> Result<Seq<u8>, Error> {
    match r {
        Ok(bytes) => Ok(bytes@),
        Err(e) => Err(e),
    }
}

/// What the codec's outcome for an optional response holds.
pub open spec fn spec_versioned_view(versioned: Option<Option<Vec<u8>>>) -> Option<
    Option<Seq<u8>>,
> {
    match versioned {
        None => None,
        Some(inner) => Some(spec_bytes_view(inner)),
    }
}

/// Frames what the codec made of an optional response: `None` where no
/// response is there yet, `Some(None)` where the codec refused the one that
/// is, `Some(Some(bytes))` with its versioned encoding otherwise.
pub fn optional_response_from_wire(versioned: Option<Option<Vec<u8>>>) -> (r: Result<
    Vec<u8>,
    Error,
>)
    ensures
        spec_encoded_view(r) == spec_optional_response_from_wire(spec_versioned_view(versioned)),
{
    let mut out: Vec<u8> = Vec::new();
    match versioned {
        None => {
            out.push(0u8);
            Ok(out)
        },
        Some(None) => Err(Error::DecodingFailed),
        Some(Some(mut bytes)) => {
            out.push(1u8);
            out.append(&mut bytes);
            Ok(out)
        },
    }
}

/// Encodes an optional response for the output buffer.
pub fn encode_optional_response(response: Option<&Response>) -> (r: Result<Vec<u8>, Error>)
    ensures
        spec_encoded_view(r) == spec_encode_optional_response(
            match response {
                Some(latest) => Some(latest@),
                None => None,
            },
        ),
{
    match response {
        None => optional_response_from_wire(None),
        Some(latest) => optional_response_from_wire(
            Some(response_into_versioned(MAX_DECODE_NESTING, latest.as_bytes())),
        ),
    }
}

/// A query id read from the buffer is the one that its two halves, read as
/// primitive arguments, make: both ways of passing it decode alike.
pub proof fn lemma_query_id_read_styles_agree(input: Seq<u8>)
    requires
        input.len() >= 8,
    ensures
        spec_decode_query_id(input) == Ok::<u64, Error>(
            spec_query_id_from_parts(spec_le_u32(input), spec_le_u32(input.skip(4))),
        ),
{
}

/// A query id is read back from the bytes it was written as.
pub proof fn lemma_query_id_round_trip(id: u64)
    ensures
        spec_u64_le_bytes(id).len() == 8,
        spec_decode_query_id(spec_u64_le_bytes(id)) == Ok::<u64, Error>(id),
{
}

/// A payload tagged with a version that the codec does not know is rejected
/// for its version, whatever its remaining bytes are.
pub proof fn lemma_unknown_version_rejected(input: Seq<u8>)
    requires
        input.len() > 0,
        !spec_is_message_version(input[0]),
    ensures
        spec_decode_message(input) == Err::<Seq<u8>, Error>(Error::XcmVersionNotSupported),
{
}

} // verus!
