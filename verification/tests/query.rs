use pallet_contracts_xcm::chain_ext::XCMExtension;
use pallet_contracts_xcm::codec::Response;
use pallet_contracts_xcm::error::{status_of, Error, XCMError};
use pallet_contracts_xcm::host::QueryResponseStatus;
use parity_scale_codec::Encode;
use staging_xcm::v3;
use staging_xcm::VersionedResponse;

fn ready(response: v3::Response) -> QueryResponseStatus {
    QueryResponseStatus::Ready { response: Response::from_encoded(response.encode()), at: 12 }
}

#[test]
fn pending_query_is_no_error() {
    let output = XCMExtension::finish_take_response(&QueryResponseStatus::Pending { timeout: 9 });
    assert_eq!(output, Ok(vec![0]));
    assert_eq!(status_of(&output), 0);
    let none: Option<VersionedResponse> = None;
    assert_eq!(output.unwrap(), none.encode());
}

#[test]
fn ready_query_hands_out_the_versioned_response() {
    let response = v3::Response::ExecutionResult(None);
    let output = XCMExtension::finish_take_response(&ready(response.clone()));
    assert_eq!(status_of(&output), 0);
    let bytes = output.unwrap();
    assert_eq!(bytes, Some(VersionedResponse::V3(response)).encode());
    assert_eq!(bytes[0], 1);
    assert_eq!(bytes[1], 3);
}

#[test]
fn query_not_found_is_an_error_of_its_own() {
    let output = XCMExtension::finish_take_response(&QueryResponseStatus::NotFound);
    assert_eq!(output, Err(Error::QueryNotFound));
    assert_eq!(status_of(&output), 1);
    assert_eq!(XCMError::from_status_code(status_of(&output)), Err(XCMError::QueryNotFound));
}

#[test]
fn unexpected_version_is_version_not_supported() {
    let output = XCMExtension::finish_take_response(&QueryResponseStatus::UnexpectedVersion);
    assert_eq!(output, Err(Error::XcmVersionNotSupported));
    assert_eq!(status_of(&output), 3);
}

#[test]
fn poll_sequence_pending_ready_not_found() {
    // The store's answers over the life of one query, in order.
    let answers = [
        QueryResponseStatus::Pending { timeout: 100 },
        ready(v3::Response::Null),
        QueryResponseStatus::NotFound,
    ];
    let outputs: Vec<_> = answers.iter().map(XCMExtension::finish_take_response).collect();
    assert_eq!(outputs[0], Ok(vec![0]));
    assert_eq!(outputs[1], Ok(vec![1, 3, 0]));
    assert_eq!(outputs[2], Err(Error::QueryNotFound));
    assert_ne!(outputs[0], outputs[1]);
    assert_ne!(outputs[0], outputs[2]);
    assert_ne!(outputs[1], outputs[2]);
}

#[test]
fn ready_query_with_broken_response_is_malformed() {
    let status =
        QueryResponseStatus::Ready { response: Response::from_encoded(vec![99]), at: 0 };
    assert_eq!(XCMExtension::finish_take_response(&status), Err(Error::DecodingFailed));
}
