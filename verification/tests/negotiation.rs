use hermit::client::Client;
use hermit::error::Error;
use hermit::error::LenLimitAdjustmentError;
use hermit::len_limit_msg::AdjustLenLimitRequest;
use hermit::len_limit_msg::AdjustLenLimitResponse;
use hermit::message::Message;

#[test]
fn accepted_request_applies_on_both_sides() {
    let mut requester = Client::new();
    let mut responder = Client::new();
    assert_eq!(requester.current_limit(), 1023);
    assert_eq!(responder.current_limit(), 1023);

    let request_frame = requester.send_len_limit_request(4096).unwrap();
    assert_eq!(request_frame.encode(), vec![0x10, 0x01, 0x00, 0x02, 0x10, 0x00]);

    let request =
        AdjustLenLimitRequest::try_from_message(&Message::parse(&request_frame.encode()).unwrap())
            .unwrap();
    let response_frame = responder.recv_len_limit_request(request).unwrap();
    assert_eq!(response_frame.encode(), vec![0x11, 0x01, 0x00, 0x01, 0x01]);
    assert_eq!(responder.current_limit(), 4096);

    let response =
        AdjustLenLimitResponse::try_from_message(&Message::parse(&response_frame.encode()).unwrap())
            .unwrap();
    requester.recv_len_limit_response(response).unwrap();
    assert_eq!(requester.current_limit(), 4096);
}

#[test]
fn concurrent_requests_are_both_rejected() {
    let mut left = Client::new();
    let mut right = Client::new();

    let left_frame = left.send_len_limit_request(2048).unwrap();
    let right_frame = right.send_len_limit_request(8192).unwrap();

    let to_right =
        AdjustLenLimitRequest::try_from_message(&Message::parse(&left_frame.encode()).unwrap())
            .unwrap();
    let to_left =
        AdjustLenLimitRequest::try_from_message(&Message::parse(&right_frame.encode()).unwrap())
            .unwrap();

    let right_resp = right.recv_len_limit_request(to_right).unwrap();
    let left_resp = left.recv_len_limit_request(to_left).unwrap();
    assert_eq!(right_resp.encode(), vec![0x11, 0x01, 0x00, 0x01, 0x00]);
    assert_eq!(left_resp.encode(), vec![0x11, 0x01, 0x00, 0x01, 0x00]);

    let resp_for_left =
        AdjustLenLimitResponse::try_from_message(&Message::parse(&right_resp.encode()).unwrap())
            .unwrap();
    let resp_for_right =
        AdjustLenLimitResponse::try_from_message(&Message::parse(&left_resp.encode()).unwrap())
            .unwrap();
    left.recv_len_limit_response(resp_for_left).unwrap();
    right.recv_len_limit_response(resp_for_right).unwrap();

    assert_eq!(left.current_limit(), 1023);
    assert_eq!(right.current_limit(), 1023);
}

#[test]
fn second_request_while_outstanding_is_an_error() {
    let mut client = Client::new();
    client.send_len_limit_request(2048).unwrap();
    let err = client.send_len_limit_request(3000).unwrap_err();
    assert!(matches!(
        err,
        Error::LenLimitAdjustment(LenLimitAdjustmentError::OngoingRequest(2048))
    ));
}

#[test]
fn invalid_limit_is_an_error_before_sending() {
    let mut client = Client::new();
    let err = client.send_len_limit_request(100).unwrap_err();
    assert!(matches!(
        err,
        Error::LenLimitAdjustment(LenLimitAdjustmentError::InvalidLimit(100))
    ));
    assert_eq!(client.current_limit(), 1023);
}

#[test]
fn response_without_request_is_an_error() {
    let mut client = Client::new();
    let err = client.recv_len_limit_response(AdjustLenLimitResponse::from_bool(true)).unwrap_err();
    assert!(matches!(
        err,
        Error::LenLimitAdjustment(LenLimitAdjustmentError::NoOngoingRequest)
    ));
    assert_eq!(client.current_limit(), 1023);
}

#[test]
fn rejected_request_changes_nothing() {
    let mut requester = Client::new();
    requester.send_len_limit_request(2048).unwrap();
    requester.recv_len_limit_response(AdjustLenLimitResponse::from_bool(false)).unwrap();
    assert_eq!(requester.current_limit(), 1023);

    // The request is settled: a new one may go out.
    assert!(requester.send_len_limit_request(2048).is_ok());
}

#[test]
fn acceptable_range_governs_responses() {
    let mut responder = Client::new();
    responder.adjust_acceptable_len_limit_range(2000, 3000);

    let low = AdjustLenLimitRequest::try_from_usize(1500).unwrap();
    let frame = responder.recv_len_limit_request(low).unwrap();
    assert_eq!(frame.encode()[4], 0x00);
    assert_eq!(responder.current_limit(), 1023);

    let fitting = AdjustLenLimitRequest::try_from_usize(2500).unwrap();
    let frame = responder.recv_len_limit_request(fitting).unwrap();
    assert_eq!(frame.encode()[4], 0x01);
    assert_eq!(responder.current_limit(), 2500);
}

#[test]
fn len_limit_range_intersects_with_negotiable_range() {
    let mut state = hermit::len_limit::LenLimit::new();
    let (lo, hi) = state.adjust_acceptable_range(100, 100000);
    assert_eq!((lo, hi), (1023, 32767));
    let (lo, hi) = state.adjust_acceptable_range(2000, 3000);
    assert_eq!((lo, hi), (2000, 3000));
}

#[test]
fn config_records_a_requested_limit() {
    let config = hermit::len_limit::Config::new();
    assert_eq!(config.requested_len_limit, None);
    let config = config.request_len_limit(4096);
    assert_eq!(config.requested_len_limit, Some(4096));
}
