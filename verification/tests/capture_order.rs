use verba::capture_order::CaptureOrder;
use verba::coordinator::RequestId;

#[test]
fn captures_run_one_at_a_time_and_skip_requests_no_longer_current() {
    let mut order = CaptureOrder::new();
    assert!(order.request(RequestId(1)));
    assert!(!order.request(RequestId(2)));
    assert_eq!(order.finished(RequestId(7), Some(RequestId(2))), None);
    assert_eq!(order.finished(RequestId(1), Some(RequestId(2))), Some(RequestId(2)));
    assert!(!order.request(RequestId(3)));
    assert_eq!(order.finished(RequestId(2), Some(RequestId(4))), None);
    assert!(order.request(RequestId(4)));
}
