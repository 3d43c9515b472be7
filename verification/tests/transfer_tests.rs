use arcana_launcher::progress::{Fraction, InstallPhase, ProgressChannel};
use arcana_launcher::transfer::{classify_response, TransferError, TransferTracker};

fn fraction_value(f: Fraction) -> f64 {
    f.num as f64 / f.den as f64
}

#[test]
fn download_fractions_non_decreasing_and_final_one() {
    // Chunks summing to the declared total: the reported fractions never
    // fall, and the last one is exactly 1.0.
    let total: u64 = 100;
    let chunks: [u64; 5] = [10, 0, 40, 25, 25];
    let mut ch = ProgressChannel::new();
    let mut t = TransferTracker::begin(total);
    let mut last = 0.0_f64;
    for len in chunks {
        t.record_chunk(len, &mut ch);
        match ch.get() {
            InstallPhase::Downloading(f) => {
                let v = fraction_value(f);
                assert!(v >= last);
                last = v;
            },
            _ => panic!("expected a downloading phase"),
        }
    }
    assert_eq!(last, 1.0);
}

#[test]
fn download_fraction_clamps_overshooting_chunk() {
    // A final chunk past the declared total must not push the fraction
    // over 1.0.
    let mut ch = ProgressChannel::new();
    let mut t = TransferTracker::begin(10);
    t.record_chunk(8, &mut ch);
    t.record_chunk(8, &mut ch);
    match ch.get() {
        InstallPhase::Downloading(f) => {
            assert_eq!(f.num, 10);
            assert_eq!(f.den, 10);
        },
        _ => panic!("expected a downloading phase"),
    }
}

#[test]
fn response_success_with_length_proceeds() {
    assert_eq!(classify_response(200, Some(1234)), Ok(1234));
    assert_eq!(classify_response(299, Some(1)), Ok(1));
}

#[test]
fn response_error_status_fails_request() {
    assert_eq!(classify_response(404, Some(10)), Err(TransferError::RequestFailed));
    assert_eq!(classify_response(500, None), Err(TransferError::RequestFailed));
    assert_eq!(classify_response(199, Some(10)), Err(TransferError::RequestFailed));
    assert_eq!(classify_response(300, Some(10)), Err(TransferError::RequestFailed));
}

#[test]
fn response_without_length_is_rejected() {
    assert_eq!(classify_response(200, None), Err(TransferError::NoContentLength));
    assert_eq!(classify_response(204, Some(0)), Err(TransferError::NoContentLength));
}
