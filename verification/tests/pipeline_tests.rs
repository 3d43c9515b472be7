use arcana_launcher::pipeline::{InstallError, InstallPipeline};
use arcana_launcher::progress::{Fraction, InstallPhase, ProgressChannel};
use arcana_launcher::transfer::TransferError;
use arcana_launcher::unpack::UnpackError;
use std::io::Write;

fn small_archive() -> Vec<u8> {
    let mut w = zip::ZipWriter::new(std::io::Cursor::new(Vec::new()));
    let opts = zip::write::SimpleFileOptions::default();
    w.add_directory("assets/", opts).unwrap();
    w.start_file("assets/readme.txt", opts).unwrap();
    w.write_all(b"play me").unwrap();
    w.finish().unwrap().into_inner()
}

#[test]
fn successful_run_ends_idle() {
    // A full run: response, two chunks, unpack, materialize.  The channel
    // reads Idle as soon as the run is over.
    let mut ch = ProgressChannel::new();
    let mut p = InstallPipeline::start(&mut ch);
    assert!(ch.get() == InstallPhase::Downloading(Fraction { num: 0, den: 1 }));
    p.on_response(200, Some(7), &mut ch).unwrap();
    p.on_chunk(3, &mut ch);
    assert!(ch.get() == InstallPhase::Downloading(Fraction { num: 3, den: 7 }));
    p.on_chunk(4, &mut ch);
    assert!(ch.get() == InstallPhase::Downloading(Fraction { num: 7, den: 7 }));
    p.on_transfer_complete(&mut ch);
    assert!(ch.get() == InstallPhase::Extracting(Fraction { num: 0, den: 1 }));
    let plan = p.unpack_archive(small_archive(), &mut ch).unwrap();
    assert_eq!(plan.len(), 2);
    let r = p.finish(true, &mut ch);
    assert!(r.is_ok());
    assert!(ch.get() == InstallPhase::Idle);
}

#[test]
fn http_error_fails_transfer_and_ends_idle() {
    // A 404 answer: the run returns a wrapped RequestFailed and the
    // channel reads Idle again; no archive was ever produced.
    let mut ch = ProgressChannel::new();
    let mut p = InstallPipeline::start(&mut ch);
    let r = p.on_response(404, Some(10), &mut ch);
    assert!(r == Err(InstallError::Transfer(TransferError::RequestFailed)));
    assert!(ch.get() == InstallPhase::Idle);
}

#[test]
fn missing_content_length_fails_transfer() {
    let mut ch = ProgressChannel::new();
    let mut p = InstallPipeline::start(&mut ch);
    let r = p.on_response(200, None, &mut ch);
    assert!(r == Err(InstallError::Transfer(TransferError::NoContentLength)));
    assert!(ch.get() == InstallPhase::Idle);
}

#[test]
fn broken_stream_fails_transfer_and_ends_idle() {
    let mut ch = ProgressChannel::new();
    let mut p = InstallPipeline::start(&mut ch);
    p.on_response(200, Some(100), &mut ch).unwrap();
    p.on_chunk(10, &mut ch);
    let e = p.fail_transfer(TransferError::IoError, &mut ch);
    assert!(e == InstallError::Transfer(TransferError::IoError));
    assert!(ch.get() == InstallPhase::Idle);
}

#[test]
fn escaping_archive_fails_run_with_path_escape() {
    // An archive entry resolving to "../outside.txt" fails the run with
    // PathEscape, wrapped as an unpack error, and nothing is planned.
    let mut w = zip::ZipWriter::new(std::io::Cursor::new(Vec::new()));
    let opts = zip::write::SimpleFileOptions::default();
    w.start_file("../outside.txt", opts).unwrap();
    w.write_all(b"escape").unwrap();
    let bytes = w.finish().unwrap().into_inner();

    let mut ch = ProgressChannel::new();
    let mut p = InstallPipeline::start(&mut ch);
    p.on_response(200, Some(1), &mut ch).unwrap();
    p.on_chunk(1, &mut ch);
    p.on_transfer_complete(&mut ch);
    let r = p.unpack_archive(bytes, &mut ch);
    assert!(matches!(r, Err(InstallError::Unpack(UnpackError::PathEscape))));
    assert!(ch.get() == InstallPhase::Idle);
}

#[test]
fn corrupt_archive_fails_run_with_open_failed() {
    let mut ch = ProgressChannel::new();
    let mut p = InstallPipeline::start(&mut ch);
    p.on_response(200, Some(4), &mut ch).unwrap();
    p.on_chunk(4, &mut ch);
    p.on_transfer_complete(&mut ch);
    let r = p.unpack_archive(b"garbage".to_vec(), &mut ch);
    assert!(matches!(r, Err(InstallError::Unpack(UnpackError::OpenFailed))));
    assert!(ch.get() == InstallPhase::Idle);
}

#[test]
fn failed_materialization_reports_io_error_and_ends_idle() {
    let mut ch = ProgressChannel::new();
    let mut p = InstallPipeline::start(&mut ch);
    p.on_response(200, Some(7), &mut ch).unwrap();
    p.on_chunk(7, &mut ch);
    p.on_transfer_complete(&mut ch);
    let _plan = p.unpack_archive(small_archive(), &mut ch).unwrap();
    let r = p.finish(false, &mut ch);
    assert!(r == Err(InstallError::Unpack(UnpackError::IoError)));
    assert!(ch.get() == InstallPhase::Idle);
}

#[test]
fn unreadable_archive_file_fails_run_with_io_error() {
    let mut ch = ProgressChannel::new();
    let mut p = InstallPipeline::start(&mut ch);
    p.on_response(200, Some(4), &mut ch).unwrap();
    p.on_chunk(4, &mut ch);
    p.on_transfer_complete(&mut ch);
    let e = p.fail_unpack(&mut ch);
    assert!(e == InstallError::Unpack(UnpackError::IoError));
    assert!(ch.get() == InstallPhase::Idle);
}

#[test]
fn channel_reports_latest_write() {
    let mut ch = ProgressChannel::new();
    assert!(ch.get() == InstallPhase::Idle);
    ch.set(InstallPhase::Downloading(Fraction { num: 1, den: 4 }));
    assert!(ch.get() == InstallPhase::Downloading(Fraction { num: 1, den: 4 }));
    ch.set(InstallPhase::Idle);
    assert!(ch.get() == InstallPhase::Idle);
}
