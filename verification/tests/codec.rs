use thread_pool::codec::{DefaultCodec, FrameProgress};
use thread_pool::handler::NetHandler;
use thread_pool::system::{default_runtime_worker_threads, runtime_worker_threads};

#[test]
fn encode_prefixes_big_endian_length() {
    assert_eq!(
        DefaultCodec::encode(b"hi"),
        vec![0, 0, 0, 0, 0, 0, 0, 2, b'h', b'i']
    );
    assert_eq!(DefaultCodec::encode(b""), vec![0u8; 8]);
}

#[test]
fn encode_long_message_header() {
    let data = vec![7u8; 300];
    let frame = DefaultCodec::encode(&data);
    assert_eq!(&frame[..8], &[0, 0, 0, 0, 0, 0, 1, 44]);
    assert_eq!(&frame[8..], &data[..]);
}

#[test]
fn frame_length_reads_big_endian() {
    assert_eq!(DefaultCodec::frame_length(&[0, 0, 0, 0, 0, 0, 1, 2]), 258);
    assert_eq!(DefaultCodec::frame_length(&[1, 0, 0, 0, 0, 0, 0, 0]), 1u64 << 56);
    assert_eq!(DefaultCodec::frame_length(&[0xff; 8]), u64::MAX);
    assert_eq!(DefaultCodec::frame_length(&[0; 8]), 0);
}

#[test]
fn frame_round_trip() {
    let data = b"client hello 3".to_vec();
    let frame = DefaultCodec::encode(&data);
    let mut header = [0u8; 8];
    header.copy_from_slice(&frame[..8]);
    assert_eq!(DefaultCodec::frame_length(&header), data.len() as u64);
    assert_eq!(&frame[8..], &data[..]);
    let again = DefaultCodec::frame_length(&header).to_be_bytes();
    assert_eq!(again, header);
}

#[test]
fn on_message_reports_text() {
    assert_eq!(
        NetHandler::on_message("Hello, server!".as_bytes().to_vec()),
        "on_message: Hello, server!".to_string()
    );
    assert_eq!(
        NetHandler::on_message("héllo".as_bytes().to_vec()),
        "on_message: héllo".to_string()
    );
    assert_eq!(NetHandler::on_message(vec![]), "on_message: ".to_string());
}

#[test]
fn frame_progress_after_header() {
    let header = [0, 0, 0, 0, 0, 0, 0, 5];
    let p = FrameProgress::after_header(&header, Some(8));
    assert_eq!(p.length(), 5);
    assert_eq!(p.received(), 0);
    assert!(!p.is_complete());
    let empty = FrameProgress::after_header(&header, Some(0));
    assert_eq!(empty.length(), 0);
    assert!(empty.is_complete());
    let failed = FrameProgress::after_header(&header, None);
    assert_eq!(failed.length(), 0);
    assert!(failed.is_complete());
}

#[test]
fn frame_progress_counts_reads() {
    let header = [0, 0, 0, 0, 0, 0, 0, 5];
    let mut p = FrameProgress::after_header(&header, Some(8));
    p.record_read(Some(2));
    assert_eq!(p.received(), 2);
    p.record_read(None);
    assert_eq!(p.received(), 2);
    assert!(!p.is_complete());
    p.record_read(Some(3));
    assert_eq!(p.received(), 5);
    assert!(p.is_complete());
}

#[test]
fn event_lines() {
    assert_eq!(NetHandler::on_open(), "on_open");
    assert_eq!(NetHandler::on_close(), "on_close");
    assert_eq!(NetHandler::on_error(), "on_error");
}

#[test]
fn runtime_workers_double_cpus() {
    assert_eq!(runtime_worker_threads(1), 2);
    assert_eq!(runtime_worker_threads(6), 12);
    assert_eq!(runtime_worker_threads(usize::MAX), usize::MAX - 1);
    let n = default_runtime_worker_threads();
    assert!(n >= 2 && n % 2 == 0);
}
