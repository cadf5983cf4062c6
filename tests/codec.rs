use fbspinner::codec::{
    encode_container, finish_frames, read_frames, read_u32, ContainerHeader, HEADER_LEN,
};
use fbspinner::error::{Error, ErrorKind};
use flate2::write::ZlibEncoder;
use flate2::Compression;
use std::io::Write;

fn compress(raw: &[u8]) -> Vec<u8> {
    let mut enc = ZlibEncoder::new(Vec::new(), Compression::default());
    enc.write_all(raw).unwrap();
    enc.finish().unwrap()
}

fn header(frame_count: u32, height: u32, width: u32, bytes_per_pixel: u32) -> ContainerHeader {
    ContainerHeader { frame_count, height, width, bytes_per_pixel }
}

fn container(h: ContainerHeader, raw: &[u8]) -> Vec<u8> {
    encode_container(&h, &compress(raw))
}

#[test]
fn read_u32_is_little_endian() {
    let b = [0x78, 0x56, 0x34, 0x12, 0xff];
    assert_eq!(read_u32(&b, 0).unwrap(), 0x1234_5678);
    assert_eq!(read_u32(&b, 1).unwrap(), 0xff12_3456);
}

#[test]
fn read_u32_short_input_is_unexpected_eof() {
    let b = [1, 2, 3, 4, 5];
    assert!(matches!(read_u32(&b, 2).unwrap_err().kind, ErrorKind::UnexpectedEof));
    assert!(matches!(read_u32(&[], 0).unwrap_err().kind, ErrorKind::UnexpectedEof));
}

#[test]
fn header_bytes_round_trip() {
    let h = header(7, 0x0102_0304, 640, 4);
    let b = h.to_bytes();
    assert_eq!(b.len(), HEADER_LEN);
    assert_eq!(&b[0..8], &[7, 0, 0, 0, 4, 3, 2, 1]);
    assert_eq!(ContainerHeader::read(&b).unwrap(), h);
}

#[test]
fn decode_two_frames() {
    let data = container(header(2, 2, 2, 1), &[1, 2, 3, 4, 5, 6, 7, 8]);
    let anim = read_frames(&data).unwrap();
    assert_eq!(anim.frames, vec![1, 2, 3, 4, 5, 6, 7, 8]);
    assert_eq!(anim.frame_count, 2);
    assert_eq!(anim.height, 2);
    assert_eq!(anim.width, 2);
    assert_eq!(anim.frame_size, 4);
    assert_eq!(anim.frame(0), &[1, 2, 3, 4]);
    assert_eq!(anim.frame(1), &[5, 6, 7, 8]);
}

#[test]
fn decode_round_trip_larger() {
    let raw: Vec<u8> = (0..3 * 5 * 7 * 3).map(|i| (i * 31 % 251) as u8).collect();
    let data = container(header(3, 5, 7, 3), &raw);
    assert_eq!(read_frames(&data).unwrap().frames, raw);
}

#[test]
fn decode_short_stream_is_unexpected_eof() {
    let data = container(header(3, 2, 2, 1), &[1, 2, 3, 4, 5, 6, 7, 8]);
    assert!(matches!(read_frames(&data).unwrap_err().kind, ErrorKind::UnexpectedEof));
}

#[test]
fn decode_cut_compressed_stream_is_unexpected_eof() {
    let mut data = container(header(2, 2, 2, 1), &[1, 2, 3, 4, 5, 6, 7, 8]);
    data.truncate(HEADER_LEN + 3);
    assert!(matches!(read_frames(&data).unwrap_err().kind, ErrorKind::UnexpectedEof));
}

#[test]
fn decode_extra_data_is_expected_eof() {
    let data = container(header(1, 2, 2, 1), &[1, 2, 3, 4, 5, 6, 7, 8]);
    assert!(matches!(read_frames(&data).unwrap_err().kind, ErrorKind::ExpectedEof));
}

#[test]
fn decode_no_frames_is_empty() {
    let data = container(header(0, 2, 2, 1), &[]);
    let anim = read_frames(&data).unwrap();
    assert!(anim.frames.is_empty());
    assert_eq!(anim.frame_count, 0);
}

#[test]
fn decode_short_header_is_unexpected_eof() {
    let data = [2, 0, 0, 0, 2, 0, 0];
    assert!(matches!(read_frames(&data).unwrap_err().kind, ErrorKind::UnexpectedEof));
}

#[test]
fn decode_huge_total_is_unexpected_eof() {
    let data = container(header(u32::MAX, u32::MAX, u32::MAX, u32::MAX), &[1]);
    assert!(matches!(read_frames(&data).unwrap_err().kind, ErrorKind::UnexpectedEof));
}

#[test]
fn decode_corrupt_stream_is_io() {
    let mut data = header(1, 2, 2, 1).to_bytes();
    data.extend_from_slice(&[0xde, 0xad, 0xbe, 0xef, 0, 1, 2, 3]);
    assert!(matches!(read_frames(&data).unwrap_err().kind, ErrorKind::Io(_)));
}

#[test]
fn finish_frames_judges_length() {
    let h = header(2, 1, 2, 1);
    assert_eq!(finish_frames(h, vec![1, 2, 3, 4]).unwrap().frames, vec![1, 2, 3, 4]);
    assert!(matches!(finish_frames(h, vec![1, 2, 3]).unwrap_err().kind, ErrorKind::UnexpectedEof));
    assert!(matches!(
        finish_frames(h, vec![1, 2, 3, 4, 5]).unwrap_err().kind,
        ErrorKind::ExpectedEof
    ));
    assert!(finish_frames(header(0, 9, 9, 9), vec![]).unwrap().frames.is_empty());
}

#[test]
fn total_len_values() {
    assert_eq!(header(2, 3, 4, 5).total_len(), Some(120));
    assert_eq!(header(2, 3, 4, 5).frame_len(), Some(60));
    assert_eq!(header(5, 0, u32::MAX, u32::MAX).total_len(), Some(0));
    assert_eq!(header(u32::MAX, u32::MAX, u32::MAX, 2).total_len(), None);
}

#[test]
fn encode_container_puts_header_first() {
    let h = header(1, 1, 1, 1);
    let c = encode_container(&h, &[9, 8]);
    assert_eq!(c.len(), HEADER_LEN + 2);
    assert_eq!(&c[HEADER_LEN..], &[9, 8]);
    assert_eq!(ContainerHeader::read(&c).unwrap(), h);
}

#[test]
fn error_messages() {
    assert_eq!(Error::new(ErrorKind::UnexpectedEof).message(), "Unexpected end-of-file");
    assert_eq!(Error::new(ErrorKind::ExpectedEof).message(), "Expected end-of-file");
    let io = std::io::Error::new(std::io::ErrorKind::Other, "disk on fire");
    assert_eq!(Error::new(ErrorKind::Io(io)).message(), "disk on fire");
}
