use pipewire_yolo_client::text::hex_line;
use pipewire_yolo_client::frame::{frame_from_chunk, mapping_length, Chunk};
use pipewire_yolo_client::pod::Rectangle;
use pipewire_yolo_client::video::{PixelError, VideoData};

fn frame(len: usize, stride: usize) -> VideoData<4> {
    let bytes: Vec<u8> = (0..len).map(|i| (i % 251) as u8).collect();
    VideoData::new(bytes::Bytes::from(bytes), stride)
}

#[test]
fn resolution_counts_rows_and_pixels() {
    let f = frame(16 * 4 * 3, 16 * 4);
    assert_eq!(f.resolution(), Rectangle { width: 16, height: 3 });
    assert_eq!(f.size(), 48);
    // Padded rows: 10 pixels in rows of 48 bytes.
    let f = frame(48 * 2, 48);
    assert_eq!(f.resolution(), Rectangle { width: 12, height: 2 });
}

#[test]
fn pixel_reads_the_bytes_at_row_and_column() {
    let f = frame(16 * 4 * 3, 16 * 4);
    let p = f.pixel(2, 1).unwrap();
    let start = 1 * 64 + 2 * 4;
    assert_eq!(p, [start as u8, start as u8 + 1, start as u8 + 2, start as u8 + 3]);
    assert_eq!(f.pixel(15, 2).unwrap()[3], (2 * 64 + 15 * 4 + 3) as u8);
}

#[test]
fn pixel_outside_the_frame_is_an_error() {
    let f = frame(16 * 4 * 3, 16 * 4);
    assert_eq!(f.pixel(16, 0), Err(PixelError::XOutOfRange));
    assert_eq!(f.pixel(0, 3), Err(PixelError::YOutOfRange));
    assert_eq!(f.pixel(16, 3), Err(PixelError::XOutOfRange));
    assert_eq!(PixelError::XOutOfRange.message(), "EL indice X sobrepasa el ancho");
    assert_eq!(PixelError::YOutOfRange.message(), "EL indice Y sobrepasa el alto");
}

#[test]
fn chunk_inside_memory_gives_a_frame() {
    let mapped: Vec<u8> = (0..100u8).collect();
    let f: VideoData<4> = frame_from_chunk(&Chunk { offset: 10, size: 20, stride: 8 }, &mapped).unwrap();
    assert_eq!(f.bytes.as_ref(), &mapped[10..30]);
    assert_eq!(f.stride, 8);
    let f: VideoData<4> = frame_from_chunk(&Chunk { offset: 0, size: 100, stride: 10 }, &mapped).unwrap();
    assert_eq!(f.bytes.len(), 100);
    let f: VideoData<4> = frame_from_chunk(&Chunk { offset: 0, size: 4, stride: -4 }, &mapped).unwrap();
    assert_eq!(f.stride, -4i32 as usize);
}

#[test]
fn empty_or_overlong_chunk_gives_no_frame() {
    let mapped: Vec<u8> = vec![0; 100];
    assert!(frame_from_chunk::<4>(&Chunk { offset: 0, size: 0, stride: 4 }, &mapped).is_none());
    assert!(frame_from_chunk::<4>(&Chunk { offset: 90, size: 11, stride: 4 }, &mapped).is_none());
    assert!(frame_from_chunk::<4>(&Chunk { offset: 101, size: 1, stride: 4 }, &mapped).is_none());
    assert!(frame_from_chunk::<4>(&Chunk { offset: 0, size: 10, stride: 0 }, &mapped).is_some());
}

#[test]
fn mapping_length_rounds_up_to_pages() {
    assert_eq!(mapping_length(0, 1), 4096);
    assert_eq!(mapping_length(0, 4096), 4096);
    assert_eq!(mapping_length(100, 4000), 8192);
    assert_eq!(mapping_length(0, 0), 0);
    assert_eq!(mapping_length(4096, 1), 8192);
}

#[test]
fn hex_line_gives_two_lowercase_digits_per_byte() {
    let bytes = [0x00u8, 0x0f, 0xa5, 0xff];
    let line: String = hex_line(&bytes).into_iter().collect();
    assert_eq!(line, "00 0f a5 ff");
    let expected = bytes.iter().map(|b| format!("{:02x}", b)).collect::<Vec<_>>().join(" ");
    assert_eq!(line, expected);
    assert!(hex_line(&[]).is_empty());
}
