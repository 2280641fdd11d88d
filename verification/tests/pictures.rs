use niri::geometry::{FloatBits, Size};
use niri::render_helpers::memory::MemoryBuffer;
use niri::utils::png::{write_png_rgba8, PictureError};
use niri::utils::transform::Transform;

#[test]
fn a_picture_becomes_a_file() {
    let pixels: Vec<u8> = vec![255, 0, 0, 255, 0, 255, 0, 255];
    let file = write_png_rgba8(2, 1, &pixels).unwrap();
    assert_eq!(&file[..8], &[137, 80, 78, 71, 13, 10, 26, 10]);
    assert_eq!(&file[12..16], b"IHDR");
    assert_eq!(&file[16..26], &[0, 0, 0, 2, 0, 0, 0, 1, 8, 6]);
    assert_eq!(&file[file.len() - 8..file.len() - 4], b"IEND");
}

#[test]
fn a_picture_of_the_wrong_size_is_refused() {
    assert_eq!(write_png_rgba8(2, 1, &vec![0; 7]), Err(PictureError::WrongSize));
    assert_eq!(write_png_rgba8(0, 1, &vec![]), Err(PictureError::WrongSize));
    assert_eq!(write_png_rgba8(1, 0, &vec![]), Err(PictureError::WrongSize));
}

#[test]
fn data_have_to_hold_the_picture() {
    let scale = FloatBits { bits: 0x3FF0_0000_0000_0000 };
    // ARGB with eight bits each.
    let argb = 0x34325241;
    let size = Size { w: 4, h: 2 };
    assert!(MemoryBuffer::fits(&vec![1; 32], 32, size));
    let buffer = MemoryBuffer::new(vec![1; 32], argb, 32, size, scale, Transform::Normal);
    assert_eq!(buffer.data().len(), 32);
    assert_eq!(buffer.format(), argb);
    assert_eq!(buffer.size(), size);
    assert_eq!(buffer.scale(), scale);
    assert_eq!(buffer.transform(), Transform::Normal);
    let made = |bytes: usize, bits| {
        MemoryBuffer::from_format(vec![1; bytes], argb, bits, size, scale, Transform::Normal)
    };
    assert_eq!(made(32, Some(32)).unwrap().data().len(), 32);
    assert!(made(31, Some(32)).is_none());
    assert!(made(32, None).is_none());
    assert!(!MemoryBuffer::fits(&vec![1; 31], 32, size));
    assert!(MemoryBuffer::fits(&vec![1; 8], 8, size));
    assert!(!MemoryBuffer::fits(&vec![1; 8], 8, Size { w: -1, h: 2 }));
    assert!(!MemoryBuffer::fits(&vec![1; 8], 32, Size { w: i32::MAX, h: 1 }));
    assert!(MemoryBuffer::fits(&vec![], 32, Size { w: 0, h: 5 }));
}
