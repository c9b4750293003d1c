use gardenbot::bmp::{wrapping_neg_u32, BMPHeader, InfoHeader};
use gardenbot::screenshot::{Rectangle, Screenshot};

#[test]
fn file_header_bytes() {
    let h = BMPHeader::new(100);
    let bytes = h.to_bytes();
    assert_eq!(
        bytes,
        vec![
            0x42, 0x4d, // "BM"
            154, 0, 0, 0, // 100 + 54 bytes total
            0, 0, 0, 0, // reserved
            54, 0, 0, 0, // pixel data offset
        ]
    );
}

#[test]
fn file_header_large_size() {
    let h = BMPHeader::new(0x0102_0304 - 54);
    let bytes = h.to_bytes();
    assert_eq!(&bytes[2..6], &[0x04, 0x03, 0x02, 0x01]);
}

#[test]
fn info_header_bytes() {
    let h = InfoHeader::new(2, wrapping_neg_u32(2));
    let bytes = h.to_bytes();
    assert_eq!(
        bytes,
        vec![
            40, 0, 0, 0, // header size
            2, 0, 0, 0, // width
            0xfe, 0xff, 0xff, 0xff, // height -2: top-down rows
            1, 0, // planes
            24, 0, // bits per pixel
            0, 0, 0, 0, // compression
            0, 0, 0, 0, // raw size
            0, 0, 0, 0, // x resolution
            0, 0, 0, 0, // y resolution
            0, 0, 0, 0, // color table size
            0, 0, 0, 0, // color table min size
        ]
    );
}

#[test]
fn wrapping_neg_values() {
    assert_eq!(wrapping_neg_u32(0), 0);
    assert_eq!(wrapping_neg_u32(1), u32::MAX);
    assert_eq!(wrapping_neg_u32(2), u32::MAX - 1);
}

#[test]
fn bmp_data_of_a_region() {
    // a 2x2 capture: rows stored bottom-up, 3 bytes per pixel
    let shot = Screenshot {
        bgra: vec![0, 1, 2, 3, 4, 5, 6, 7, 8, 9, 10, 11],
        bounds: Rectangle { x: 0, y: 0, w: 2, h: 2 },
    };
    let data = shot.get_bmp_data(Rectangle { x: 0, y: 0, w: 1, h: 2 });
    // rows of 1 pixel are padded from 3 to 4 bytes; 2 rows of 4 bytes
    let mut expected = vec![
        0x42, 0x4d, 62, 0, 0, 0, 0, 0, 0, 0, 54, 0, 0, 0, // file header
        40, 0, 0, 0, 1, 0, 0, 0, 0xfe, 0xff, 0xff, 0xff, 1, 0, 24, 0, // dimensions
        0, 0, 0, 0, 0, 0, 0, 0, 0, 0, 0, 0, 0, 0, 0, 0, 0, 0, 0, 0, 0, 0, 0, 0, // unused fields
    ];
    expected.extend([6, 7, 8, 0]); // top row: second buffer row, padded
    expected.extend([0, 1, 2, 0]); // bottom row: first buffer row, padded
    assert_eq!(data, expected);
}

#[test]
fn blank_bmp_is_headers_and_zeros() {
    let data = gardenbot::screenshot::blank_bmp_data(2, 1);
    // one 2-pixel row: 6 bytes padded to 8
    assert_eq!(data.len(), 54 + 8);
    assert_eq!(&data[0..2], &[0x42, 0x4d]);
    assert_eq!(data[2], 62); // total size
    assert_eq!(&data[18..22], &[2, 0, 0, 0]); // width
    assert_eq!(&data[22..26], &[0xff, 0xff, 0xff, 0xff]); // height -1
    assert!(data[54..].iter().all(|b| *b == 0));
}

#[test]
fn bmp_data_full_capture() {
    let shot = Screenshot {
        bgra: vec![0, 1, 2, 3, 4, 5, 6, 7, 8, 9, 10, 11],
        bounds: Rectangle { x: 0, y: 0, w: 2, h: 2 },
    };
    let data = shot.get_bmp_data(Rectangle { x: 0, y: 0, w: 2, h: 2 });
    // 2-pixel rows take 6 bytes, padded to 8; headers take 54
    assert_eq!(data.len(), 54 + 16);
    assert_eq!(&data[54..62], &[6, 7, 8, 9, 10, 11, 0, 0]);
    assert_eq!(&data[62..70], &[0, 1, 2, 3, 4, 5, 0, 0]);
}
