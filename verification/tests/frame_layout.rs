use planar_video::frame::{plane_slice, validate_frame, FrameError, Plane};

fn marker_frame(width: u32, height: u32) -> Vec<u8> {
    // Three planes with distinguishable per-plane marker bytes: each byte
    // encodes its plane (hundreds) and its row (remainder).
    let wh = (width * height) as usize;
    let mut data = Vec::with_capacity(3 * wh);
    for plane in 0..3u32 {
        for row in 0..height {
            for _col in 0..width {
                data.push((plane * 100 + row % 100) as u8);
            }
        }
    }
    data
}

#[test]
fn accepts_exact_frame() {
    let data = vec![0u8; 3 * 4 * 3];
    assert_eq!(validate_frame(&data, 4, 3), Ok(()));
}

#[test]
fn accepts_longer_frame() {
    let data = vec![0u8; 3 * 4 * 3 + 1];
    assert_eq!(validate_frame(&data, 4, 3), Ok(()));
}

#[test]
fn rejects_one_byte_short() {
    let data = vec![0u8; 3 * 4 * 3 - 1];
    assert_eq!(validate_frame(&data, 4, 3), Err(FrameError::TooShort));
}

#[test]
fn rejects_empty_for_positive_dims() {
    let data: Vec<u8> = Vec::new();
    assert_eq!(validate_frame(&data, 1, 1), Err(FrameError::TooShort));
}

#[test]
fn accepts_empty_for_zero_dims() {
    let data: Vec<u8> = Vec::new();
    assert_eq!(validate_frame(&data, 0, 17), Ok(()));
}

#[test]
fn plane_slice_reads_designated_segments() {
    // Offset correctness: each plane matches only its own segment; the V
    // plane read begins at byte offset 2*W*H.
    let (w, h) = (5u32, 4u32);
    let wh = (w * h) as usize;
    let data = marker_frame(w, h);
    let y = plane_slice(&data, w, h, Plane::Y).unwrap();
    let u = plane_slice(&data, w, h, Plane::U).unwrap();
    let v = plane_slice(&data, w, h, Plane::V).unwrap();
    assert_eq!(y.as_slice(), &data[0..wh]);
    assert_eq!(u.as_slice(), &data[wh..2 * wh]);
    assert_eq!(v.as_slice(), &data[2 * wh..3 * wh]);
    // The markers tell the segments apart, so no two planes agree.
    assert_ne!(y, u);
    assert_ne!(u, v);
    assert_ne!(y, v);
}

#[test]
fn plane_slice_rejects_short_buffer() {
    let data = vec![1u8; 10];
    assert_eq!(plane_slice(&data, 2, 2, Plane::V), Err(FrameError::TooShort));
}

#[test]
fn plane_isolation_constant_segments() {
    // Y all 255, U all 128, V all 0: each plane reads back uniformly as
    // its own constant.
    let (w, h) = (6u32, 5u32);
    let wh = (w * h) as usize;
    let mut data = vec![255u8; wh];
    data.extend(std::iter::repeat(128u8).take(wh));
    data.extend(std::iter::repeat(0u8).take(wh));
    let y = plane_slice(&data, w, h, Plane::Y).unwrap();
    let u = plane_slice(&data, w, h, Plane::U).unwrap();
    let v = plane_slice(&data, w, h, Plane::V).unwrap();
    assert!(y.iter().all(|&b| b == 255));
    assert!(u.iter().all(|&b| b == 128));
    assert!(v.iter().all(|&b| b == 0));
    assert_eq!(y.len(), wh);
    assert_eq!(u.len(), wh);
    assert_eq!(v.len(), wh);
}

#[test]
fn slicing_same_buffer_twice_is_identical() {
    // Slicing is a pure function of the buffer: a second pass over the
    // same bytes yields byte-identical plane contents.
    let (w, h) = (7u32, 3u32);
    let data = marker_frame(w, h);
    for plane in [Plane::Y, Plane::U, Plane::V] {
        let first = plane_slice(&data, w, h, plane).unwrap();
        let second = plane_slice(&data, w, h, plane).unwrap();
        assert_eq!(first, second);
    }
}

#[test]
fn full_resolution_zero_frame() {
    // A 650x487 all-zero Y/U/V buffer is accepted whole and every plane
    // reads back as 650*487 zero bytes.
    let (w, h) = (650u32, 487u32);
    let wh = (w * h) as usize;
    let data = vec![0u8; 3 * wh];
    assert_eq!(data.len(), 949_650);
    assert_eq!(validate_frame(&data, w, h), Ok(()));
    for plane in [Plane::Y, Plane::U, Plane::V] {
        let p = plane_slice(&data, w, h, plane).unwrap();
        assert_eq!(p.len(), wh);
        assert!(p.iter().all(|&b| b == 0));
    }
}
