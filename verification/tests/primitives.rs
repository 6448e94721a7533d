use xac::codec::Reader;
use xac::mesh::calculate_faces;
use xac::model::XacError;

fn put_i32(out: &mut Vec<u8>, v: i32) {
    out.extend_from_slice(&v.to_le_bytes());
}

// Round trip: encoding a string of arbitrary byte values (not valid
// text) and decoding it yields the original bytes back, one-to-one.
#[test]
fn string_round_trip_arbitrary_bytes() {
    let original: Vec<u8> = vec![0x00, 0xFF, 0x80, 0x7F, 0x0A, 0xC3, 0x28];
    let mut data = Vec::new();
    put_i32(&mut data, original.len() as i32);
    data.extend_from_slice(&original);
    let mut r = Reader::new(&data);
    let decoded = r.read_string().unwrap();
    assert_eq!(decoded, original);
    assert_eq!(r.pos, data.len());
}

#[test]
fn string_round_trip_empty() {
    let mut data = Vec::new();
    put_i32(&mut data, 0);
    let mut r = Reader::new(&data);
    assert_eq!(r.read_string().unwrap(), Vec::<u8>::new());
    assert_eq!(r.pos, 4);
}

// A negative string length reads no bytes at all.
#[test]
fn negative_string_length_reads_nothing() {
    let mut data = Vec::new();
    put_i32(&mut data, -5);
    data.extend_from_slice(b"leftover");
    let mut r = Reader::new(&data);
    assert_eq!(r.read_string().unwrap(), Vec::<u8>::new());
    assert_eq!(r.pos, 4);
}

#[test]
fn string_longer_than_the_stream_is_a_short_read() {
    let mut data = Vec::new();
    put_i32(&mut data, 10);
    data.extend_from_slice(b"abc");
    let mut r = Reader::new(&data);
    assert_eq!(r.read_string(), Err(XacError::ShortRead { offset: 4 }));
}

#[test]
fn little_endian_scalars() {
    let data: Vec<u8> = vec![
        0x78, 0x56, 0x34, 0x12, // 0x12345678
        0xFF, 0xFF, 0xFF, 0xFF, // -1
        0xFE, 0xFF, // -2 as i16
        0x00, // false
        0x2A, // true (any non-zero)
    ];
    let mut r = Reader::new(&data);
    assert_eq!(r.read_u32().unwrap(), 0x12345678);
    assert_eq!(r.read_i32().unwrap(), -1);
    assert_eq!(r.read_i16().unwrap(), -2);
    assert!(!r.read_bool().unwrap());
    assert!(r.read_bool().unwrap());
    assert_eq!(r.pos, data.len());
}

#[test]
fn i32_extremes() {
    let mut data = Vec::new();
    put_i32(&mut data, i32::MIN);
    put_i32(&mut data, i32::MAX);
    put_i32(&mut data, 0);
    let mut r = Reader::new(&data);
    assert_eq!(r.read_i32().unwrap(), i32::MIN);
    assert_eq!(r.read_i32().unwrap(), i32::MAX);
    assert_eq!(r.read_i32().unwrap(), 0);
}

#[test]
fn float_bits_survive_exactly() {
    let values = [0.0f32, -0.0, 1.5, -2.25, f32::INFINITY, f32::NAN];
    let mut data = Vec::new();
    for v in values {
        data.extend_from_slice(&v.to_bits().to_le_bytes());
    }
    let mut r = Reader::new(&data);
    for v in values {
        assert_eq!(r.read_u32().unwrap(), v.to_bits());
    }
}

#[test]
fn vectors_and_colors() {
    let data: Vec<u8> = vec![
        0x00, 0x00, 0x80, 0x3F, // 1.0
        0x00, 0x00, 0x00, 0x40, // 2.0
        0x00, 0x00, 0x40, 0x40, // 3.0
        10, 20, 30, // a color triple
    ];
    let mut r = Reader::new(&data);
    let v = r.read_vec3().unwrap();
    assert_eq!(v.x, 1.0f32.to_bits());
    assert_eq!(v.y, 2.0f32.to_bits());
    assert_eq!(v.z, 3.0f32.to_bits());
    let c = r.read_color8().unwrap();
    assert_eq!((c.x, c.y, c.z), (10, 20, 30));
}

#[test]
fn short_read_reports_the_offset() {
    let data: Vec<u8> = vec![1, 2];
    let mut r = Reader::new(&data);
    assert_eq!(r.read_u32(), Err(XacError::ShortRead { offset: 0 }));
}

#[test]
fn faces_group_indices_in_quads_shifted_down() {
    let indices: Vec<i32> = vec![4, 3, 2, 1, 8, 7, 6, 5];
    let faces = calculate_faces(&indices);
    assert_eq!(faces.len(), 2);
    assert_eq!(faces[0], [3, 2, 1, 0]);
    assert_eq!(faces[1], [7, 6, 5, 4]);
}

#[test]
fn faces_of_an_empty_stream() {
    let faces = calculate_faces(&Vec::new());
    assert_eq!(faces.len(), 0);
}
