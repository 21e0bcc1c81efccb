use microhub::payload::{
    appended_payload_len, extract_appended_payload, trailer_offset, ByteRange, PAYLOAD_TRAILER_LEN,
};

const PAYLOAD_MAGIC: &[u8; 8] = b"MHPAYLD1";

fn fake_exe(body: &[u8], payload: Option<&[u8]>) -> Vec<u8> {
    let mut file = body.to_vec();
    if let Some(payload) = payload {
        file.extend_from_slice(payload);
        file.extend_from_slice(&(payload.len() as u64).to_le_bytes());
        file.extend_from_slice(PAYLOAD_MAGIC);
    }
    file
}

/// The size of a file and its last bytes, as far as they can be read.
fn ends(file: &[u8]) -> (u64, Vec<u8>) {
    let size = file.len() as u64;
    let trailer = match trailer_offset(size) {
        Some(offset) => file[offset as usize..].to_vec(),
        None => vec![],
    };
    (size, trailer)
}

fn len_of(file: &[u8]) -> Option<u64> {
    let (size, trailer) = ends(file);
    appended_payload_len(size, &trailer)
}

fn extracted(file: &[u8]) -> Result<Vec<u8>, String> {
    let (size, trailer) = ends(file);
    let range = extract_appended_payload(size, &trailer)?;
    Ok(file[range.start as usize..(range.start + range.len) as usize].to_vec())
}

#[test]
fn finds_and_extracts_an_appended_payload() {
    let payload = b"this stands in for the runtime archive";
    let exe = fake_exe(b"MZ fake executable body", Some(payload));

    assert_eq!(len_of(&exe), Some(payload.len() as u64));
    assert_eq!(extracted(&exe).unwrap(), payload);
}

#[test]
fn ignores_an_executable_without_a_payload() {
    let exe = fake_exe(b"MZ fake executable body with no payload", None);
    assert_eq!(len_of(&exe), None);
}

#[test]
fn ignores_a_bogus_length() {
    let mut file = b"MZ short".to_vec();
    // A length larger than the file itself must not be trusted.
    file.extend_from_slice(&u64::MAX.to_le_bytes());
    file.extend_from_slice(PAYLOAD_MAGIC);

    assert_eq!(len_of(&file), None);
}

#[test]
fn reports_a_missing_payload() {
    assert_eq!(extracted(b"MZ nothing behind this body"), Err("no payload appended".to_string()));
    assert_eq!(extracted(b""), Err("no payload appended".to_string()));
}

#[test]
fn ignores_an_empty_payload() {
    let exe = fake_exe(b"MZ body", Some(b""));
    assert_eq!(len_of(&exe), None);
}

#[test]
fn a_payload_may_fill_the_file() {
    let exe = fake_exe(b"", Some(b"x"));
    assert_eq!(len_of(&exe), Some(1));
    assert_eq!(extracted(&exe).unwrap(), b"x");
    let (size, trailer) = ends(&exe);
    assert_eq!(extract_appended_payload(size, &trailer), Ok(ByteRange { start: 0, len: 1 }));
}

#[test]
fn a_length_one_too_large_is_refused() {
    let mut file = b"1234567".to_vec();
    file.extend_from_slice(&8u64.to_le_bytes());
    file.extend_from_slice(PAYLOAD_MAGIC);
    assert_eq!(len_of(&file), None);
    let mut file = b"12345678".to_vec();
    file.extend_from_slice(&8u64.to_le_bytes());
    file.extend_from_slice(PAYLOAD_MAGIC);
    assert_eq!(len_of(&file), Some(8));
}

#[test]
fn lengths_that_overflow_are_refused() {
    for len in [u64::MAX, u64::MAX - 15, u64::MAX - 16] {
        let mut trailer = len.to_le_bytes().to_vec();
        trailer.extend_from_slice(PAYLOAD_MAGIC);
        assert_eq!(appended_payload_len(1 << 40, &trailer), None);
    }
}

#[test]
fn lengths_are_little_endian() {
    let mut trailer = vec![0x01, 0x02, 0x03, 0x04, 0x05, 0x06, 0x07, 0x08];
    trailer.extend_from_slice(PAYLOAD_MAGIC);
    assert_eq!(appended_payload_len(u64::MAX, &trailer), Some(0x0807_0605_0403_0201));
    assert_eq!(
        extract_appended_payload(u64::MAX, &trailer),
        Ok(ByteRange {
            start: u64::MAX - 16 - 0x0807_0605_0403_0201,
            len: 0x0807_0605_0403_0201,
        })
    );
}

#[test]
fn every_byte_of_the_mark_counts() {
    for i in 8..16 {
        let mut exe = fake_exe(b"MZ body", Some(b"payload"));
        let at = exe.len() - 16 + i;
        exe[at] ^= 1;
        assert_eq!(len_of(&exe), None);
    }
}

#[test]
fn a_short_file_has_no_trailer() {
    assert_eq!(PAYLOAD_TRAILER_LEN, 16);
    assert_eq!(trailer_offset(15), None);
    assert_eq!(trailer_offset(16), Some(0));
    assert_eq!(trailer_offset(100), Some(84));
    assert_eq!(appended_payload_len(100, b"too short"), None);
}
