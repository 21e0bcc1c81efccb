//! A payload appended to an executable.
//!
//! The portable build is one file: the linked binary, then the runtime archive,
//! then a trailer of the archive's length (eight bytes, little endian) and an
//! eight byte mark.

use vstd::bytes::{spec_u64_to_le_bytes, spec_u64_to_le_bytes_to_open};
use vstd::prelude::*;
use vstd::slice::slice_subrange;

verus! {

/// The number of bytes in the trailer.
pub const PAYLOAD_TRAILER_LEN: u64 = 16;

/// The mark that ends the file when a payload is appended: `MHPAYLD1`.
pub open spec fn payload_magic() -> Seq<u8> {
    seq![0x4d, 0x48, 0x50, 0x41, 0x59, 0x4c, 0x44, 0x31]
}

/// The number that eight bytes hold, the least significant byte first.
pub open spec fn le_value(bytes: Seq<u8>) -> int {
    bytes[0] + 0x100 * bytes[1] + 0x1_0000 * bytes[2] + 0x100_0000 * bytes[3] + 0x1_0000_0000
        * bytes[4] + 0x100_0000_0000 * bytes[5] + 0x1_0000_0000_0000 * bytes[6]
        + 0x100_0000_0000_0000 * bytes[7]
}

/// The digits of `n` in base 256, the least significant first.
pub open spec fn le_bytes(n: u64, count: nat) -> Seq<u8>
    decreases count,
{
    if count == 0 {
        Seq::empty()
    } else {
        seq![(n % 256) as u8] + le_bytes(n / 256, (count - 1) as nat)
    }
}

/// The trailer that follows a payload of `len` bytes.
pub open spec fn payload_trailer(len: u64) -> Seq<u8> {
    le_bytes(len, 8) + payload_magic()
}

/// An executable with `payload` appended to `body`.
pub open spec fn with_payload(body: Seq<u8>, payload: Seq<u8>) -> Seq<u8> {
    body + payload + payload_trailer(payload.len() as u64)
}

/// The length that a trailer announces, whether or not it can be true.
pub open spec fn announced_len(trailer: Seq<u8>) -> int {
    le_value(trailer.subrange(0, 8))
}

/// What a file of `size` bytes with these last bytes carries: a payload of that
/// many bytes, or nothing. The mark has to be there, the payload must not be
/// empty, and the payload with its trailer has to fit into the file.
pub open spec fn payload_len(size: int, trailer: Seq<u8>) -> Option<u64> {
    if size >= PAYLOAD_TRAILER_LEN && trailer.len() == PAYLOAD_TRAILER_LEN && trailer.subrange(8, 16)
        == payload_magic() && 0 < announced_len(trailer) <= size - PAYLOAD_TRAILER_LEN {
        Some(announced_len(trailer) as u64)
    } else {
        None
    }
}

/// The last bytes of an image: all that has to be read to find a payload.
pub open spec fn trailer_of(image: Seq<u8>) -> Seq<u8> {
    image.subrange(image.len() - PAYLOAD_TRAILER_LEN, image.len() as int)
}

/// Where the trailer of a file of `size` bytes starts. A file that is shorter
/// than a trailer has none.
pub fn trailer_offset(size: u64) -> (offset: Option<u64>)
    ensures
        offset == (if size >= PAYLOAD_TRAILER_LEN {
            Some((size - PAYLOAD_TRAILER_LEN) as u64)
        } else {
            None
        }),
        offset is Some ==> forall|image: Seq<u8>|
            image.len() == size ==> #[trigger] trailer_of(image) == image.skip(offset->0 as int),
{
    if size < PAYLOAD_TRAILER_LEN {
        None
    } else {
        Some(size - PAYLOAD_TRAILER_LEN)
    }
}

/// Whether the bytes are the payload mark.
fn is_magic(bytes: &[u8]) -> (yes: bool)
    requires
        bytes@.len() == 8,
    ensures
        yes == (bytes@ == payload_magic()),
{
    let yes = bytes[0] == 0x4d && bytes[1] == 0x48 && bytes[2] == 0x50 && bytes[3] == 0x41
        && bytes[4] == 0x59 && bytes[5] == 0x4c && bytes[6] == 0x44 && bytes[7] == 0x31;
    proof {
        if yes {
            assert(bytes@ =~= payload_magic());
        }
    }
    yes
}

/// Reads eight bytes as a number, the least significant byte first.
fn read_le(bytes: &[u8]) -> (n: u64)
    requires
        bytes@.len() == 8,
    ensures
        n == le_value(bytes@),
{
    let low: u64 = bytes[0] as u64 + 0x100 * (bytes[1] as u64) + 0x1_0000 * (bytes[2] as u64)
        + 0x100_0000 * (bytes[3] as u64);
    let high: u64 = bytes[4] as u64 + 0x100 * (bytes[5] as u64) + 0x1_0000 * (bytes[6] as u64)
        + 0x100_0000 * (bytes[7] as u64);
    low + 0x1_0000_0000 * high
}

/// Length of the payload appended to a file of `size` bytes that ends in
/// `trailer`, if one is there.
pub fn appended_payload_len(size: u64, trailer: &[u8]) -> (len: Option<u64>)
    ensures
        len == payload_len(size as int, trailer@),
{
    if size < PAYLOAD_TRAILER_LEN || trailer.len() != 16 {
        return None;
    }
    if !is_magic(slice_subrange(trailer, 8, 16)) {
        return None;
    }
    let len: u64 = read_le(slice_subrange(trailer, 0, 8));
    // A corrupt trailer may announce more than any file can hold.
    match len.checked_add(PAYLOAD_TRAILER_LEN) {
        None => None,
        Some(needed) => if len == 0 || needed > size {
            None
        } else {
            Some(len)
        },
    }
}

/// A run of bytes within a file.
#[derive(Clone, Copy, Debug, PartialEq, Eq, Structural)]
pub struct ByteRange {
    pub start: u64,
    pub len: u64,
}

impl ByteRange {
    /// The bytes that the range names.
    pub open spec fn of(self, image: Seq<u8>) -> Seq<u8> {
        image.subrange(self.start as int, self.start + self.len)
    }
}

/// The bytes to copy out of a file of `size` bytes that ends in `trailer`.
pub fn extract_appended_payload(size: u64, trailer: &[u8]) -> (range: Result<ByteRange, String>)
    ensures
        match payload_len(size as int, trailer@) {
            Some(len) => range == Ok::<ByteRange, String>(
                ByteRange { start: (size - PAYLOAD_TRAILER_LEN - len) as u64, len },
            ),
            None => range matches Err(message) && message@ == "no payload appended"@,
        },
        forall|body: Seq<u8>, payload: Seq<u8>|
            #![trigger with_payload(body, payload)]
            with_payload(body, payload).len() == size && trailer@ == trailer_of(
                with_payload(body, payload),
            ) && payload.len() > 0 ==> range is Ok && (range->Ok_0).of(with_payload(body, payload))
                == payload,
{
    proof {
        assert forall|body: Seq<u8>, payload: Seq<u8>|
            #![trigger with_payload(body, payload)]
            with_payload(body, payload).len() == size && trailer@ == trailer_of(
                with_payload(body, payload),
            ) && payload.len() > 0 implies {
            let len = payload.len() as u64;
            let start = (size - PAYLOAD_TRAILER_LEN - len) as u64;
            &&& payload_len(size as int, trailer@) == Some(len)
            &&& ByteRange { start, len }.of(with_payload(body, payload)) == payload
        } by {
            appended_payload_is_extracted(body, payload);
        }
    }
    match appended_payload_len(size, trailer) {
        Some(len) => Ok(ByteRange { start: size - PAYLOAD_TRAILER_LEN - len, len }),
        None => Err("no payload appended".to_owned()),
    }
}

/// Why a payload could not be copied out.
#[derive(Clone, Copy, Debug, PartialEq, Eq, Structural)]
pub enum CopyFailure {
    /// The size of the executable could not be read.
    NoSize,
    /// The executable could not be opened.
    NotOpened,
    /// The start of the payload could not be reached.
    NoStart,
    /// The file to copy to could not be created.
    NotCreated,
    /// The payload could not be written.
    NotWritten,
}

/// What the user is told about a failure: `source` and `dest` are the two files as
/// they are shown to the user, `detail` is what the system said.
pub open spec fn copy_failure_text(
    failure: CopyFailure,
    source: Seq<char>,
    dest: Seq<char>,
    detail: Seq<char>,
) -> Seq<char> {
    match failure {
        CopyFailure::NoSize => "Could not stat "@ + source + ": "@ + detail,
        CopyFailure::NotOpened => "Could not open "@ + source + ": "@ + detail,
        CopyFailure::NoStart => "Could not seek to the payload: "@ + detail,
        CopyFailure::NotCreated => "Could not create "@ + dest + ": "@ + detail,
        CopyFailure::NotWritten => "Could not write the payload to "@ + dest + ": "@ + detail,
    }
}

/// What the user is told about a failure to copy a payload out.
pub fn copy_error(failure: CopyFailure, source: &str, dest: &str, detail: &str) -> (message: String)
    ensures
        message@ == copy_failure_text(failure, source@, dest@, detail@),
{
    let mut message: String;
    match failure {
        CopyFailure::NoSize => {
            message = "Could not stat ".to_owned();
            message.append(source);
            message.append(": ");
        },
        CopyFailure::NotOpened => {
            message = "Could not open ".to_owned();
            message.append(source);
            message.append(": ");
        },
        CopyFailure::NoStart => {
            message = "Could not seek to the payload: ".to_owned();
        },
        CopyFailure::NotCreated => {
            message = "Could not create ".to_owned();
            message.append(dest);
            message.append(": ");
        },
        CopyFailure::NotWritten => {
            message = "Could not write the payload to ".to_owned();
            message.append(dest);
            message.append(": ");
        },
    }
    message.append(detail);
    message
}

/// What eight digits in base 256 hold is the number they were taken from.
proof fn lemma_le_bytes_hold(n: u64)
    ensures
        le_bytes(n, 8).len() == 8,
        le_value(le_bytes(n, 8)) == n,
{
    reveal_with_fuel(le_bytes, 9);
    let n1 = n / 256;
    let n2 = n1 / 256;
    let n3 = n2 / 256;
    let n4 = n3 / 256;
    let n5 = n4 / 256;
    let n6 = n5 / 256;
    let n7 = n6 / 256;
    assert(le_bytes(n, 8) =~= seq![
        (n % 256) as u8,
        (n1 % 256) as u8,
        (n2 % 256) as u8,
        (n3 % 256) as u8,
        (n4 % 256) as u8,
        (n5 % 256) as u8,
        (n6 % 256) as u8,
        (n7 % 256) as u8,
    ]);
}

/// A payload that was appended is found, and the bytes that are copied out are
/// the bytes that were appended, whatever the executable before them is.
pub proof fn appended_payload_is_extracted(body: Seq<u8>, payload: Seq<u8>)
    requires
        0 < payload.len() <= u64::MAX,
    ensures
        ({
            let image = with_payload(body, payload);
            let len = payload.len() as u64;
            let start = (image.len() - PAYLOAD_TRAILER_LEN - len) as u64;
            &&& payload_len(image.len() as int, trailer_of(image)) == Some(len)
            &&& image.len() <= u64::MAX ==> ByteRange { start, len }.of(image) == payload
        }),
{
    let len = payload.len() as u64;
    let image = with_payload(body, payload);
    let head = le_bytes(len, 8);
    lemma_le_bytes_hold(len);
    assert(trailer_of(image) =~= payload_trailer(len));
    assert(payload_trailer(len).subrange(0, 8) =~= head);
    assert(payload_trailer(len).subrange(8, 16) =~= payload_magic());
    if image.len() <= u64::MAX {
        let start = (image.len() - PAYLOAD_TRAILER_LEN - len) as u64;
        assert(ByteRange { start, len }.of(image) =~= payload);
    }
}

/// A file that does not end in the mark carries no payload.
pub proof fn no_mark_no_payload(image: Seq<u8>)
    requires
        image.len() < 8 || image.subrange(image.len() - 8, image.len() as int) != payload_magic(),
    ensures
        payload_len(image.len() as int, trailer_of(image)) is None,
{
    if image.len() >= PAYLOAD_TRAILER_LEN {
        assert(trailer_of(image).subrange(8, 16) =~= image.subrange(
            image.len() - 8,
            image.len() as int,
        ));
    }
}

/// A length that the file cannot hold is never trusted, the largest included.
pub proof fn oversized_length_is_refused(body: Seq<u8>, len: u64)
    requires
        len > body.len(),
    ensures
        ({
            let image = body + payload_trailer(len);
            payload_len(image.len() as int, trailer_of(image)) is None
        }),
{
    lemma_le_bytes_hold(len);
    let image = body + payload_trailer(len);
    assert(trailer_of(image) =~= payload_trailer(len));
    assert(payload_trailer(len).subrange(0, 8) =~= le_bytes(len, 8));
}

/// The bytes that are copied out lie before the trailer and are never empty.
pub proof fn payload_lies_before_the_trailer(size: u64, trailer: Seq<u8>)
    requires
        payload_len(size as int, trailer) is Some,
    ensures
        0 < payload_len(size as int, trailer)->0,
        0 <= size - PAYLOAD_TRAILER_LEN - payload_len(size as int, trailer)->0,
{
}

/// The length in a trailer is the number whose eight bytes, the least significant first,
/// stand there, and the mark spells `MHPAYLD1`.
pub proof fn trailer_is_little_endian(len: u64)
    ensures
        payload_trailer(len).len() == PAYLOAD_TRAILER_LEN,
        payload_trailer(len).take(8) == spec_u64_to_le_bytes(len),
        announced_len(payload_trailer(len)) == len,
        forall|i: int|
            0 <= i < 8 ==> #[trigger] payload_trailer(len)[8 + i] as char == "MHPAYLD1"@[i],
{
    spec_u64_to_le_bytes_to_open(len);
    lemma_le_bytes_hold(len);
    reveal_with_fuel(le_bytes, 9);
    reveal_strlit("MHPAYLD1");
    let head = payload_trailer(len).take(8);
    assert(head =~= le_bytes(len, 8));
    assert(payload_trailer(len).subrange(0, 8) =~= le_bytes(len, 8));
    assert(len & 0xff == len % 256) by (bit_vector);
    assert((len >> 8) & 0xff == (len / 256) % 256) by (bit_vector);
    assert((len >> 16) & 0xff == (len / 256 / 256) % 256) by (bit_vector);
    assert((len >> 24) & 0xff == (len / 256 / 256 / 256) % 256) by (bit_vector);
    assert((len >> 32) & 0xff == (len / 256 / 256 / 256 / 256) % 256) by (bit_vector);
    assert((len >> 40) & 0xff == (len / 256 / 256 / 256 / 256 / 256) % 256) by (bit_vector);
    assert((len >> 48) & 0xff == (len / 256 / 256 / 256 / 256 / 256 / 256) % 256) by (bit_vector);
    assert((len >> 56) & 0xff == (len / 256 / 256 / 256 / 256 / 256 / 256 / 256) % 256)
        by (bit_vector);
    assert(head =~= spec_u64_to_le_bytes(len));
    assert forall|i: int| 0 <= i < 8 implies #[trigger] payload_trailer(len)[8 + i] as char
        == "MHPAYLD1"@[i] by {
        assert(payload_trailer(len)[8 + i] == payload_magic()[i]);
    }
}

/// Whatever is found in a file was appended to it: the file is an executable with a
/// payload of that length, which is not empty.
pub proof fn what_is_found_was_appended(image: Seq<u8>) -> (parts: (Seq<u8>, Seq<u8>))
    requires
        payload_len(image.len() as int, trailer_of(image)) is Some,
    ensures
        image == with_payload(parts.0, parts.1),
        parts.1.len() == payload_len(image.len() as int, trailer_of(image))->0,
        parts.1.len() > 0,
{
    let trailer = trailer_of(image);
    let len = payload_len(image.len() as int, trailer)->0;
    let start = image.len() - PAYLOAD_TRAILER_LEN - len;
    let body = image.take(start);
    let payload = image.subrange(start, start + len);
    lemma_le_value_is_small(trailer.subrange(0, 8));
    lemma_le_bytes_of_value(trailer.subrange(0, 8));
    assert(payload_trailer(len) =~= trailer);
    assert(with_payload(body, payload) =~= image);
    (body, payload)
}

proof fn lemma_le_value_is_small(bytes: Seq<u8>)
    requires
        bytes.len() == 8,
    ensures
        0 <= le_value(bytes) <= u64::MAX,
{
}

/// Taking off the lowest digit leaves the others.
proof fn lemma_lowest_digit(n: u64, digit: u8, higher: u64, count: nat)
    requires
        n == digit + 0x100 * higher,
        count > 0,
    ensures
        le_bytes(n, count) == seq![digit] + le_bytes(higher, (count - 1) as nat),
{
    assert(n % 256 == digit);
    assert(n / 256 == higher);
}

/// The eight digits of what eight digits hold are those digits.
proof fn lemma_le_bytes_of_value(b: Seq<u8>)
    requires
        b.len() == 8,
    ensures
        le_bytes(le_value(b) as u64, 8) == b,
{
    lemma_le_value_is_small(b);
    let n7 = b[7] as u64;
    let n6 = (b[6] + 0x100 * n7) as u64;
    let n5 = (b[5] + 0x100 * n6) as u64;
    let n4 = (b[4] + 0x100 * n5) as u64;
    let n3 = (b[3] + 0x100 * n4) as u64;
    let n2 = (b[2] + 0x100 * n3) as u64;
    let n1 = (b[1] + 0x100 * n2) as u64;
    let n0 = (b[0] + 0x100 * n1) as u64;
    assert(n0 == le_value(b));
    lemma_lowest_digit(n0, b[0], n1, 8);
    lemma_lowest_digit(n1, b[1], n2, 7);
    lemma_lowest_digit(n2, b[2], n3, 6);
    lemma_lowest_digit(n3, b[3], n4, 5);
    lemma_lowest_digit(n4, b[4], n5, 4);
    lemma_lowest_digit(n5, b[5], n6, 3);
    lemma_lowest_digit(n6, b[6], n7, 2);
    lemma_lowest_digit(n7, b[7], 0, 1);
    assert(le_bytes(0, 0) =~= Seq::empty());
    assert(le_bytes(n0, 8) =~= b);
}

/// An empty payload is none.
pub proof fn empty_payload_is_none(body: Seq<u8>)
    ensures
        ({
            let image = with_payload(body, Seq::empty());
            payload_len(image.len() as int, trailer_of(image)) is None
        }),
{
    let image = with_payload(body, Seq::empty());
    lemma_le_bytes_hold(0);
    assert(trailer_of(image) =~= payload_trailer(0));
    assert(payload_trailer(0).subrange(0, 8) =~= le_bytes(0, 8));
}

/// A message about a payload that could not be copied out ends in what the system said,
/// and names the file that the trouble was with, whatever its path: the executable where
/// it could not be read, the copy where it could not be written.
pub proof fn copy_message_names_the_file(
    failure: CopyFailure,
    source: Seq<char>,
    dest: Seq<char>,
    detail: Seq<char>,
)
    ensures
        copy_failure_text(failure, source, dest, detail) == (match failure {
            CopyFailure::NoSize => "Could not stat "@ + source,
            CopyFailure::NotOpened => "Could not open "@ + source,
            CopyFailure::NoStart => "Could not seek to the payload"@,
            CopyFailure::NotCreated => "Could not create "@ + dest,
            CopyFailure::NotWritten => "Could not write the payload to "@ + dest,
        }) + ": "@ + detail,
{
    reveal_strlit("Could not seek to the payload: ");
    reveal_strlit("Could not seek to the payload");
    reveal_strlit(": ");
    assert("Could not seek to the payload: "@ =~= "Could not seek to the payload"@ + ": "@);
}

/// Nothing is found where the last bytes are not those of a whole trailer, or the file is
/// shorter than one.
pub proof fn half_a_trailer_is_none(size: int, trailer: Seq<u8>)
    requires
        trailer.len() != 16 || size < 16,
    ensures
        payload_len(size, trailer) is None,
{
}

} // verus!
