use vstd::prelude::*;
use vstd::string::StringExecFns;

verus! {

/// Bytes per pixel of the packed 3-channel, 8-bit-per-channel layout.
pub const BYTES_PER_PIXEL: u32 = 3;

/// Point in time carried by a message header: whole seconds and nanoseconds.
#[derive(Clone, Copy, Debug, PartialEq, Eq, Structural)]
pub struct Stamp {
    pub sec: i32,
    pub nanosec: u32,
}

/// `a` is not later than `b`.
pub open spec fn stamp_le(a: Stamp, b: Stamp) -> bool {
    a.sec < b.sec || (a.sec == b.sec && a.nanosec <= b.nanosec)
}

/// The part of an image message that is fixed for a whole decode session.
#[derive(Debug)]
pub struct ImageHeader {
    pub frame_id: String,
    pub width: u32,
    pub height: u32,
    pub step: u32,
    pub encoding: String,
    pub is_bigendian: u8,
}

/// Why no header can be built for a negotiated geometry.
#[derive(Clone, Copy, Debug, PartialEq, Eq, Structural)]
pub enum HeaderError {
    /// `width * 3` does not fit the row-stride field.
    StrideOverflow,
}

/// The frame-of-reference tag of every message.
pub open spec fn frame_id_text() -> Seq<char> {
    "front_camera"@
}

/// The pixel-encoding tag: 8 bits per channel, 3 channels, packed.
pub open spec fn encoding_text() -> Seq<char> {
    "rgb8"@
}

/// The row stride fits the message's unsigned 32-bit field.
pub open spec fn stride_fits(width: u32) -> bool {
    width * 3 <= u32::MAX
}

/// The header shape that a session of the given geometry publishes under.
pub open spec fn header_matches(h: ImageHeader, width: u32, height: u32, big_endian: bool) -> bool {
    &&& h.frame_id@ == frame_id_text()
    &&& h.width == width
    &&& h.height == height
    &&& h.step == width * 3
    &&& h.encoding@ == encoding_text()
    &&& h.is_bigendian == (if big_endian { 1u8 } else { 0u8 })
}

/// Relies on u16::to_ne_bytes: the two bytes of `x` in the host's byte
/// order, low byte first on a little-endian host, high byte first otherwise.
#[verifier::external_body]
fn native_bytes(x: u16) -> (r: [u8; 2])
    ensures
        (r[0] == (x % 256) as u8 && r[1] == (x / 256) as u8)
            || (r[0] == (x / 256) as u8 && r[1] == (x % 256) as u8),
{
    x.to_ne_bytes()
}

/// Whether the host stores the high byte of an integer first, read from the
/// native representation of the number one.
pub fn big_endian_from_repr(one: [u8; 2]) -> (r: bool)
    ensures
        r == (one[0] != 1),
{
    one[0] != 1
}

/// Whether the host is big-endian: the number one then starts with its zero
/// high byte.
/// Which of the two the host is depends on the machine alone, so nothing
/// more is stated of the result.
pub fn host_is_big_endian() -> (r: bool) {
    let one = native_bytes(1);
    big_endian_from_repr(one)
}

/// The endianness flag of the message format: 1 for big-endian, 0 for
/// little-endian.
pub fn endianness_flag(big_endian: bool) -> (r: u8)
    ensures
        r == (if big_endian { 1u8 } else { 0u8 }),
{
    if big_endian { 1 } else { 0 }
}

/// Builds the header for a session whose decoder output is `width` by
/// `height`: stride three bytes per pixel, the packed RGB tag, and the
/// given byte order. Fails exactly when the stride does not fit.
pub fn build_header(width: u32, height: u32, big_endian: bool) -> (r: Result<ImageHeader, HeaderError>)
    ensures
        r is Err <==> !stride_fits(width),
        r is Err ==> r->Err_0 == HeaderError::StrideOverflow,
        r is Ok ==> header_matches(r->Ok_0, width, height, big_endian),
{
    if width > u32::MAX / BYTES_PER_PIXEL {
        return Err(HeaderError::StrideOverflow);
    }
    Ok(ImageHeader {
        frame_id: String::from_str("front_camera"),
        width,
        height,
        step: width * BYTES_PER_PIXEL,
        encoding: String::from_str("rgb8"),
        is_bigendian: endianness_flag(big_endian),
    })
}

} // verus!
