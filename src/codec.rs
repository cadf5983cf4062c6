//! The frame container: a 16-byte little-endian header (frame count, frame
//! height, frame width, bytes per pixel) followed by one zlib stream that
//! inflates to exactly the concatenated frames.
use vstd::prelude::*;

use crate::error::{Error, ErrorKind};
use flate2::read::ZlibDecoder;
use std::io::Read;

verus! {

/// Length in bytes of the container header.
pub const HEADER_LEN: usize = 16;

/// The little-endian 32-bit value stored at `pos`.
pub open spec fn le32(b: Seq<u8>, pos: int) -> int {
    b[pos] as int + 256 * (b[pos + 1] as int) + 65536 * (b[pos + 2] as int) + 16777216 * (
    b[pos + 3] as int)
}

/// The four bytes of `v`, least significant first.
pub open spec fn le32_bytes(v: u32) -> Seq<u8> {
    seq![
        (v % 256) as u8,
        ((v / 256) % 256) as u8,
        ((v / 65536) % 256) as u8,
        (v / 16777216) as u8,
    ]
}

/// The header fields of a container.
#[derive(Clone, Copy, Debug, PartialEq, Eq, Structural)]
pub struct ContainerHeader {
    pub frame_count: u32,
    pub height: u32,
    pub width: u32,
    pub bytes_per_pixel: u32,
}

/// The header that the first sixteen bytes of `b` describe.
pub open spec fn header_of(b: Seq<u8>) -> ContainerHeader {
    ContainerHeader {
        frame_count: le32(b, 0) as u32,
        height: le32(b, 4) as u32,
        width: le32(b, 8) as u32,
        bytes_per_pixel: le32(b, 12) as u32,
    }
}

/// The sixteen bytes that encode `h`.
pub open spec fn header_bytes(h: ContainerHeader) -> Seq<u8> {
    le32_bytes(h.frame_count) + le32_bytes(h.height) + le32_bytes(h.width) + le32_bytes(
        h.bytes_per_pixel,
    )
}

/// Bytes in one frame.
pub open spec fn frame_size_of(h: ContainerHeader) -> int {
    h.height as int * h.width as int * h.bytes_per_pixel as int
}

/// Bytes in all frames together.
pub open spec fn total_of(h: ContainerHeader) -> int {
    h.frame_count as int * frame_size_of(h)
}

/// A declared total this machine can hold, with room for the one byte read
/// past it to detect trailing data.
pub open spec fn total_fits(h: ContainerHeader) -> bool {
    frame_size_of(h) <= usize::MAX && total_of(h) < usize::MAX
}

/// What a zlib decoder makes of `data` when at most `limit` bytes are taken
/// from it: the bytes it yields, or, where it reports an error, whether that
/// error is of the `UnexpectedEof` kind (the stream is cut short) or not (the
/// stream is corrupt).
pub uninterp spec fn inflate_outcome(data: Seq<u8>, limit: nat) -> Result<Seq<u8>, bool>;

/// Relies on flate2's `ZlibDecoder` reading from a byte slice, limited by
/// `Read::take`: whether it fails and what it yields depend on the input bytes
/// and the limit alone, and a successful read yields at most `limit` bytes.
/// An incomplete stream is reported by flate2 with the `UnexpectedEof` kind,
/// a corrupt one with another kind, which is kept as `Io`.
#[verifier::external_body]
fn inflate_limited(data: &[u8], limit: usize) -> (r: Result<Vec<u8>, Error>)
    ensures
        r is Ok <==> inflate_outcome(data@, limit as nat) is Ok,
        r is Ok ==> r->Ok_0@ == inflate_outcome(data@, limit as nat)->Ok_0,
        r is Err ==> (r->Err_0.kind is UnexpectedEof <==> inflate_outcome(
            data@,
            limit as nat,
        )->Err_0),
        r is Ok ==> r->Ok_0@.len() <= limit,
        r is Err ==> (r->Err_0.kind is UnexpectedEof || r->Err_0.kind is Io),
{
    let mut out = Vec::new();
    match ZlibDecoder::new(data).take(limit as u64).read_to_end(&mut out) {
        Ok(_) => Ok(out),
        Err(e) if e.kind() == std::io::ErrorKind::UnexpectedEof => Err(
            Error::new(ErrorKind::UnexpectedEof),
        ),
        Err(e) => Err(Error::new(ErrorKind::Io(e))),
    }
}

/// Reads the little-endian 32-bit value at `pos`.
pub fn read_u32(bytes: &[u8], pos: usize) -> (r: Result<u32, Error>)
    ensures
        r is Ok <==> pos + 4 <= bytes@.len(),
        r is Ok ==> r->Ok_0 as int == le32(bytes@, pos as int),
        r is Err ==> r->Err_0.kind is UnexpectedEof,
{
    if bytes.len() < 4 || pos > bytes.len() - 4 {
        return Err(Error::new(ErrorKind::UnexpectedEof));
    }
    let v: u32 = bytes[pos] as u32 + 256 * (bytes[pos + 1] as u32) + 65536 * (
    bytes[pos + 2] as u32) + 16777216 * (bytes[pos + 3] as u32);
    Ok(v)
}

/// Appends the four little-endian bytes of `v`.
fn push_u32(out: &mut Vec<u8>, v: u32)
    ensures
        final(out)@ == old(out)@ + le32_bytes(v),
{
    out.push((v % 256) as u8);
    out.push(((v / 256) % 256) as u8);
    out.push(((v / 65536) % 256) as u8);
    out.push((v / 16777216) as u8);
    assert(final(out)@ =~= old(out)@ + le32_bytes(v));
}

/// Decoding the bytes of `v` gives `v` back.
pub proof fn lemma_le32_round_trip(s: Seq<u8>, p: int, v: u32)
    requires
        0 <= p,
        p + 4 <= s.len(),
        s.subrange(p, p + 4) == le32_bytes(v),
    ensures
        le32(s, p) == v,
{
    assert(s[p] == s.subrange(p, p + 4)[0]);
    assert(s[p + 1] == s.subrange(p, p + 4)[1]);
    assert(s[p + 2] == s.subrange(p, p + 4)[2]);
    assert(s[p + 3] == s.subrange(p, p + 4)[3]);
    let x = v as int;
    assert(x % 256 + 256 * ((x / 256) % 256) + 65536 * ((x / 65536) % 256) + 16777216 * (x
        / 16777216) == x) by (nonlinear_arith)
        requires
            0 <= x < 0x1_0000_0000,
    ;
}

impl ContainerHeader {
    /// Reads the header from the start of `bytes`.
    pub fn read(bytes: &[u8]) -> (r: Result<ContainerHeader, Error>)
        ensures
            r is Ok <==> bytes@.len() >= HEADER_LEN,
            r is Ok ==> r->Ok_0 == header_of(bytes@),
            r is Err ==> r->Err_0.kind is UnexpectedEof,
    {
        let frame_count = read_u32(bytes, 0)?;
        let height = read_u32(bytes, 4)?;
        let width = read_u32(bytes, 8)?;
        let bytes_per_pixel = read_u32(bytes, 12)?;
        Ok(ContainerHeader { frame_count, height, width, bytes_per_pixel })
    }

    /// The sixteen header bytes of a container.
    pub fn to_bytes(&self) -> (r: Vec<u8>)
        ensures
            r@ == header_bytes(*self),
            r@.len() == HEADER_LEN,
    {
        let mut out: Vec<u8> = Vec::new();
        push_u32(&mut out, self.frame_count);
        push_u32(&mut out, self.height);
        push_u32(&mut out, self.width);
        push_u32(&mut out, self.bytes_per_pixel);
        assert(out@ =~= header_bytes(*self));
        out
    }

    /// Bytes in one frame, where that fits in `usize`.
    pub fn frame_len(&self) -> (r: Option<usize>)
        ensures
            r is Some <==> frame_size_of(*self) <= usize::MAX,
            r is Some ==> r->0 as int == frame_size_of(*self),
    {
        let (h, w, b) = (self.height as usize, self.width as usize, self.bytes_per_pixel as usize);
        if h == 0 || w == 0 || b == 0 {
            assert(frame_size_of(*self) == 0) by (nonlinear_arith)
                requires
                    h == 0 || w == 0 || b == 0,
                    frame_size_of(*self) == h as int * w as int * b as int,
            ;
            return Some(0);
        }
        proof {
            let (hi, wi, bi) = (h as int, w as int, b as int);
            assert(hi * wi <= hi * wi * bi) by (nonlinear_arith)
                requires
                    1 <= hi,
                    1 <= wi,
                    1 <= bi,
            ;
        }
        match h.checked_mul(w) {
            Some(hw) => hw.checked_mul(b),
            None => None,
        }
    }

    /// Bytes in all frames together, where the frame size fits in `usize`
    /// and the total is below `usize::MAX`.
    pub fn total_len(&self) -> (r: Option<usize>)
        ensures
            r is Some <==> total_fits(*self),
            r is Some ==> r->0 as int == total_of(*self),
    {
        let fs = match self.frame_len() {
            Some(fs) => fs,
            None => {
                return None;
            },
        };
        match (self.frame_count as usize).checked_mul(fs) {
            Some(t) => {
                if t == usize::MAX {
                    None
                } else {
                    Some(t)
                }
            },
            None => None,
        }
    }
}

/// A decoded container.
#[derive(Debug)]
pub struct Animation {
    pub frame_count: usize,
    pub height: usize,
    pub width: usize,
    pub frames: Vec<u8>,
    pub frame_size: usize,
}

impl Animation {
    /// The frames are `frame_count` runs of `frame_size` bytes.
    pub open spec fn wf(&self) -> bool {
        &&& self.frames@.len() == self.frame_count * self.frame_size
        &&& self.frame_count * self.frame_size <= usize::MAX
    }

    /// The fields of the animation agree with header `h`.
    pub open spec fn describes(&self, h: ContainerHeader) -> bool {
        &&& self.frame_count == h.frame_count
        &&& self.height == h.height
        &&& self.width == h.width
        &&& self.frame_size == frame_size_of(h)
    }

    /// The bytes of frame `i`.
    pub fn frame(&self, i: usize) -> (r: &[u8])
        requires
            self.wf(),
            i < self.frame_count,
        ensures
            r@ == self.frames@.subrange(
                i * self.frame_size as int,
                (i + 1) * self.frame_size as int,
            ),
    {
        proof {
            let n = self.frame_count as int;
            let fs = self.frame_size as int;
            let k = i as int;
            assert((k + 1) * fs <= n * fs) by (nonlinear_arith)
                requires
                    k < n,
                    0 <= fs,
            ;
            assert(0 <= k * fs <= (k + 1) * fs) by (nonlinear_arith)
                requires
                    0 <= k,
                    0 <= fs,
            ;
        }
        vstd::slice::slice_subrange(
            self.frames.as_slice(),
            i * self.frame_size,
            (i + 1) * self.frame_size,
        )
    }
}

/// What decoding gives, once `inflated` holds what the decompressor yielded
/// with a limit of one byte past the declared total.
pub open spec fn frames_outcome_ok(h: ContainerHeader, inflated: Seq<u8>) -> bool {
    total_fits(h) && inflated.len() == total_of(h)
}

/// Checks what the decompressor yielded against header `h` and keeps it as
/// the frames: too little is `UnexpectedEof`, more is `ExpectedEof`.
pub fn finish_frames(h: ContainerHeader, inflated: Vec<u8>) -> (r: Result<Animation, Error>)
    ensures
        r is Ok <==> frames_outcome_ok(h, inflated@),
        r is Ok ==> r->Ok_0.wf() && r->Ok_0.describes(h) && r->Ok_0.frames@ == inflated@,
        r is Err ==> (r->Err_0.kind is UnexpectedEof <==> !total_fits(h) || inflated@.len()
            < total_of(h)),
        r is Err ==> (r->Err_0.kind is ExpectedEof <==> total_fits(h) && inflated@.len()
            > total_of(h)),
{
    let total = match h.total_len() {
        Some(t) => t,
        None => {
            return Err(Error::new(ErrorKind::UnexpectedEof));
        },
    };
    if inflated.len() < total {
        return Err(Error::new(ErrorKind::UnexpectedEof));
    }
    if inflated.len() > total {
        return Err(Error::new(ErrorKind::ExpectedEof));
    }
    let frame_size = match h.frame_len() {
        Some(fs) => fs,
        None => {
            return Err(Error::new(ErrorKind::UnexpectedEof));
        },
    };
    Ok(
        Animation {
            frame_count: h.frame_count as usize,
            height: h.height as usize,
            width: h.width as usize,
            frames: inflated,
            frame_size,
        },
    )
}

/// The compressed stream of a container: everything after the header.
pub open spec fn stream_of(data: Seq<u8>) -> Seq<u8> {
    data.subrange(HEADER_LEN as int, data.len() as int)
}

/// What the decompressor makes of the stream of `data`, read with a limit of
/// one byte past the declared total.
pub open spec fn stream_outcome(data: Seq<u8>) -> Result<Seq<u8>, bool> {
    inflate_outcome(stream_of(data), (total_of(header_of(data)) + 1) as nat)
}

/// Decodes a whole container held in memory.
///
/// A header shorter than sixteen bytes, or one whose total does not fit this
/// machine, is `UnexpectedEof`. Otherwise the stream is inflated with a limit
/// of one byte past the declared total: a decompressor error is passed on
/// (`UnexpectedEof` for a cut stream, `Io` otherwise), fewer bytes than
/// declared are `UnexpectedEof`, more are `ExpectedEof`, and exactly the
/// declared total is the frames.
pub fn read_frames(data: &[u8]) -> (r: Result<Animation, Error>)
    ensures
        data@.len() < HEADER_LEN ==> r is Err && r->Err_0.kind is UnexpectedEof,
        data@.len() >= HEADER_LEN && !total_fits(header_of(data@)) ==> r is Err
            && r->Err_0.kind is UnexpectedEof,
        data@.len() >= HEADER_LEN && total_fits(header_of(data@)) ==> ({
            let h = header_of(data@);
            let s = stream_outcome(data@);
            &&& s == Err::<Seq<u8>, bool>(true) ==> r is Err && r->Err_0.kind is UnexpectedEof
            &&& s == Err::<Seq<u8>, bool>(false) ==> r is Err && r->Err_0.kind is Io
            &&& s is Ok ==> (r is Ok <==> s->Ok_0.len() == total_of(h))
            &&& s is Ok && s->Ok_0.len() < total_of(h) ==> r is Err && r->Err_0.kind is UnexpectedEof
            &&& s is Ok && s->Ok_0.len() > total_of(h) ==> r is Err && r->Err_0.kind is ExpectedEof
        }),
        r is Ok ==> ({
            let h = header_of(data@);
            &&& data@.len() >= HEADER_LEN
            &&& total_fits(h)
            &&& r->Ok_0.wf()
            &&& r->Ok_0.describes(h)
            &&& stream_outcome(data@) == Ok::<Seq<u8>, bool>(r->Ok_0.frames@)
            &&& r->Ok_0.frames@.len() == total_of(h)
        }),
{
    let h = ContainerHeader::read(data)?;
    let total = match h.total_len() {
        Some(t) => t,
        None => {
            return Err(Error::new(ErrorKind::UnexpectedEof));
        },
    };
    let stream = vstd::slice::slice_subrange(data, HEADER_LEN, data.len());
    let inflated = inflate_limited(stream, total + 1)?;
    finish_frames(h, inflated)
}

/// A container made of the header `h` and the compressed `stream`.
pub fn encode_container(h: &ContainerHeader, stream: &[u8]) -> (r: Vec<u8>)
    ensures
        r@ == header_bytes(*h) + stream@,
{
    let mut out = h.to_bytes();
    let mut i: usize = 0;
    while i < stream.len()
        invariant
            i <= stream@.len(),
            out@ == header_bytes(*h) + stream@.subrange(0, i as int),
        decreases stream@.len() - i,
    {
        out.push(stream[i]);
        i += 1;
        assert(out@ =~= header_bytes(*h) + stream@.subrange(0, i as int));
    }
    assert(stream@.subrange(0, i as int) =~= stream@);
    out
}

/// Round trip: a container built from a header and a stream that inflates
/// to frames of the declared total decodes to that header and those frames:
/// `read_frames` on it returns them.
pub proof fn lemma_round_trip(h: ContainerHeader, frames: Seq<u8>, stream: Seq<u8>)
    requires
        total_fits(h),
        frames.len() == total_of(h),
        inflate_outcome(stream, (total_of(h) + 1) as nat) == Ok::<Seq<u8>, bool>(frames),
    ensures
        header_of(header_bytes(h) + stream) == h,
        stream_of(header_bytes(h) + stream) == stream,
        stream_outcome(header_bytes(h) + stream) == Ok::<Seq<u8>, bool>(frames),
        frames_outcome_ok(h, frames),
{
    let b = header_bytes(h) + stream;
    assert(b.subrange(0, 4) =~= le32_bytes(h.frame_count));
    assert(b.subrange(4, 8) =~= le32_bytes(h.height));
    assert(b.subrange(8, 12) =~= le32_bytes(h.width));
    assert(b.subrange(12, 16) =~= le32_bytes(h.bytes_per_pixel));
    lemma_le32_round_trip(b, 0, h.frame_count);
    lemma_le32_round_trip(b, 4, h.height);
    lemma_le32_round_trip(b, 8, h.width);
    lemma_le32_round_trip(b, 12, h.bytes_per_pixel);
    assert(stream_of(b) =~= stream);
}

/// A container whose header declares no frames, and whose frame size fits,
/// has a total of zero: `read_frames` returns an empty animation exactly when
/// its stream inflates to nothing.
pub proof fn lemma_no_frames(data: Seq<u8>)
    requires
        data.len() >= HEADER_LEN,
        header_of(data).frame_count == 0,
        frame_size_of(header_of(data)) <= usize::MAX,
    ensures
        total_fits(header_of(data)),
        total_of(header_of(data)) == 0,
        frames_outcome_ok(header_of(data), Seq::<u8>::empty()),
        stream_outcome(data) is Ok ==> (frames_outcome_ok(
            header_of(data),
            stream_outcome(data)->Ok_0,
        ) <==> stream_outcome(data)->Ok_0.len() == 0),
{
}

} // verus!
