//! Placement of a sprite on the display and its row-by-row writes.
use vstd::prelude::*;

use crate::error::{Error, ErrorKind};
use crate::screeninfo::{FixScreeninfo, VarScreeninfo};
use crate::sink::{all_ok, FrameSink, SinkTrace};

verus! {

/// The display geometry, taken once when the device is opened.
#[derive(Clone, Copy, Debug, PartialEq, Eq, Structural)]
pub struct DeviceGeometry {
    pub xres: u32,
    pub yres: u32,
    pub xoffset: u32,
    pub yoffset: u32,
    pub bits_per_pixel: u32,
    pub line_length: u32,
}

/// Horizontal pixel position of a sprite of `width`: centred.
pub open spec fn offset_x(g: DeviceGeometry, width: int) -> int {
    (g.xres - width) / 2
}

/// Vertical pixel position of a sprite of `height`: four fifths of the way
/// down the free space.
pub open spec fn offset_y(g: DeviceGeometry, height: int) -> int {
    (g.yres - height) * 4 / 5
}

pub open spec fn bytes_per_pixel(g: DeviceGeometry) -> int {
    g.bits_per_pixel as int / 8
}

/// Byte offset in the device of the first row of a sprite.
pub open spec fn region_offset(g: DeviceGeometry, width: int, height: int) -> int {
    (offset_y(g, height) + g.yoffset) * g.line_length + (offset_x(g, width) + g.xoffset)
        * bytes_per_pixel(g)
}

/// Byte offset in the device of row `i` of a sprite.
pub open spec fn row_offset(g: DeviceGeometry, width: int, height: int, i: int) -> int {
    region_offset(g, width, height) + i * g.line_length
}

/// A sprite of this size fits on the display, and every device offset and
/// frame length it needs fits in 64 bits and in `usize`.
pub open spec fn region_fits(g: DeviceGeometry, width: int, height: int) -> bool {
    &&& 0 <= width <= g.xres
    &&& 0 <= height <= g.yres
    &&& row_offset(g, width, height, height) + width * bytes_per_pixel(g) <= u64::MAX
    &&& width * bytes_per_pixel(g) <= usize::MAX
    &&& width * bytes_per_pixel(g) * height <= usize::MAX
}

/// The rectangle of device memory that a sprite is written into.
#[derive(Clone, Copy, Debug, PartialEq, Eq, Structural)]
pub struct FbWriter {
    /// Byte offset of the first row.
    pub offset: u64,
    /// Bytes in one row of the sprite.
    pub width: usize,
    /// Rows in the sprite.
    pub height: usize,
    /// Bytes from one device row to the next.
    pub line_length: u64,
}

/// The write region of a sprite of `width` by `height` pixels.
pub open spec fn region_of(g: DeviceGeometry, width: int, height: int) -> FbWriter {
    FbWriter {
        offset: region_offset(g, width, height) as u64,
        width: (width * bytes_per_pixel(g)) as usize,
        height: height as usize,
        line_length: g.line_length as u64,
    }
}

/// One write into the device: the bytes `start..end` of a frame, at `offset`.
#[derive(Clone, Copy, Debug, PartialEq, Eq, Structural)]
pub struct RowWrite {
    pub offset: u64,
    pub start: usize,
    pub end: usize,
}

proof fn lemma_mul_mono(a: int, b: int, c: int)
    requires
        0 <= a <= b,
        0 <= c,
    ensures
        a * c <= b * c,
{
    assert(a * c <= b * c) by (nonlinear_arith)
        requires
            0 <= a <= b,
            0 <= c,
    ;
}

impl DeviceGeometry {
    /// Picks the geometry out of the two screen-information records.
    pub fn from_screeninfo(var: &VarScreeninfo, fix: &FixScreeninfo) -> (r: DeviceGeometry)
        ensures
            r.xres == var.xres,
            r.yres == var.yres,
            r.xoffset == var.xoffset,
            r.yoffset == var.yoffset,
            r.bits_per_pixel == var.bits_per_pixel,
            r.line_length == fix.line_length,
    {
        DeviceGeometry {
            xres: var.xres,
            yres: var.yres,
            xoffset: var.xoffset,
            yoffset: var.yoffset,
            bits_per_pixel: var.bits_per_pixel,
            line_length: fix.line_length,
        }
    }

    /// The write region of a sprite of `width` by `height` pixels, centred
    /// horizontally and anchored at four fifths of the vertical free space;
    /// `None` where the sprite is larger than the display or its offsets
    /// would not fit in 64 bits.
    pub fn writer(&self, width: usize, height: usize) -> (r: Option<FbWriter>)
        ensures
            r is Some <==> region_fits(*self, width as int, height as int),
            r is Some ==> r->0 == region_of(*self, width as int, height as int),
            r is Some ==> r->0.wf(),
    {
        if width > self.xres as usize || height > self.yres as usize {
            return None;
        }
        let x = (self.xres as u64 - width as u64) / 2;
        let y = (self.yres as u64 - height as u64) * 4 / 5;
        let bpp = self.bits_per_pixel as u64 / 8;
        let ll = self.line_length as u64;
        let g = *self;
        proof {
            assert(y <= g.yres);
            lemma_mul_mono(y + g.yoffset, 0x2_0000_0000, ll as int);
            lemma_mul_mono(x + g.xoffset, 0x2_0000_0000, bpp as int);
            lemma_mul_mono(width as int, 0x1_0000_0000, bpp as int);
            lemma_mul_mono(height as int, 0x1_0000_0000, ll as int);
        }
        // Each product is below 2^65; compare in 128 bits.
        let first = (y as u128 + g.yoffset as u128) * ll as u128 + (x as u128 + g.xoffset as u128)
            * bpp as u128;
        let row = width as u128 * bpp as u128;
        let last_end = first + height as u128 * ll as u128 + row;
        if last_end > u64::MAX as u128 {
            return None;
        }
        if row > usize::MAX as u128 {
            return None;
        }
        let row = row as usize;
        match row.checked_mul(height) {
            None => {
                return None;
            },
            Some(_) => {},
        }
        proof {
            lemma_region_wf(g, width as int, height as int);
        }
        Some(FbWriter { offset: first as u64, width: row, height, line_length: ll })
    }
}

impl FbWriter {
    /// Bytes in a frame that fills the region.
    pub open spec fn frame_len(&self) -> int {
        self.width * self.height
    }

    /// The offsets of the region's rows fit in 64 bits.
    pub open spec fn wf(&self) -> bool {
        &&& self.offset + self.height * self.line_length + self.width <= u64::MAX
        &&& self.width * self.height <= usize::MAX
    }

    /// The write of row `i`.
    pub open spec fn row_write(&self, i: int) -> RowWrite {
        RowWrite {
            offset: (self.offset + i * self.line_length) as u64,
            start: (i * self.width) as usize,
            end: ((i + 1) * self.width) as usize,
        }
    }

    /// The writes that put a frame of `frame_len` bytes into the region, one
    /// per row from the top; `SizeMismatch` where the frame does not fill the
    /// region exactly.
    pub fn row_writes(&self, frame_len: usize) -> (r: Result<Vec<RowWrite>, Error>)
        requires
            self.wf(),
        ensures
            r is Ok <==> frame_len == self.frame_len(),
            r is Err ==> r->Err_0.kind is SizeMismatch,
            r is Ok ==> r->Ok_0@.len() == self.height,
            r is Ok ==> forall|i: int|
                0 <= i < self.height ==> #[trigger] r->Ok_0@[i] == self.row_write(i),
    {
        if frame_len != self.width * self.height {
            return Err(Error::new(ErrorKind::SizeMismatch));
        }
        let mut out: Vec<RowWrite> = Vec::new();
        let mut offset = self.offset;
        let mut input: usize = 0;
        let mut i: usize = 0;
        while i < self.height
            invariant
                self.wf(),
                frame_len == self.width * self.height,
                i <= self.height,
                offset == self.offset + i * self.line_length,
                input == i * self.width,
                out@.len() == i,
                forall|j: int| 0 <= j < i ==> #[trigger] out@[j] == self.row_write(j),
            decreases self.height - i,
        {
            proof {
                lemma_mul_mono(i as int + 1, self.height as int, self.width as int);
                lemma_mul_mono(i as int + 1, self.height as int, self.line_length as int);
                assert((i + 1) * self.width == i * self.width + self.width) by (nonlinear_arith);
                assert((i + 1) * self.line_length == i * self.line_length + self.line_length)
                    by (nonlinear_arith);
                assert(self.width * self.height == self.height * self.width) by (nonlinear_arith);
            }
            out.push(RowWrite { offset, start: input, end: input + self.width });
            input = input + self.width;
            i = i + 1;
            offset = offset + self.line_length;
        }
        Ok(out)
    }

    /// What row `i` of `frame` writes: its offset in the device and its bytes.
    pub open spec fn row_data(&self, frame: Seq<u8>, i: int) -> (u64, Seq<u8>) {
        (self.row_write(i).offset, frame.subrange(i * self.width, (i + 1) * self.width))
    }

    /// The writes of the first `k` rows of `frame`, top first.
    pub open spec fn rows_written(&self, frame: Seq<u8>, k: int) -> Seq<(u64, Seq<u8>)> {
        Seq::new(k as nat, |i: int| self.row_data(frame, i))
    }

    /// Writes `frame` into the region of the device behind `sink`, row by
    /// row from the top, each row at its offset; `SizeMismatch`, with the
    /// sink untouched, where the frame does not fill the region exactly. The
    /// first write that fails ends the call with that write's own error: no
    /// later row is handed over. When every write succeeds the result is `Ok`.
    pub fn write<S: FrameSink>(&self, sink: &mut SinkTrace<S>, frame: &[u8]) -> (r: Result<
        (),
        Error,
    >)
        requires
            self.wf(),
        ensures
            frame@.len() != self.frame_len() ==> r is Err && r->Err_0.kind is SizeMismatch
                && *final(sink) == *old(sink),
            frame@.len() == self.frame_len() && self.height == 0 ==> r is Ok && *final(sink)
                == *old(sink),
            r is Ok ==> frame@.len() == self.frame_len() && final(sink).handed() == old(
                sink,
            ).handed() + self.rows_written(frame@, self.height as int) && final(sink).results()
                == old(sink).results() + all_ok(self.height as int),
            r is Err && frame@.len() == self.frame_len() ==> exists|k: int|
                0 <= k < self.height && final(sink).handed() == old(sink).handed()
                    + #[trigger] self.rows_written(frame@, k + 1) && final(sink).results() == old(
                    sink,
                ).results() + all_ok(k).push(r),
    {
        let rows = self.row_writes(frame.len())?;
        let ghost start = sink.handed();
        let ghost oks = sink.results();
        let ghost before = *sink;
        let mut k: usize = 0;
        assert(self.rows_written(frame@, 0) =~= Seq::<(u64, Seq<u8>)>::empty());
        assert(oks + all_ok(0) =~= oks);
        while k < rows.len()
            invariant
                self.wf(),
                frame@.len() == self.frame_len(),
                rows@.len() == self.height,
                forall|j: int| 0 <= j < self.height ==> #[trigger] rows@[j] == self.row_write(j),
                k <= rows@.len(),
                sink.handed() == start + self.rows_written(frame@, k as int),
                start == old(sink).handed(),
                sink.results() == oks + all_ok(k as int),
                oks == old(sink).results(),
                before == *old(sink),
                self.height == 0 ==> *sink == before,
            decreases rows@.len() - k,
        {
            let w = rows[k];
            proof {
                let kk = k as int;
                assert(w == self.row_write(kk));
                lemma_mul_mono(kk + 1, self.height as int, self.width as int);
                assert((kk + 1) * self.width == kk * self.width + self.width) by (nonlinear_arith);
                assert(self.width * self.height == self.height * self.width) by (nonlinear_arith);
                assert(0 <= kk * self.width) by (nonlinear_arith)
                    requires
                        0 <= kk,
                ;
            }
            let res = sink.write_at(w.offset, vstd::slice::slice_subrange(frame, w.start, w.end));
            proof {
                assert(self.rows_written(frame@, k + 1) =~= self.rows_written(frame@, k as int).push(
                    self.row_data(frame@, k as int),
                ));
                assert(sink.handed() =~= start + self.rows_written(frame@, k + 1));
                assert(sink.results() =~= oks + all_ok(k as int).push(res));
            }
            if res.is_err() {
                assert(exists|j: int|
                    0 <= j < self.height && sink.handed() == old(sink).handed()
                        + #[trigger] self.rows_written(frame@, j + 1) && sink.results() == old(
                        sink,
                    ).results() + all_ok(j).push(res));
                return res;
            }
            proof {
                let u: () = res->Ok_0;
                assert(u == ());
                assert(res == Ok::<(), Error>(()));
                assert(all_ok(k + 1) =~= all_ok(k as int).push(res));
            }
            k += 1;
        }
        Ok(())
    }
}

/// The region is a function of the geometry and the requested size alone.
pub proof fn lemma_region_deterministic(g1: DeviceGeometry, g2: DeviceGeometry, w: int, h: int)
    requires
        g1 == g2,
    ensures
        region_fits(g1, w, h) == region_fits(g2, w, h),
        region_of(g1, w, h) == region_of(g2, w, h),
{
}

/// A region built by `writer` has its rows placed at its own stride.
pub proof fn lemma_region_wf(g: DeviceGeometry, w: int, h: int)
    requires
        region_fits(g, w, h),
    ensures
        region_of(g, w, h).wf(),
        region_of(g, w, h).offset == region_offset(g, w, h),
        region_of(g, w, h).width == w * bytes_per_pixel(g),
        forall|i: int|
            0 <= i < h ==> (#[trigger] region_of(g, w, h).row_write(i)).offset == row_offset(
                g,
                w,
                h,
                i,
            ),
{
    assert(0 <= offset_x(g, w) && 0 <= offset_y(g, h));
    assert(0 <= (offset_y(g, h) + g.yoffset) * g.line_length) by (nonlinear_arith)
        requires
            0 <= offset_y(g, h),
    ;
    assert(0 <= (offset_x(g, w) + g.xoffset) * bytes_per_pixel(g)) by (nonlinear_arith)
        requires
            0 <= offset_x(g, w),
            0 <= bytes_per_pixel(g),
    ;
    assert(0 <= w * bytes_per_pixel(g)) by (nonlinear_arith)
        requires
            0 <= w,
            0 <= bytes_per_pixel(g),
    ;
    assert(0 <= h * g.line_length) by (nonlinear_arith)
        requires
            0 <= h,
    ;
    assert forall|i: int| 0 <= i < h implies #[trigger] (i * g.line_length) <= h * g.line_length by {
        lemma_mul_mono(i, h, g.line_length as int);
    }
}

} // verus!
