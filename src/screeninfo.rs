//! The two screen-information records that a framebuffer device reports,
//! with their field order and widths as the kernel lays them out on a 64-bit
//! machine, and their decoding from those bytes.
use vstd::prelude::*;

use crate::codec::le32;
use crate::error::{Error, ErrorKind};

verus! {

/// Bytes in the kernel's variable screen information record.
pub const VAR_SCREENINFO_LEN: usize = 160;

/// Bytes in the kernel's fixed screen information record.
pub const FIX_SCREENINFO_LEN: usize = 80;

/// The little-endian 16-bit value stored at `pos`.
pub open spec fn le16(b: Seq<u8>, pos: int) -> int {
    b[pos] as int + 256 * (b[pos + 1] as int)
}

/// The little-endian 64-bit value stored at `pos`.
pub open spec fn le64(b: Seq<u8>, pos: int) -> int {
    le32(b, pos) + 0x1_0000_0000 * le32(b, pos + 4)
}

fn u16_at(b: &[u8], pos: usize) -> (r: u16)
    requires
        pos + 2 <= b@.len(),
    ensures
        r as int == le16(b@, pos as int),
{
    b[pos] as u16 + 256 * (b[pos + 1] as u16)
}

fn u32_at(b: &[u8], pos: usize) -> (r: u32)
    requires
        pos + 4 <= b@.len(),
    ensures
        r as int == le32(b@, pos as int),
{
    b[pos] as u32 + 256 * (b[pos + 1] as u32) + 65536 * (b[pos + 2] as u32) + 16777216 * (b[pos
        + 3] as u32)
}

fn u64_at(b: &[u8], pos: usize) -> (r: u64)
    requires
        pos + 8 <= b@.len() <= usize::MAX,
    ensures
        r as int == le64(b@, pos as int),
{
    u32_at(b, pos) as u64 + 0x1_0000_0000 * (u32_at(b, pos + 4) as u64)
}

/// Where a colour channel lies within a pixel.
#[derive(Clone, Copy, Debug)]
pub struct Bitfield {
    pub offset: u32,
    pub length: u32,
    pub msb_right: u32,
}

impl Bitfield {
    /// The channel is the one stored at `pos` in `b`.
    pub open spec fn decodes(&self, b: Seq<u8>, pos: int) -> bool {
        &&& self.offset == le32(b, pos)
        &&& self.length == le32(b, pos + 4)
        &&& self.msb_right == le32(b, pos + 8)
    }

    pub open spec fn is_zero(&self) -> bool {
        self.offset == 0 && self.length == 0 && self.msb_right == 0
    }

    fn read_at(b: &[u8], pos: usize) -> (r: Bitfield)
        requires
            pos + 12 <= b@.len() <= usize::MAX,
        ensures
            r.decodes(b@, pos as int),
    {
        Bitfield { offset: u32_at(b, pos), length: u32_at(b, pos + 4), msb_right: u32_at(b, pos + 8) }
    }
}

impl Default for Bitfield {
    fn default() -> (r: Bitfield)
        ensures
            r.is_zero(),
    {
        Bitfield { offset: 0, length: 0, msb_right: 0 }
    }
}

/// The display's variable parameters: resolution, panning, pixel format and
/// timings.
#[derive(Clone, Copy, Debug)]
pub struct VarScreeninfo {
    pub xres: u32,
    pub yres: u32,
    pub xres_virtual: u32,
    pub yres_virtual: u32,
    pub xoffset: u32,
    pub yoffset: u32,
    pub bits_per_pixel: u32,
    pub grayscale: u32,
    pub red: Bitfield,
    pub green: Bitfield,
    pub blue: Bitfield,
    pub transp: Bitfield,
    pub nonstd: u32,
    pub activate: u32,
    pub height: u32,
    pub width: u32,
    pub accel_flags: u32,
    pub pixclock: u32,
    pub left_margin: u32,
    pub right_margin: u32,
    pub upper_margin: u32,
    pub lower_margin: u32,
    pub hsync_len: u32,
    pub vsync_len: u32,
    pub sync: u32,
    pub vmode: u32,
    pub rotate: u32,
    pub colorspace: u32,
    pub reserved: [u32; 4],
}

/// The display's fixed parameters. The kernel's `type` field is `fb_type`.
#[derive(Clone, Copy, Debug)]
pub struct FixScreeninfo {
    pub id: [u8; 16],
    pub smem_start: u64,
    pub smem_len: u32,
    pub fb_type: u32,
    pub type_aux: u32,
    pub visual: u32,
    pub xpanstep: u16,
    pub ypanstep: u16,
    pub ywrapstep: u16,
    pub line_length: u32,
    pub mmio_start: u64,
    pub mmio_len: u32,
    pub accel: u32,
    pub capabilities: u16,
    pub reserved: [u16; 2],
}

impl VarScreeninfo {
    /// The record is the one laid out in `b`.
    pub open spec fn decodes(&self, b: Seq<u8>) -> bool {
        &&& self.xres == le32(b, 0)
        &&& self.yres == le32(b, 4)
        &&& self.xres_virtual == le32(b, 8)
        &&& self.yres_virtual == le32(b, 12)
        &&& self.xoffset == le32(b, 16)
        &&& self.yoffset == le32(b, 20)
        &&& self.bits_per_pixel == le32(b, 24)
        &&& self.grayscale == le32(b, 28)
        &&& self.red.decodes(b, 32)
        &&& self.green.decodes(b, 44)
        &&& self.blue.decodes(b, 56)
        &&& self.transp.decodes(b, 68)
        &&& self.nonstd == le32(b, 80)
        &&& self.activate == le32(b, 84)
        &&& self.height == le32(b, 88)
        &&& self.width == le32(b, 92)
        &&& self.accel_flags == le32(b, 96)
        &&& self.pixclock == le32(b, 100)
        &&& self.left_margin == le32(b, 104)
        &&& self.right_margin == le32(b, 108)
        &&& self.upper_margin == le32(b, 112)
        &&& self.lower_margin == le32(b, 116)
        &&& self.hsync_len == le32(b, 120)
        &&& self.vsync_len == le32(b, 124)
        &&& self.sync == le32(b, 128)
        &&& self.vmode == le32(b, 132)
        &&& self.rotate == le32(b, 136)
        &&& self.colorspace == le32(b, 140)
        &&& self.reserved@ == seq![le32(b, 144) as u32, le32(b, 148) as u32, le32(b, 152) as u32, le32(b, 156) as u32]
    }

    pub open spec fn is_zero(&self) -> bool {
        &&& self.xres == 0
        &&& self.yres == 0
        &&& self.xres_virtual == 0
        &&& self.yres_virtual == 0
        &&& self.xoffset == 0
        &&& self.yoffset == 0
        &&& self.bits_per_pixel == 0
        &&& self.grayscale == 0
        &&& self.red.is_zero()
        &&& self.green.is_zero()
        &&& self.blue.is_zero()
        &&& self.transp.is_zero()
        &&& self.nonstd == 0
        &&& self.activate == 0
        &&& self.height == 0
        &&& self.width == 0
        &&& self.accel_flags == 0
        &&& self.pixclock == 0
        &&& self.left_margin == 0
        &&& self.right_margin == 0
        &&& self.upper_margin == 0
        &&& self.lower_margin == 0
        &&& self.hsync_len == 0
        &&& self.vsync_len == 0
        &&& self.sync == 0
        &&& self.vmode == 0
        &&& self.rotate == 0
        &&& self.colorspace == 0
        &&& self.reserved@ == seq![0u32, 0, 0, 0]
    }

    /// Decodes the record from the bytes the device filled in; `SizeMismatch`
    /// where `b` is not exactly one record long.
    pub fn from_bytes(b: &[u8]) -> (r: Result<VarScreeninfo, Error>)
        ensures
            r is Ok <==> b@.len() == VAR_SCREENINFO_LEN,
            r is Ok ==> r->Ok_0.decodes(b@),
            r is Err ==> r->Err_0.kind is SizeMismatch,
    {
        if b.len() != VAR_SCREENINFO_LEN {
            return Err(Error::new(ErrorKind::SizeMismatch));
        }
        let reserved: [u32; 4] = [u32_at(b, 144), u32_at(b, 148), u32_at(b, 152), u32_at(b, 156)];
        assert(reserved@ =~= seq![le32(b@, 144) as u32, le32(b@, 148) as u32, le32(b@, 152) as u32, le32(b@, 156) as u32]);
        Ok(VarScreeninfo {
            xres: u32_at(b, 0),
            yres: u32_at(b, 4),
            xres_virtual: u32_at(b, 8),
            yres_virtual: u32_at(b, 12),
            xoffset: u32_at(b, 16),
            yoffset: u32_at(b, 20),
            bits_per_pixel: u32_at(b, 24),
            grayscale: u32_at(b, 28),
            red: Bitfield::read_at(b, 32),
            green: Bitfield::read_at(b, 44),
            blue: Bitfield::read_at(b, 56),
            transp: Bitfield::read_at(b, 68),
            nonstd: u32_at(b, 80),
            activate: u32_at(b, 84),
            height: u32_at(b, 88),
            width: u32_at(b, 92),
            accel_flags: u32_at(b, 96),
            pixclock: u32_at(b, 100),
            left_margin: u32_at(b, 104),
            right_margin: u32_at(b, 108),
            upper_margin: u32_at(b, 112),
            lower_margin: u32_at(b, 116),
            hsync_len: u32_at(b, 120),
            vsync_len: u32_at(b, 124),
            sync: u32_at(b, 128),
            vmode: u32_at(b, 132),
            rotate: u32_at(b, 136),
            colorspace: u32_at(b, 140),
            reserved,
        })
    }
}

impl Default for VarScreeninfo {
    fn default() -> (r: VarScreeninfo)
        ensures
            r.is_zero(),
    {
        let reserved: [u32; 4] = [0, 0, 0, 0];
        assert(reserved@ =~= seq![0u32, 0, 0, 0]);
        VarScreeninfo {
            xres: 0,
            yres: 0,
            xres_virtual: 0,
            yres_virtual: 0,
            xoffset: 0,
            yoffset: 0,
            bits_per_pixel: 0,
            grayscale: 0,
            red: Bitfield::default(),
            green: Bitfield::default(),
            blue: Bitfield::default(),
            transp: Bitfield::default(),
            nonstd: 0,
            activate: 0,
            height: 0,
            width: 0,
            accel_flags: 0,
            pixclock: 0,
            left_margin: 0,
            right_margin: 0,
            upper_margin: 0,
            lower_margin: 0,
            hsync_len: 0,
            vsync_len: 0,
            sync: 0,
            vmode: 0,
            rotate: 0,
            colorspace: 0,
            reserved,
        }
    }
}

impl FixScreeninfo {
    /// The record is the one laid out in `b`.
    pub open spec fn decodes(&self, b: Seq<u8>) -> bool {
        &&& self.id@ == b.subrange(0, 16)
        &&& self.smem_start == le64(b, 16)
        &&& self.smem_len == le32(b, 24)
        &&& self.fb_type == le32(b, 28)
        &&& self.type_aux == le32(b, 32)
        &&& self.visual == le32(b, 36)
        &&& self.xpanstep == le16(b, 40)
        &&& self.ypanstep == le16(b, 42)
        &&& self.ywrapstep == le16(b, 44)
        &&& self.line_length == le32(b, 48)
        &&& self.mmio_start == le64(b, 56)
        &&& self.mmio_len == le32(b, 64)
        &&& self.accel == le32(b, 68)
        &&& self.capabilities == le16(b, 72)
        &&& self.reserved@ == seq![le16(b, 74) as u16, le16(b, 76) as u16]
    }

    pub open spec fn is_zero(&self) -> bool {
        &&& self.id@ == Seq::new(16, |i: int| 0u8)
        &&& self.smem_start == 0
        &&& self.smem_len == 0
        &&& self.fb_type == 0
        &&& self.type_aux == 0
        &&& self.visual == 0
        &&& self.xpanstep == 0
        &&& self.ypanstep == 0
        &&& self.ywrapstep == 0
        &&& self.line_length == 0
        &&& self.mmio_start == 0
        &&& self.mmio_len == 0
        &&& self.accel == 0
        &&& self.capabilities == 0
        &&& self.reserved@ == seq![0u16, 0]
    }

    /// Decodes the record from the bytes the device filled in; `SizeMismatch`
    /// where `b` is not exactly one record long.
    pub fn from_bytes(b: &[u8]) -> (r: Result<FixScreeninfo, Error>)
        ensures
            r is Ok <==> b@.len() == FIX_SCREENINFO_LEN,
            r is Ok ==> r->Ok_0.decodes(b@),
            r is Err ==> r->Err_0.kind is SizeMismatch,
    {
        if b.len() != FIX_SCREENINFO_LEN {
            return Err(Error::new(ErrorKind::SizeMismatch));
        }
        let id: [u8; 16] = [b[0], b[1], b[2], b[3], b[4], b[5], b[6], b[7], b[8], b[9], b[10], b[11], b[12], b[13], b[14], b[15]];
        assert(id@ =~= b@.subrange(0, 16));
        let reserved: [u16; 2] = [u16_at(b, 74), u16_at(b, 76)];
        assert(reserved@ =~= seq![le16(b@, 74) as u16, le16(b@, 76) as u16]);
        Ok(FixScreeninfo {
            id,
            smem_start: u64_at(b, 16),
            smem_len: u32_at(b, 24),
            fb_type: u32_at(b, 28),
            type_aux: u32_at(b, 32),
            visual: u32_at(b, 36),
            xpanstep: u16_at(b, 40),
            ypanstep: u16_at(b, 42),
            ywrapstep: u16_at(b, 44),
            line_length: u32_at(b, 48),
            mmio_start: u64_at(b, 56),
            mmio_len: u32_at(b, 64),
            accel: u32_at(b, 68),
            capabilities: u16_at(b, 72),
            reserved,
        })
    }
}

impl Default for FixScreeninfo {
    fn default() -> (r: FixScreeninfo)
        ensures
            r.is_zero(),
    {
        let id: [u8; 16] = [0, 0, 0, 0, 0, 0, 0, 0, 0, 0, 0, 0, 0, 0, 0, 0];
        assert(id@ =~= Seq::new(16, |i: int| 0u8));
        let reserved: [u16; 2] = [0, 0];
        assert(reserved@ =~= seq![0u16, 0]);
        FixScreeninfo {
            id,
            smem_start: 0,
            smem_len: 0,
            fb_type: 0,
            type_aux: 0,
            visual: 0,
            xpanstep: 0,
            ypanstep: 0,
            ywrapstep: 0,
            line_length: 0,
            mmio_start: 0,
            mmio_len: 0,
            accel: 0,
            capabilities: 0,
            reserved,
        }
    }
}

/// Judges the status a geometry query returned: any status but zero means
/// the device cannot be used, `ControlFailed`.
pub fn check_control(status: i32) -> (r: Result<(), Error>)
    ensures
        r is Ok <==> status == 0,
        r is Err ==> r->Err_0.kind is ControlFailed,
{
    if status != 0 {
        return Err(Error::new(ErrorKind::ControlFailed));
    }
    Ok(())
}

} // verus!
