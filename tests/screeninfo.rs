use fbspinner::error::ErrorKind;
use fbspinner::screeninfo::{
    check_control, Bitfield, FixScreeninfo, VarScreeninfo, FIX_SCREENINFO_LEN, VAR_SCREENINFO_LEN,
};

fn put32(b: &mut [u8], pos: usize, v: u32) {
    b[pos..pos + 4].copy_from_slice(&v.to_le_bytes());
}

#[test]
fn var_screeninfo_decodes_kernel_layout() {
    let mut b = vec![0u8; VAR_SCREENINFO_LEN];
    put32(&mut b, 0, 1920);
    put32(&mut b, 4, 1080);
    put32(&mut b, 16, 7);
    put32(&mut b, 20, 9);
    put32(&mut b, 24, 32);
    put32(&mut b, 32, 16);
    put32(&mut b, 36, 8);
    put32(&mut b, 68, 24);
    put32(&mut b, 140, 5);
    put32(&mut b, 156, 0xdead_beef);
    let v = VarScreeninfo::from_bytes(&b).unwrap();
    assert_eq!((v.xres, v.yres, v.xoffset, v.yoffset, v.bits_per_pixel), (1920, 1080, 7, 9, 32));
    assert_eq!((v.red.offset, v.red.length, v.red.msb_right), (16, 8, 0));
    assert_eq!(v.transp.offset, 24);
    assert_eq!(v.colorspace, 5);
    assert_eq!(v.reserved, [0, 0, 0, 0xdead_beef]);
}

#[test]
fn fix_screeninfo_decodes_kernel_layout() {
    let mut b = vec![0u8; FIX_SCREENINFO_LEN];
    b[0..4].copy_from_slice(b"EFI ");
    b[16..24].copy_from_slice(&0x1_2345_6789u64.to_le_bytes());
    put32(&mut b, 24, 4096);
    b[40..42].copy_from_slice(&3u16.to_le_bytes());
    put32(&mut b, 48, 7680);
    b[72..74].copy_from_slice(&0x0102u16.to_le_bytes());
    b[76..78].copy_from_slice(&9u16.to_le_bytes());
    let f = FixScreeninfo::from_bytes(&b).unwrap();
    assert_eq!(&f.id[0..4], b"EFI ");
    assert_eq!(f.smem_start, 0x1_2345_6789);
    assert_eq!(f.smem_len, 4096);
    assert_eq!(f.xpanstep, 3);
    assert_eq!(f.line_length, 7680);
    assert_eq!(f.capabilities, 0x0102);
    assert_eq!(f.reserved, [0, 9]);
}

#[test]
fn screeninfo_wrong_length_is_size_mismatch() {
    let b = vec![0u8; 159];
    assert!(matches!(VarScreeninfo::from_bytes(&b).unwrap_err().kind, ErrorKind::SizeMismatch));
    assert!(matches!(FixScreeninfo::from_bytes(&b).unwrap_err().kind, ErrorKind::SizeMismatch));
}

#[test]
fn screeninfo_defaults_are_zero() {
    let v = VarScreeninfo::default();
    assert_eq!((v.xres, v.bits_per_pixel, v.reserved), (0, 0, [0; 4]));
    let bf = Bitfield::default();
    assert_eq!((bf.offset, bf.length, bf.msb_right), (0, 0, 0));
    let f = FixScreeninfo::default();
    assert_eq!((f.id, f.line_length, f.smem_start), ([0; 16], 0, 0));
}

#[test]
fn control_status_is_checked() {
    assert!(check_control(0).is_ok());
    assert!(matches!(check_control(-1).unwrap_err().kind, ErrorKind::ControlFailed));
    assert!(matches!(check_control(1).unwrap_err().kind, ErrorKind::ControlFailed));
}
