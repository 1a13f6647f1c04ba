use winit::dpi::{PhysicalPosition, PhysicalSize};
use winit::monitor::{MonitorHandle, VideoModeInfo};
use winit::text::append_decimal;

fn text_of(info: VideoModeInfo) -> String {
    let m = MonitorHandle::new(
        1,
        None,
        PhysicalSize::new(0, 0),
        PhysicalPosition::new(0, 0),
        None,
        0,
        vec![info],
    );
    m.video_modes()[0].to_string()
}

#[test]
fn video_mode_text_lists_size_rate_and_depth() {
    let info = VideoModeInfo::new(PhysicalSize::new(1920, 1080), 32, 60000);
    assert_eq!(text_of(info), "1920x1080 @ 60000 mHz (32 bpp)");
}

#[test]
fn video_mode_text_of_zeros() {
    let info = VideoModeInfo::new(PhysicalSize::new(0, 0), 0, 0);
    assert_eq!(text_of(info), "0x0 @ 0 mHz (0 bpp)");
}

#[test]
fn video_mode_text_of_largest_values() {
    let info = VideoModeInfo::new(PhysicalSize::new(u32::MAX, u32::MAX), u16::MAX, u32::MAX);
    assert_eq!(text_of(info), "4294967295x4294967295 @ 4294967295 mHz (65535 bpp)");
}

#[test]
fn decimal_notation_appends_digits() {
    let mut s = String::from("n=");
    append_decimal(&mut s, 0);
    assert_eq!(s, "n=0");
    let mut t = String::new();
    append_decimal(&mut t, 10);
    assert_eq!(t, "10");
    let mut u = String::new();
    append_decimal(&mut u, u64::MAX);
    assert_eq!(u, "18446744073709551615");
    let mut v = String::new();
    append_decimal(&mut v, 1234567890);
    assert_eq!(v, "1234567890");
}
