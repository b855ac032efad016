use enki::swapchain::{
    check_acquired, check_presented, choose_extent, choose_image_count, choose_present_mode, choose_surface_format,
    interpret_acquire, interpret_present, Extent2D, FrameCursor, SurfaceFormat,
};

fn ext(width: u32, height: u32) -> Extent2D {
    Extent2D { width, height }
}

#[test]
fn surface_format_prefers_srgb_bgra() {
    let formats = vec![
        SurfaceFormat { format: 44, color_space: 0 },
        SurfaceFormat { format: 50, color_space: 1 },
        SurfaceFormat { format: 50, color_space: 0 },
    ];
    assert_eq!(choose_surface_format(&formats), 2);
    assert_eq!(choose_surface_format(&vec![SurfaceFormat { format: 44, color_space: 0 }]), 0);
}

#[test]
fn present_mode_prefers_mailbox() {
    assert_eq!(choose_present_mode(&vec![2, 1]), 1);
    assert_eq!(choose_present_mode(&vec![0, 2]), 2);
    assert_eq!(choose_present_mode(&vec![]), 2);
}

#[test]
fn extent_and_image_count() {
    assert_eq!(choose_extent(ext(800, 600), ext(1, 1), ext(4096, 4096), ext(10, 10)), ext(800, 600));
    assert_eq!(choose_extent(ext(u32::MAX, u32::MAX), ext(100, 100), ext(1000, 700), ext(1920, 50)), ext(1000, 100));
    assert_eq!(choose_image_count(2, 0), 3);
    assert_eq!(choose_image_count(2, 3), 3);
    assert_eq!(choose_image_count(3, 3), 3);
}

#[test]
fn frame_cursor_wraps() {
    let mut c = FrameCursor::new(2);
    c.advance();
    assert_eq!(c.current_frame, 1);
    c.advance();
    assert_eq!(c.current_frame, 0);
}

#[test]
fn acquire_and_present_results() {
    assert_eq!(interpret_acquire(Ok((3, false))), Ok((3, false)));
    assert_eq!(interpret_acquire(Err(-1000001004)), Ok((0, true)));
    assert_eq!(interpret_acquire(Err(-4)), Err(-4));
    assert_eq!(interpret_present(Ok(false)), Ok(false));
    assert_eq!(interpret_present(Err(1000001003)), Ok(true));
    assert_eq!(interpret_present(Err(-1000001004)), Ok(true));
    assert_eq!(interpret_present(Err(-3)), Err(-3));
    assert_eq!(check_acquired(true), Err("[GpuRenderer] Swapchain is out of date, recreation required".to_string()));
    assert_eq!(check_acquired(false), Ok(()));
    assert_eq!(check_presented(true), Err("[GpuRenderer] Swapchain is suboptimal, recreation recommended".to_string()));
    assert_eq!(check_presented(false), Ok(()));
}
