use wrbridge::compositor::{color_bits, first_context_tier, framebuffer_rect, next_context_tier, ContextTier, FrameCompositor, PixelRect};
use wrbridge::texture::ImageKey;

#[test]
fn flush_without_frame_is_noop() {
    let mut c: FrameCompositor<u32> = FrameCompositor::new();
    assert!(!c.is_building());
    assert_eq!(c.take_display_list(), None);
    assert!(!c.is_building());
    assert_eq!(c.get_previous_frame(), None);
}

#[test]
fn begin_frame_twice_keeps_first_builder() {
    let mut c: FrameCompositor<u32> = FrameCompositor::new();
    assert!(c.begin_frame(1));
    assert!(!c.begin_frame(2));
    assert!(c.is_building());
    assert_eq!(c.take_display_list(), Some(1));
    assert!(!c.is_building());
}

#[test]
fn flush_records_captured_frame_and_goes_idle() {
    let mut c: FrameCompositor<u32> = FrameCompositor::new();
    c.begin_frame(5);
    let b = c.take_display_list();
    assert_eq!(b, Some(5));
    let key = ImageKey { namespace: 3, id: 4 };
    c.finish_flush(key);
    assert!(!c.is_building());
    assert_eq!(c.get_previous_frame(), Some(key));
    c.begin_frame(6);
    c.clear_display_list_builder();
    assert!(!c.is_building());
    assert_eq!(c.get_previous_frame(), Some(key));
}

#[test]
fn context_tiers_in_order() {
    let t = first_context_tier();
    assert_eq!(t, ContextTier::Modern);
    assert_eq!(next_context_tier(t), Some(ContextTier::Compatible));
    assert_eq!(next_context_tier(ContextTier::Compatible), Some(ContextTier::Legacy));
    assert_eq!(next_context_tier(ContextTier::Legacy), None);
}

#[test]
fn framebuffer_rect_flips_for_bottom_left_origin() {
    let r = PixelRect { x: 5, y: 10, width: 30, height: 20 };
    assert_eq!(framebuffer_rect(r, 100, true), r);
    assert_eq!(framebuffer_rect(r, 100, false), PixelRect { x: 5, y: 70, width: 30, height: 20 });
    let full = PixelRect { x: 0, y: 0, width: 640, height: 480 };
    assert_eq!(framebuffer_rect(full, 480, false), full);
}

#[test]
fn color_bits_sums_channels() {
    assert_eq!(color_bits(8, 8, 8), 24);
    assert_eq!(color_bits(5, 6, 5), 16);
}
