use window_decor::style::decode_style;
use window_decor::style::encode_style;
use window_decor::style::remove_caption;
use window_decor::style::strip_caption;
use window_decor::style::CAPTION_BITS;
use window_decor::style::RESIZE_BORDER_BIT;

#[test]
fn strip_caption_clears_exactly_the_caption_bits() {
    assert_eq!(strip_caption(0x00C4_0000), 0x0004_0000);
    assert_eq!(strip_caption(0x00C0_0000), 0x0000_0000);
    assert_eq!(strip_caption(0xFFFF_FFFF), 0xFF3F_FFFF);
    assert_eq!(strip_caption(0x0004_0000), 0x0004_0000);
    assert_eq!(strip_caption(0), 0);
}

#[test]
fn strip_caption_keeps_the_resize_border_bit() {
    let style = CAPTION_BITS | RESIZE_BORDER_BIT | 0x0000_0001;
    let stripped = strip_caption(style);
    assert_eq!(stripped & CAPTION_BITS, 0);
    assert_eq!(stripped & RESIZE_BORDER_BIT, RESIZE_BORDER_BIT);
    assert_eq!(stripped, RESIZE_BORDER_BIT | 0x0000_0001);
}

#[test]
fn decode_then_encode_returns_the_bitmask() {
    for bits in [0u32, 0x0004_0000, 0x00C0_0000, 0x00C4_0001, 0x96F4_0321] {
        let decoded = decode_style(bits);
        assert_eq!(encode_style(decoded), bits);
    }
}

#[test]
fn decode_names_the_flags() {
    let decoded = decode_style(0x00C4_0001);
    assert!(decoded.caption);
    assert!(decoded.resize_border);
    assert_eq!(decoded.other, 0x0000_0001);
}

#[test]
fn remove_caption_is_a_single_field_change() {
    let decoded = decode_style(0x00C4_0000);
    let cleared = remove_caption(decoded);
    assert!(!cleared.caption);
    assert!(cleared.resize_border);
    assert_eq!(cleared.other, decoded.other);
    assert_eq!(encode_style(cleared), 0x0004_0000);
}
