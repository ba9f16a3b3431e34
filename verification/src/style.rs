//! The window style bitmask and the chrome-removal computation.
//!
//! A native window's appearance is controlled by a bitmask of style flags.
//! Removing the title bar means clearing exactly the caption bits while
//! leaving every other bit (in particular the resizable-border bit) intact.
//! To keep that isolation evident, the bitmask is decoded into named flags,
//! the title-bar flag is cleared as a single field mutation, and the flags
//! are re-encoded only at the boundary to the native API.

use vstd::prelude::*;

verus! {

/// The caption ("title bar present") bits of the native window style bitmask.
pub const CAPTION_BITS: u32 = 0x00C0_0000;

/// The resizable-border ("thick frame") bit of the native window style bitmask.
pub const RESIZE_BORDER_BIT: u32 = 0x0004_0000;

/// A style bitmask decoded into named flags: whether the title bar is
/// present, whether the resizable border is present, and all remaining bits
/// verbatim.
#[derive(Clone, Copy, PartialEq, Eq, Structural, Debug)]
pub struct WindowStyle {
    pub caption: bool,
    pub resize_border: bool,
    pub other: u32,
}

impl WindowStyle {
    /// A decoded style keeps no caption or resize-border information in
    /// `other`.
    pub open spec fn wf(self) -> bool {
        self.other & (CAPTION_BITS | RESIZE_BORDER_BIT) == 0
    }

    /// The bitmask this decoded style stands for.
    pub open spec fn spec_bits(self) -> u32 {
        self.other
            | (if self.caption { CAPTION_BITS } else { 0u32 })
            | (if self.resize_border { RESIZE_BORDER_BIT } else { 0u32 })
    }
}

/// The decoded form of a style bitmask.
pub open spec fn spec_decode(bits: u32) -> WindowStyle {
    WindowStyle {
        caption: bits & CAPTION_BITS != 0,
        resize_border: bits & RESIZE_BORDER_BIT != 0,
        other: bits & !(CAPTION_BITS | RESIZE_BORDER_BIT),
    }
}

/// What clearing exactly the caption bits leaves of a style bitmask.
pub open spec fn spec_strip_caption(bits: u32) -> u32 {
    bits & !CAPTION_BITS
}

/// Decode a native style bitmask into named flags.
pub fn decode_style(bits: u32) -> (s: WindowStyle)
    ensures
        s == spec_decode(bits),
        s.wf(),
{
    let s = WindowStyle {
        caption: bits & CAPTION_BITS != 0,
        resize_border: bits & RESIZE_BORDER_BIT != 0,
        other: bits & !(CAPTION_BITS | RESIZE_BORDER_BIT),
    };
    proof {
        assert((bits & !(CAPTION_BITS | RESIZE_BORDER_BIT)) & (CAPTION_BITS | RESIZE_BORDER_BIT)
            == 0) by (bit_vector);
    }
    s
}

/// Re-encode named flags into a native style bitmask.
pub fn encode_style(s: WindowStyle) -> (bits: u32)
    ensures
        bits == s.spec_bits(),
{
    let caption_part: u32 = if s.caption { CAPTION_BITS } else { 0 };
    let resize_part: u32 = if s.resize_border { RESIZE_BORDER_BIT } else { 0 };
    s.other | caption_part | resize_part
}

/// Remove the title bar as a single named-field mutation; every other
/// decoded field keeps its value.
pub fn remove_caption(s: WindowStyle) -> (r: WindowStyle)
    ensures
        !r.caption,
        r.resize_border == s.resize_border,
        r.other == s.other,
{
    WindowStyle { caption: false, ..s }
}

/// Chrome removal at the bitmask boundary: decode, clear the title-bar flag,
/// re-encode. The result is the input with exactly the caption bits cleared.
pub fn strip_caption(style: u32) -> (r: u32)
    ensures
        r == spec_strip_caption(style),
{
    let decoded = decode_style(style);
    let cleared = remove_caption(decoded);
    let r = encode_style(cleared);
    proof {
        assert(((style & !(CAPTION_BITS | RESIZE_BORDER_BIT)) | 0u32
            | (if style & RESIZE_BORDER_BIT != 0 { RESIZE_BORDER_BIT } else { 0u32 }))
            == style & !CAPTION_BITS) by (bit_vector);
    }
    r
}

/// Style-bit isolation: after chrome removal the caption bits are cleared,
/// the resizable-border bit keeps its value, and so does every bit outside
/// the caption mask.
pub proof fn lemma_strip_caption_isolation(bits: u32)
    ensures
        spec_strip_caption(bits) & CAPTION_BITS == 0,
        spec_strip_caption(bits) & RESIZE_BORDER_BIT == bits & RESIZE_BORDER_BIT,
        spec_strip_caption(bits) & !CAPTION_BITS == bits & !CAPTION_BITS,
{
    assert((bits & !CAPTION_BITS) & CAPTION_BITS == 0) by (bit_vector);
    assert((bits & !CAPTION_BITS) & RESIZE_BORDER_BIT == bits & RESIZE_BORDER_BIT)
        by (bit_vector);
    assert((bits & !CAPTION_BITS) & !CAPTION_BITS == bits & !CAPTION_BITS) by (bit_vector);
}

/// Chrome removal is idempotent on the bitmask: stripping a second time
/// changes nothing.
pub proof fn lemma_strip_caption_idempotent(bits: u32)
    ensures
        spec_strip_caption(spec_strip_caption(bits)) == spec_strip_caption(bits),
{
    assert((bits & !CAPTION_BITS) & !CAPTION_BITS == bits & !CAPTION_BITS) by (bit_vector);
}

/// Encoding a well-formed decoded style and decoding the result returns the
/// decoded style unchanged.
pub proof fn lemma_encode_then_decode(s: WindowStyle)
    requires
        s.wf(),
    ensures
        spec_decode(s.spec_bits()) == s,
{
    let c = s.caption;
    let rb = s.resize_border;
    let o = s.other;
    let bits = s.spec_bits();
    assert(bits == o | (if c { CAPTION_BITS } else { 0u32 })
        | (if rb { RESIZE_BORDER_BIT } else { 0u32 }));
    assert({
        let b = o | (if c { CAPTION_BITS } else { 0u32 })
            | (if rb { RESIZE_BORDER_BIT } else { 0u32 });
        &&& (b & CAPTION_BITS != 0) == c
        &&& (b & RESIZE_BORDER_BIT != 0) == rb
        &&& b & !(CAPTION_BITS | RESIZE_BORDER_BIT) == o
    }) by (bit_vector)
        requires
            o & (CAPTION_BITS | RESIZE_BORDER_BIT) == 0,
    ;
}

/// Decoding a bitmask whose caption bits are uniform (all set or all clear,
/// as native styles have them) and re-encoding returns the bitmask unchanged.
pub proof fn lemma_decode_then_encode(bits: u32)
    requires
        bits & CAPTION_BITS == 0 || bits & CAPTION_BITS == CAPTION_BITS,
    ensures
        spec_decode(bits).spec_bits() == bits,
{
    assert({
        let o = bits & !(CAPTION_BITS | RESIZE_BORDER_BIT);
        let c = bits & CAPTION_BITS != 0;
        let rb = bits & RESIZE_BORDER_BIT != 0;
        (o | (if c { CAPTION_BITS } else { 0u32 }) | (if rb { RESIZE_BORDER_BIT } else { 0u32 }))
            == bits
    }) by (bit_vector)
        requires
            bits & CAPTION_BITS == 0 || bits & CAPTION_BITS == CAPTION_BITS,
    ;
}

} // verus!
