//! Constants and text conversion used by native plugin editor windows.
use vstd::prelude::*;
use crate::text::chars_of;

verus! {

/// VST3 `kResultOk`.
pub const K_RESULT_OK: i32 = 0;

/// VST3 platform type of a macOS `NSView` parent, NUL-terminated.
pub const K_PLATFORM_TYPE_NSVIEW: &'static [u8; 7] = &[78, 83, 86, 105, 101, 119, 0];

/// VST3 platform type of a Windows `HWND` parent, NUL-terminated.
pub const K_PLATFORM_TYPE_HWND: &'static [u8; 5] = &[72, 87, 78, 68, 0];

/// VST3 platform type of an X11 window ID parent, NUL-terminated.
pub const K_PLATFORM_TYPE_X11: &'static [u8; 17] = &[88, 49, 49, 69, 109, 98, 101, 100, 87, 105, 110, 100, 111, 119, 73, 68, 0];

/// The UTF-16 code units of one character: one unit inside the basic
/// multilingual plane, a surrogate pair above it.
pub open spec fn utf16_units(c: char) -> Seq<u16> {
    let v = c as u32;
    if v < 0x10000 {
        seq![v as u16]
    } else {
        let w = v - 0x10000;
        seq![(0xD800 + w / 1024) as u16, (0xDC00 + w % 1024) as u16]
    }
}

/// The UTF-16 encoding of a text.
pub open spec fn utf16_of(s: Seq<char>) -> Seq<u16>
    decreases s.len(),
{
    if s.len() == 0 {
        Seq::empty()
    } else {
        utf16_of(s.drop_last()) + utf16_units(s.last())
    }
}

/// The NUL-terminated UTF-16 form of `s`, as Windows APIs take text.
pub fn to_wide(s: &str) -> (w: Vec<u16>)
    ensures
        w@ == utf16_of(s@).push(0u16),
{
    let cs = chars_of(s);
    let mut w: Vec<u16> = Vec::new();
    let mut i: usize = 0;
    while i < cs.len()
        invariant
            i <= cs@.len(),
            w@ == utf16_of(cs@.take(i as int)),
        decreases cs@.len() - i,
    {
        let c = cs[i];
        let v = c as u32;
        proof {
            vstd::utf8::char_is_scalar(c);
        }
        assert(cs@.take(i as int + 1).drop_last() == cs@.take(i as int));
        let ghost prev = w@;
        if v < 0x10000 {
            w.push(v as u16);
            assert(w@ == prev + utf16_units(c));
        } else {
            let x = v - 0x10000;
            w.push((0xD800 + x / 1024) as u16);
            w.push((0xDC00 + x % 1024) as u16);
            assert(w@ =~= prev + utf16_units(c));
        }
        i = i + 1;
        assert(w@ =~= utf16_of(cs@.take(i as int)));
    }
    assert(cs@.take(cs@.len() as int) == cs@);
    w.push(0);
    w
}

} // verus!
