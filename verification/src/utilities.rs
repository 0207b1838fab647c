//! Bit-level helpers for Win32 message parameters and the window's small
//! platform decisions (styles, theme support, cursor visibility).

use vstd::prelude::*;

use crate::win32;
use crate::window::data::{Fullscreen, Visibility};

verus! {

/// The signed value of a 16-bit pattern `bits` (`0 <= bits < 65536`), read as
/// two's complement.
pub open spec fn signed16(bits: int) -> int {
    if bits < 32768 {
        bits
    } else {
        bits - 65536
    }
}

/// The signed value of an 8-bit pattern `bits` (`0 <= bits < 256`), read as
/// two's complement.
pub open spec fn signed8(bits: int) -> int {
    if bits < 128 {
        bits
    } else {
        bits - 256
    }
}

/// The low word of `dword`, read as a signed value.
pub fn signed_lo_word(dword: i32) -> (word: i16)
    ensures
        word as int == signed16((dword as int) % 65536),
{
    assert((#[verifier::truncate] (dword as i16)) as int == signed16((dword as int) % 65536)) by (bit_vector);
    #[verifier::truncate] (dword as i16)
}

/// The low word of `dword`.
pub fn lo_word(dword: u32) -> (word: u16)
    ensures
        word as int == (dword as int) % 65536,
{
    assert((#[verifier::truncate] (dword as u16)) as int == (dword as int) % 65536) by (bit_vector);
    #[verifier::truncate] (dword as u16)
}

/// The high word of `dword`, read as a signed value: `dword` divided by 65536,
/// rounded down.
pub fn signed_hi_word(dword: i32) -> (word: i16)
    ensures
        word as int == (dword as int) / 65536,
{
    assert((#[verifier::truncate] ((dword >> 16u32) as i16)) as int == (dword as int) / 65536) by (bit_vector);
    #[verifier::truncate] ((dword >> 16u32) as i16)
}

/// The high word of `dword`.
pub fn hi_word(dword: u32) -> (word: u16)
    ensures
        word as int == (dword as int) / 65536,
{
    assert((#[verifier::truncate] ((dword >> 16u32) as u16)) as int == (dword as int) / 65536) by (bit_vector);
    #[verifier::truncate] ((dword >> 16u32) as u16)
}

/// The low byte of `word`, read as a signed value.
pub fn signed_lo_byte(word: i16) -> (byte: i8)
    ensures
        byte as int == signed8((word as int) % 256),
{
    assert((#[verifier::truncate] (word as i8)) as int == signed8((word as int) % 256)) by (bit_vector);
    #[verifier::truncate] (word as i8)
}

/// The low byte of `word`.
pub fn lo_byte(word: u16) -> (byte: u8)
    ensures
        byte as int == (word as int) % 256,
{
    assert((#[verifier::truncate] (word as u8)) as int == (word as int) % 256) by (bit_vector);
    #[verifier::truncate] (word as u8)
}

/// The high byte of `word`, read as a signed value: `word` divided by 256,
/// rounded down.
pub fn signed_hi_byte(word: i16) -> (byte: i8)
    ensures
        byte as int == (word as int) / 256,
{
    assert((#[verifier::truncate] ((word >> 8u32) as i8)) as int == (word as int) / 256) by (bit_vector);
    #[verifier::truncate] ((word >> 8u32) as i8)
}

/// The high byte of `word`.
pub fn hi_byte(word: u16) -> (byte: u8)
    ensures
        byte as int == (word as int) / 256,
{
    assert((#[verifier::truncate] ((word >> 8u32) as u8)) as int == (word as int) / 256) by (bit_vector);
    #[verifier::truncate] ((word >> 8u32) as u8)
}

/// Whether every bit of `flag` is set in `var`.
pub fn is_flag_set(var: u32, flag: u32) -> (set: bool)
    ensures
        set == (var & flag == flag),
{
    var & flag == flag
}

/// Whether every bit of `flag` is set in the 16-bit `var`.
pub fn is_flag_set_u16(var: u16, flag: u16) -> (set: bool)
    ensures
        set == (var & flag == flag),
{
    var & flag == flag
}


/// A colour as the system reports it: red, green, blue and alpha channels.
#[derive(Debug, Default, Copy, Clone, PartialEq, Eq, Structural, Hash)]
pub struct Color {
    pub r: u8,
    pub g: u8,
    pub b: u8,
    pub a: u8,
}

/// Whether a colour is light: its weighted brightness `5g + 2r + b` exceeds
/// `8 * 128`.
pub open spec fn spec_is_color_light(clr: Color) -> bool {
    5 * clr.g + 2 * clr.r + clr.b > 8 * 128
}

/// Whether `clr` is a light colour (see [`spec_is_color_light`]). A light
/// foreground colour means that the system runs in dark mode.
pub fn is_color_light(clr: &Color) -> (light: bool)
    ensures
        light == spec_is_color_light(*clr),
{
    ((5 * clr.g as u32) + (2 * clr.r as u32) + clr.b as u32) > (8 * 128)
}

/// What `RtlGetVersion` reported: its status code and the version numbers it
/// wrote.
#[derive(Debug, Copy, Clone, PartialEq, Eq, Structural)]
pub struct OsVersionInfo {
    pub status: i32,
    pub major: u32,
    pub minor: u32,
    pub build: u32,
}

/// The Windows 10 build number, given what `RtlGetVersion` reported (`None`
/// where the function could not be found): the build number where the call
/// succeeded (a non-negative status) and the version is 10.0, else `None`.
pub fn windows_10_build_version(info: Option<OsVersionInfo>) -> (build: Option<u32>)
    ensures
        build == (match info {
            Some(vi) => if vi.status >= 0 && vi.major == 10 && vi.minor == 0 {
                Some(vi.build)
            } else {
                None::<u32>
            },
            None => None::<u32>,
        }),
{
    match info {
        Some(vi) => {
            if vi.status >= 0 && vi.major == 10 && vi.minor == 0 {
                Some(vi.build)
            } else {
                None
            }
        },
        None => None,
    }
}

/// The first Windows 10 build (the October 2018 update) with a dark title bar.
pub const DARK_MODE_MIN_BUILD: u32 = 17763;

/// Whether dark mode is supported on the Windows 10 build `win10_build`
/// (`None` where the system is not Windows 10): only from build 17763 on.
pub fn is_dark_mode_supported(win10_build: Option<u32>) -> (supported: bool)
    ensures
        supported == (win10_build is Some && win10_build->0 >= DARK_MODE_MIN_BUILD),
{
    match win10_build {
        Some(v) => v >= DARK_MODE_MIN_BUILD,
        None => false,
    }
}

/// The style bits of a window in the given fullscreen mode, before its
/// visibility bit.
pub open spec fn spec_base_window_style(fullscreen: Option<Fullscreen>) -> u32 {
    match fullscreen {
        Some(Fullscreen::Borderless) => win32::WS_POPUP | win32::WS_CLIPCHILDREN
            | win32::WS_CLIPSIBLINGS,
        None => win32::WS_OVERLAPPEDWINDOW | win32::WS_CLIPCHILDREN | win32::WS_CLIPSIBLINGS,
    }
}

/// The window style: a borderless fullscreen window is a popup, any other an
/// overlapped window; both clip their children and siblings, and carry the
/// visible bit exactly when the window is shown.
pub fn get_window_style(fullscreen: Option<Fullscreen>, visible: Visibility) -> (style: u32)
    ensures
        style == (match visible {
            Visibility::Shown => spec_base_window_style(fullscreen) | win32::WS_VISIBLE,
            Visibility::Hidden => spec_base_window_style(fullscreen),
        }),
{
    let style = match fullscreen {
        Some(Fullscreen::Borderless) => win32::WS_POPUP | win32::WS_CLIPCHILDREN
            | win32::WS_CLIPSIBLINGS,
        None => win32::WS_OVERLAPPEDWINDOW | win32::WS_CLIPCHILDREN | win32::WS_CLIPSIBLINGS,
    };
    match visible {
        Visibility::Shown => style | win32::WS_VISIBLE,
        Visibility::Hidden => style,
    }
}

/// The extended window style: an application window, which is also an
/// overlapped window unless it is borderless fullscreen.
pub fn get_window_ex_style(fullscreen: Option<Fullscreen>) -> (style: u32)
    ensures
        style == (match fullscreen {
            Some(Fullscreen::Borderless) => win32::WS_EX_APPWINDOW,
            None => win32::WS_EX_OVERLAPPEDWINDOW | win32::WS_EX_APPWINDOW,
        }),
{
    match fullscreen {
        Some(Fullscreen::Borderless) => win32::WS_EX_APPWINDOW,
        None => win32::WS_EX_OVERLAPPEDWINDOW | win32::WS_EX_APPWINDOW,
    }
}

/// The system cursor's hidden flag after its visibility is set to `visible`,
/// and the argument for `ShowCursor` where the flag changed (`None`: no call).
pub open spec fn spec_cursor_visibility_change(was_hidden: bool, visible: Visibility) -> (bool, Option<bool>) {
    let hidden = visible == Visibility::Hidden;
    (hidden, if was_hidden != hidden {
        Some(!hidden)
    } else {
        None::<bool>
    })
}

/// What to do with the system cursor when its visibility is set to `visible`
/// while the process last left it hidden (`was_hidden`): the new hidden flag,
/// and the argument for `ShowCursor` where the flag changed (`None`: no call).
pub fn cursor_visibility_change(was_hidden: bool, visible: Visibility) -> (change: (
    bool,
    Option<bool>,
))
    ensures
        change == spec_cursor_visibility_change(was_hidden, visible),
{
    let hidden = visible == Visibility::Hidden;
    let changed = was_hidden ^ hidden;
    if changed {
        (hidden, Some(!hidden))
    } else {
        (hidden, None)
    }
}

// LAWS
/// A double word is its high word times 65536 plus its low word, and the
/// signed words of a double word read the same bits.
pub proof fn lemma_words_recompose(dword: u32)
    ensures
        ((dword as int) / 65536) * 65536 + (dword as int) % 65536 == dword,
        signed16(((dword as i32) as int) % 65536) % 65536 == (dword as int) % 65536,
        (((dword as i32) as int) / 65536) % 65536 == (dword as int) / 65536,
{
    assert(((dword as i32) as int) % 65536 == (dword as int) % 65536) by (bit_vector);
    assert((((dword as i32) as int) / 65536) % 65536 == (dword as int) / 65536) by (bit_vector);
}

/// A window's style carries the visible bit exactly when the window is shown,
/// and a borderless fullscreen window is a popup while a windowed one is not.
pub proof fn lemma_window_style_bits(fullscreen: Option<Fullscreen>)
    ensures
        (spec_base_window_style(fullscreen) | win32::WS_VISIBLE) & win32::WS_VISIBLE
            == win32::WS_VISIBLE,
        spec_base_window_style(fullscreen) & win32::WS_VISIBLE == 0,
        (spec_base_window_style(fullscreen) & win32::WS_POPUP == win32::WS_POPUP) == (
        fullscreen is Some),
{
    assert(0x8000_0000u32 | 0x0200_0000u32 | 0x0400_0000u32 == 0x8600_0000u32) by (bit_vector);
    assert(0x00CF_0000u32 | 0x0200_0000u32 | 0x0400_0000u32 == 0x06CF_0000u32) by (bit_vector);
    assert((0x8600_0000u32 | 0x1000_0000u32) & 0x1000_0000u32 == 0x1000_0000u32) by (bit_vector);
    assert((0x06CF_0000u32 | 0x1000_0000u32) & 0x1000_0000u32 == 0x1000_0000u32) by (bit_vector);
    assert(0x8600_0000u32 & 0x1000_0000u32 == 0) by (bit_vector);
    assert(0x06CF_0000u32 & 0x1000_0000u32 == 0) by (bit_vector);
    assert(0x8600_0000u32 & 0x8000_0000u32 == 0x8000_0000u32) by (bit_vector);
    assert(0x06CF_0000u32 & 0x8000_0000u32 == 0) by (bit_vector);
}

/// The system cursor's visibility settles: after a change to `visible`, a
/// repeated request with the same visibility calls `ShowCursor` no more, and
/// a request calls it exactly when it flips the hidden flag.
pub proof fn lemma_cursor_visibility_settles(was_hidden: bool, visible: Visibility)
    ensures
        spec_cursor_visibility_change(spec_cursor_visibility_change(was_hidden, visible).0, visible).1 is None,
        spec_cursor_visibility_change(was_hidden, visible).1 is Some <==> was_hidden
            != spec_cursor_visibility_change(was_hidden, visible).0,
{
}

/// The process-wide hidden flag of the system cursor after the visibilities
/// `vs` were requested in turn, starting from the flag `was_hidden`.
pub open spec fn spec_hidden_after(was_hidden: bool, vs: Seq<Visibility>) -> bool
    decreases vs.len(),
{
    if vs.len() == 0 {
        was_hidden
    } else {
        spec_cursor_visibility_change(spec_hidden_after(was_hidden, vs.drop_last()), vs.last()).0
    }
}

/// The arguments of the `ShowCursor` calls that the visibilities `vs`,
/// requested in turn from the flag `was_hidden`, lead to, in order.
pub open spec fn spec_show_cursor_calls(was_hidden: bool, vs: Seq<Visibility>) -> Seq<bool>
    decreases vs.len(),
{
    if vs.len() == 0 {
        Seq::empty()
    } else {
        let before = spec_show_cursor_calls(was_hidden, vs.drop_last());
        match spec_cursor_visibility_change(
            spec_hidden_after(was_hidden, vs.drop_last()),
            vs.last(),
        ).1 {
            Some(show) => before.push(show),
            None => before,
        }
    }
}

/// Over any run of visibility requests, the `ShowCursor` calls alternate: the
/// first one flips the starting flag (it shows a hidden cursor, hides a shown
/// one), each later one undoes the one before, and the last one leaves the
/// cursor as the final flag says.
pub proof fn lemma_show_cursor_calls_alternate(was_hidden: bool, vs: Seq<Visibility>)
    ensures
        ({
            let calls = spec_show_cursor_calls(was_hidden, vs);
            &&& forall|i: int| 0 <= i < calls.len() - 1 ==> #[trigger] calls[i + 1] == !calls[i]
            &&& calls.len() > 0 ==> calls[0] == was_hidden
            &&& calls.len() > 0 ==> calls.last() == !spec_hidden_after(was_hidden, vs)
            &&& calls.len() == 0 ==> spec_hidden_after(was_hidden, vs) == was_hidden
        }),
    decreases vs.len(),
{
    if vs.len() > 0 {
        lemma_show_cursor_calls_alternate(was_hidden, vs.drop_last());
    }
}

} // verus!
