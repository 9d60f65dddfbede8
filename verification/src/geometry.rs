//! Integer geometry: window identifiers, the truncation of the window
//! server's floating-point bounds, and placement on the main display.
//!
//! The placement functions describe the position at which the centring
//! script puts a window. The library writes that script; it does not compute
//! the position itself.
//!
//! The window server reports geometry as IEEE 754 binary64 values. They reach
//! this module as their 64-bit encodings, and everything here is integer
//! arithmetic on those encodings.

use vstd::arithmetic::power2::{lemma2_to64, lemma_pow2_pos, lemma_pow2_strictly_increases, pow2};
use vstd::bits::lemma_u64_shr_is_div;
use vstd::prelude::*;

verus! {

/// Width of the display that is assumed when the main display cannot be asked.
pub const FALLBACK_SCREEN_WIDTH: i32 = 1920;

/// Height of the display that is assumed when the main display cannot be asked.
pub const FALLBACK_SCREEN_HEIGHT: i32 = 1080;

/// Distance by which a centred window is moved down, to leave room for the
/// menu bar and the window's own title bar.
pub const VERTICAL_BIAS: i32 = 50;

/// Left coordinate used when centring would put the window left of the screen.
pub const SAFE_LEFT: i32 = 50;

/// Top coordinate used when centring would put the window above the screen.
pub const SAFE_TOP: i32 = 100;

/// The unsigned reading of a 32-bit two's-complement word.
pub open spec fn unsigned_word(n: int) -> int {
    if n < 0 {
        n + 0x1_0000_0000
    } else {
        n
    }
}

/// Reads a window number, which the window server reports as a signed 32-bit
/// integer, as the unsigned identifier that the rest of the library uses: the
/// same 32 bits, reinterpreted.
pub fn window_id_from_number(number: i32) -> (id: u32)
    ensures
        id as int == unsigned_word(number as int),
{
    if number >= 0 {
        number as u32
    } else {
        let lifted: i64 = number as i64 + 0x1_0000_0000i64;
        lifted as u32
    }
}

/// Whether the sign bit of a binary64 encoding is set.
pub open spec fn sign_of(bits: u64) -> bool {
    bits >= 0x8000_0000_0000_0000
}

/// The biased exponent field of a binary64 encoding, 0 to 2047.
pub open spec fn exponent_of(bits: u64) -> int {
    (bits as int / 0x10_0000_0000_0000) % 0x800
}

/// The 52-bit fraction field of a binary64 encoding.
pub open spec fn fraction_of(bits: u64) -> int {
    bits as int % 0x10_0000_0000_0000
}

/// Whether a binary64 encoding is a NaN: exponent all ones, fraction not zero.
pub open spec fn is_nan(bits: u64) -> bool {
    exponent_of(bits) == 0x7ff && fraction_of(bits) != 0
}

/// The whole part of the magnitude of the encoded number.
///
/// A normal number with exponent field `e` and fraction `f` has the magnitude
/// `(2^52 + f) * 2^(e - 1075)`. Below `e = 1023` the magnitude is under one
/// (this covers zeros and subnormals). For the infinities the formula gives a
/// number larger than any 32-bit integer, which is all that is asked of it.
pub open spec fn whole_magnitude(bits: u64) -> int {
    let e = exponent_of(bits);
    let significand = 0x10_0000_0000_0000 + fraction_of(bits);
    if e < 1023 {
        0
    } else if e <= 1075 {
        significand / (pow2((1075 - e) as nat) as int)
    } else {
        significand * pow2((e - 1075) as nat)
    }
}

/// The encoded number truncated toward zero and held to the range of `i32`;
/// a NaN gives zero.
pub open spec fn truncated(bits: u64) -> int {
    if is_nan(bits) {
        0
    } else {
        let whole = whole_magnitude(bits);
        let signed = if sign_of(bits) {
            -whole
        } else {
            whole
        };
        if signed < i32::MIN {
            i32::MIN as int
        } else if signed > i32::MAX {
            i32::MAX as int
        } else {
            signed
        }
    }
}

proof fn lemma_fields(bits: u64)
    ensures
        (bits >> 63) == 1 <==> sign_of(bits),
        ((bits >> 52) & 0x7ff) as int == exponent_of(bits),
        (bits & 0xf_ffff_ffff_ffff) as int == fraction_of(bits),
        0 <= exponent_of(bits) <= 0x7ff,
        0 <= fraction_of(bits) < 0x10_0000_0000_0000,
{
    assert(((bits >> 63) == 1) == (bits >= 0x8000_0000_0000_0000u64)) by (bit_vector);
    assert((bits >> 52) & 0x7ff == (bits / 0x10_0000_0000_0000u64) % 0x800u64) by (bit_vector);
    assert(bits & 0xf_ffff_ffff_ffff == bits % 0x10_0000_0000_0000u64) by (bit_vector);
}

/// With an exponent field of 1054 or more the magnitude is at least `2^31`.
proof fn lemma_large_magnitude(bits: u64)
    requires
        exponent_of(bits) >= 1054,
    ensures
        whole_magnitude(bits) >= 0x8000_0000,
{
    let e = exponent_of(bits);
    let significand = 0x10_0000_0000_0000 + fraction_of(bits);
    lemma2_to64();
    if e <= 1075 {
        let s = (1075 - e) as nat;
        let d = pow2(s) as int;
        lemma_pow2_pos(s);
        if s < 21 {
            lemma_pow2_strictly_increases(s, 21);
        }
        assert(significand >= 0x8000_0000 * d) by (nonlinear_arith)
            requires
                significand >= 0x10_0000_0000_0000,
                0 < d <= 0x20_0000,
        ;
        assert(significand / d >= 0x8000_0000) by (nonlinear_arith)
            requires
                significand >= 0x8000_0000 * d,
                d > 0,
        ;
    } else {
        let p = pow2((e - 1075) as nat) as int;
        lemma_pow2_pos((e - 1075) as nat);
        assert(significand * p >= significand) by (nonlinear_arith)
            requires
                significand >= 0,
                p >= 1,
        ;
    }
}

/// Truncates a binary64 value, given by its encoding, to a 32-bit integer:
/// the fractional part is dropped, values beyond the range of `i32` become
/// the nearest bound, and a NaN becomes zero.
pub fn truncate_to_i32(bits: u64) -> (value: i32)
    ensures
        value as int == truncated(bits),
{
    let negative: bool = (bits >> 63) == 1;
    let exponent: u64 = (bits >> 52) & 0x7ff;
    let fraction: u64 = bits & 0xf_ffff_ffff_ffff;
    proof {
        lemma_fields(bits);
    }
    if exponent == 0x7ff && fraction != 0 {
        return 0;
    }
    if exponent < 1023 {
        return 0;
    }
    if exponent >= 1054 {
        proof {
            lemma_large_magnitude(bits);
        }
        return if negative {
            i32::MIN
        } else {
            i32::MAX
        };
    }
    let significand: u64 = fraction + 0x10_0000_0000_0000;
    let shift: u64 = 1075 - exponent;
    let whole: u64 = significand >> shift;
    proof {
        lemma_u64_shr_is_div(significand, shift);
        assert(significand >> shift < 0x8000_0000) by (bit_vector)
            requires
                significand < 0x20_0000_0000_0000,
                22 <= shift <= 52,
        ;
    }
    if negative {
        (0 - (whole as i64)) as i32
    } else {
        whole as i32
    }
}

/// Half of the room that is left beside a window of the given size on a screen
/// of the given size, rounded down. It is negative when the window is larger
/// than the screen.
pub open spec fn centered_offset_of(screen: int, size: int) -> int {
    (screen - size) / 2
}

/// The left coordinate of a centred window: the centred offset, or
/// [`SAFE_LEFT`] when that offset is negative.
pub open spec fn placed_left(screen_width: int, width: int) -> int {
    let x = centered_offset_of(screen_width, width);
    if x < 0 {
        SAFE_LEFT as int
    } else {
        x
    }
}

/// The top coordinate of a centred window: the centred offset moved down by
/// [`VERTICAL_BIAS`], or [`SAFE_TOP`] when the moved coordinate is negative.
pub open spec fn placed_top(screen_height: int, height: int) -> int {
    let y = centered_offset_of(screen_height, height) + VERTICAL_BIAS;
    if y < 0 {
        SAFE_TOP as int
    } else {
        y
    }
}

/// A window that is not larger than the screen is centred with margins that
/// are equal on both sides, but for the one pixel that an odd room leaves
/// over on the far side.
pub proof fn lemma_centered_margins(screen: int, size: int)
    requires
        size <= screen,
    ensures
        0 <= centered_offset_of(screen, size),
        ({
            let near = centered_offset_of(screen, size);
            let far = screen - (near + size);
            far == near || far == near + 1
        }),
{
}

/// A placed window never has a negative coordinate: where centring would
/// give one, the safe coordinate stands in.
pub proof fn lemma_placed_on_screen(screen_width: int, screen_height: int, width: int, height: int)
    ensures
        placed_left(screen_width, width) >= 0,
        placed_top(screen_height, height) >= 0,
        width <= screen_width ==> placed_left(screen_width, width) == centered_offset_of(
            screen_width,
            width,
        ),
        height <= screen_height ==> placed_top(screen_height, height) == centered_offset_of(
            screen_height,
            height,
        ) + VERTICAL_BIAS,
{
}

/// Computes the offset that centres an extent of `size` within `screen`.
///
/// The library itself never moves a window by this number. The centring
/// script holds the same formula, `(screen - size) / 2`, and the script
/// interpreter works it out when the script runs. This function states what
/// the script computes, rounded down to whole pixels, for callers that want
/// to know the position beforehand.
pub fn centered_offset(screen: i32, size: i32) -> (offset: i64)
    ensures
        offset as int == centered_offset_of(screen as int, size as int),
{
    let room: i64 = screen as i64 - size as i64;
    if room >= 0 {
        room / 2
    } else {
        let lacking: i64 = 0 - room;
        0 - ((lacking + 1) / 2)
    }
}

/// Computes the top-left corner at which a window of `width` by `height` is
/// placed when it is centred on a screen of `screen_width` by `screen_height`.
///
/// Horizontally the window is centred. Vertically it is centred and then moved
/// down by [`VERTICAL_BIAS`]. A coordinate that would be negative is replaced
/// by [`SAFE_LEFT`] or [`SAFE_TOP`].
///
/// This states what the centring script computes; nothing in the library
/// calls it. The script carries the formulas and the two replacements in its
/// own text, and the script interpreter evaluates them, on exact halves, when
/// the script runs. Rounding down keeps the tests for a negative coordinate
/// the same as the script's: half of a room is negative exactly when its
/// rounded-down half is.
pub fn center_position(screen_width: i32, screen_height: i32, width: i32, height: i32) -> (corner: (
    i64,
    i64,
))
    ensures
        corner.0 as int == placed_left(screen_width as int, width as int),
        corner.1 as int == placed_top(screen_height as int, height as int),
{
    let x: i64 = centered_offset(screen_width, width);
    let y: i64 = centered_offset(screen_height, height) + VERTICAL_BIAS as i64;
    let left: i64 = if x < 0 {
        SAFE_LEFT as i64
    } else {
        x
    };
    let top: i64 = if y < 0 {
        SAFE_TOP as i64
    } else {
        y
    };
    (left, top)
}

} // verus!
