//! What the animation looks like: the shade of a glyph by its brightness,
//! and the banner by the phase.

use crate::matrix::{AnimationPhase, AnimationView, MatrixAnimation};
use crate::rain::UNIT;
use vstd::prelude::*;
use vstd::string::StringExecFns;

verus! {

/// A colour.
#[derive(Clone, Copy, Debug, PartialEq, Eq, Structural)]
pub enum Tint {
    White,
    LightGreen,
    Green,
    Cyan,
    Red,
}

/// How a glyph is drawn.
#[derive(Clone, Copy, Debug, PartialEq, Eq, Structural)]
pub struct Shade {
    pub tint: Tint,
    pub bold: bool,
}

/// The brightness up to which a glyph is not drawn: a hundredth of full.
pub const FAINT: u32 = 10_000;

/// How a glyph of this brightness is drawn: not at all up to [`FAINT`],
/// green up to four tenths of full brightness, light green up to eight
/// tenths, white above, and bold above nine tenths.
pub open spec fn shade_at(brightness: int) -> Option<Shade> {
    if brightness <= FAINT {
        None
    } else {
        Some(
            Shade {
                tint: if brightness > 800_000 {
                    Tint::White
                } else if brightness > 400_000 {
                    Tint::LightGreen
                } else {
                    Tint::Green
                },
                bold: brightness > 900_000,
            },
        )
    }
}

/// How a glyph of this brightness is drawn, if it is drawn.
pub fn shade_of(brightness: u32) -> (shade: Option<Shade>)
    ensures
        shade == shade_at(brightness as int),
{
    if brightness <= FAINT {
        None
    } else {
        let tint = if brightness > 800_000 {
            Tint::White
        } else if brightness > 400_000 {
            Tint::LightGreen
        } else {
            Tint::Green
        };
        Some(Shade { tint, bold: brightness > 900_000 })
    }
}

/// The colour of the banner's frame in this phase.
pub open spec fn frame_at(phase: AnimationPhase) -> Tint {
    match phase {
        AnimationPhase::Failed => Tint::Red,
        AnimationPhase::Success => Tint::LightGreen,
        AnimationPhase::Decoding => Tint::LightGreen,
        _ => Tint::Cyan,
    }
}

/// The colour of the banner's frame in this phase.
pub fn frame_of(phase: AnimationPhase) -> (tint: Tint)
    ensures
        tint == frame_at(phase),
{
    match phase {
        AnimationPhase::Failed => Tint::Red,
        AnimationPhase::Success => Tint::LightGreen,
        AnimationPhase::Decoding => Tint::LightGreen,
        _ => Tint::Cyan,
    }
}

/// The number of dots after the banner of a credential check under way: a
/// dot more every half second, from none to three, and over again.
pub open spec fn dots_at(elapsed: u64) -> int {
    ((elapsed / 500) % 4) as int
}

/// Whether the cursor shows after the typed text: every other half second.
pub open spec fn cursor_at(elapsed: u64) -> bool {
    (elapsed / 500) % 2 == 0
}

/// `count` dots.
pub open spec fn dots(count: int) -> Seq<char> {
    Seq::new(count as nat, |i: int| '.')
}

/// The banner of an animation whose clock stands at `elapsed` milliseconds.
pub open spec fn banner_at(animation: AnimationView, elapsed: u64) -> Seq<char> {
    match animation.phase {
        AnimationPhase::MatrixRain => Seq::empty(),
        AnimationPhase::Authenticating => "🔐 BIOMETRIC SCAN IN PROGRESS"@ + dots(dots_at(elapsed)),
        AnimationPhase::Decoding => "> "@ + animation.typed_part() + if cursor_at(elapsed) {
            "█"@
        } else {
            Seq::empty()
        },
        AnimationPhase::Success => "🚀 ENTERING THE MATRIX..."@,
        AnimationPhase::Failed => "❌ ACCESS DENIED - AUTHENTICATION FAILED"@,
    }
}

/// The banner of `animation` when its clock stands at `elapsed`
/// milliseconds.
pub fn banner_of(animation: &MatrixAnimation, elapsed: u64) -> (banner: String)
    ensures
        banner@ == banner_at(animation@, elapsed),
{
    match animation.phase() {
        AnimationPhase::MatrixRain => String::new(),
        AnimationPhase::Authenticating => {
            let mut banner = String::from_str("🔐 BIOMETRIC SCAN IN PROGRESS");
            let count = (elapsed / 500) % 4;
            let mut index: u64 = 0;
            while index < count
                invariant
                    index <= count,
                    banner@ == "🔐 BIOMETRIC SCAN IN PROGRESS"@ + dots(index as int),
                decreases count - index,
            {
                proof {
                    reveal_strlit(".");
                    assert(dots(index as int) + "."@ =~= dots(index + 1));
                    assert(banner@ + "."@ =~= "🔐 BIOMETRIC SCAN IN PROGRESS"@ + (dots(index as int)
                        + "."@));
                }
                banner.append(".");
                index = index + 1;
            }
            banner
        },
        AnimationPhase::Decoding => {
            let mut banner = String::from_str("> ");
            banner.append(animation.typed_message());
            if (elapsed / 500) % 2 == 0 {
                banner.append("█");
            } else {
                assert(banner@ + Seq::<char>::empty() =~= banner@);
            }
            banner
        },
        AnimationPhase::Success => String::from_str("🚀 ENTERING THE MATRIX..."),
        AnimationPhase::Failed => String::from_str("❌ ACCESS DENIED - AUTHENTICATION FAILED"),
    }
}

} // verus!
