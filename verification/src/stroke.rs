//! Stroke styles and their translation to the backend's stroke state.

use vstd::prelude::*;
use piet::{LineCap, LineJoin};

verus! {

/// `piet::LineJoin`: how two segments of a stroke meet.
#[verifier::external_type_specification]
pub struct ExLineJoin(LineJoin);

/// `piet::LineCap`: how a stroke ends.
#[verifier::external_type_specification]
pub struct ExLineCap(LineCap);

/// A real quantity that the library hands on and never computes with (a
/// width, a miter limit, a dash length), held as the bit pattern of its
/// 64-bit binary floating-point value.
#[derive(Clone, Copy, Debug, PartialEq, Eq, Structural)]
pub struct Real {
    pub bits: u64,
}

/// The bit pattern of 10, the miter limit of a stroke without a style.
pub const DEFAULT_MITER_LIMIT_BITS: u64 = 0x4024_0000_0000_0000;

/// The bit pattern of 0, the dash phase of a stroke without dashes.
pub const DEFAULT_DASH_PHASE_BITS: u64 = 0;

/// The backend's names for line joins.
#[derive(Clone, Copy, Debug, PartialEq, Eq, Structural)]
pub enum CGLineJoin {
    CGLineJoinMiter,
    CGLineJoinRound,
    CGLineJoinBevel,
}

/// The backend's names for line caps.
#[derive(Clone, Copy, Debug, PartialEq, Eq, Structural)]
pub enum CGLineCap {
    CGLineCapButt,
    CGLineCapRound,
    CGLineCapSquare,
}

/// What a stroke overrides. A field left `None` takes its default: a miter
/// join, a butt cap, a miter limit of 10, no dashes.
pub struct StrokeStyle {
    pub line_join: Option<LineJoin>,
    pub line_cap: Option<LineCap>,
    /// The dash lengths and the phase at which the pattern starts.
    pub dash: Option<(Vec<Real>, Real)>,
    pub miter_limit: Option<Real>,
}

/// The backend's join for an abstract one.
pub open spec fn native_join(line_join: LineJoin) -> CGLineJoin {
    match line_join {
        LineJoin::Miter => CGLineJoin::CGLineJoinMiter,
        LineJoin::Round => CGLineJoin::CGLineJoinRound,
        LineJoin::Bevel => CGLineJoin::CGLineJoinBevel,
    }
}

/// The backend's cap for an abstract one.
pub open spec fn native_cap(line_cap: LineCap) -> CGLineCap {
    match line_cap {
        LineCap::Butt => CGLineCap::CGLineCapButt,
        LineCap::Round => CGLineCap::CGLineCapRound,
        LineCap::Square => CGLineCap::CGLineCapSquare,
    }
}

pub fn convert_line_join(line_join: LineJoin) -> (r: CGLineJoin)
    ensures
        r == native_join(line_join),
{
    match line_join {
        LineJoin::Miter => CGLineJoin::CGLineJoinMiter,
        LineJoin::Round => CGLineJoin::CGLineJoinRound,
        LineJoin::Bevel => CGLineJoin::CGLineJoinBevel,
    }
}

pub fn convert_line_cap(line_cap: LineCap) -> (r: CGLineCap)
    ensures
        r == native_cap(line_cap),
{
    match line_cap {
        LineCap::Butt => CGLineCap::CGLineCapButt,
        LineCap::Round => CGLineCap::CGLineCapRound,
        LineCap::Square => CGLineCap::CGLineCapSquare,
    }
}

/// The stroke state that the backend is put in before a stroke.
pub struct StrokeState {
    pub width: Real,
    pub line_join: CGLineJoin,
    pub line_cap: CGLineCap,
    pub miter_limit: Real,
    pub dash_phase: Real,
    pub dash_lengths: Seq<Real>,
}

/// The stroke state for a width and an optional style: each override that
/// the style holds, and the default for each that it does not. Widths and
/// dash lengths are taken as they are, whatever their sign.
pub open spec fn stroke_state(width: Real, style: Option<StrokeStyle>) -> StrokeState {
    StrokeState {
        width,
        line_join: match style {
            Some(StrokeStyle { line_join: Some(j), .. }) => native_join(j),
            _ => CGLineJoin::CGLineJoinMiter,
        },
        line_cap: match style {
            Some(StrokeStyle { line_cap: Some(c), .. }) => native_cap(c),
            _ => CGLineCap::CGLineCapButt,
        },
        miter_limit: match style {
            Some(StrokeStyle { miter_limit: Some(m), .. }) => m,
            _ => Real { bits: DEFAULT_MITER_LIMIT_BITS },
        },
        dash_phase: match style {
            Some(StrokeStyle { dash: Some(d), .. }) => d.1,
            _ => Real { bits: DEFAULT_DASH_PHASE_BITS },
        },
        dash_lengths: match style {
            Some(StrokeStyle { dash: Some(d), .. }) => d.0@,
            _ => Seq::<Real>::empty(),
        },
    }
}

/// A copy of a list of reals.
pub fn copy_reals(v: &Vec<Real>) -> (r: Vec<Real>)
    ensures
        r@ == v@,
{
    let mut r: Vec<Real> = Vec::new();
    let mut i: usize = 0;
    while i < v.len()
        invariant
            i <= v.len(),
            r@ == v@.subrange(0, i as int),
        decreases v.len() - i,
    {
        r.push(v[i]);
        i = i + 1;
        assert(r@ =~= v@.subrange(0, i as int));
    }
    assert(v@.subrange(0, v@.len() as int) =~= v@);
    r
}

} // verus!
