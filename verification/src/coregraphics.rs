//! A render context for a retained-state vector engine.
//!
//! The context decides which primitive calls the engine must receive for
//! each drawing request, and in which order. It hands those calls back as a
//! list; whoever owns the engine performs them. The context also keeps count
//! of the engine's graphics-state stack, so that a restore without a save
//! is an error and never reaches the engine.

use vstd::prelude::*;
use piet::kurbo::{Affine, PathEl, Point, Rect};
use piet::{Color, FixedGradient, InterpolationMode};
use crate::bitmap::ImageFormat;
use crate::color::{channels, color_channels, rgba_of, Rgba8};
use crate::error::Error;
use crate::geometry::{default_point, elevate, elevated};
use crate::stroke::{
    convert_line_cap, convert_line_join, copy_reals, stroke_state, CGLineCap, CGLineJoin, Real, StrokeState,
    StrokeStyle, DEFAULT_DASH_PHASE_BITS, DEFAULT_MITER_LIMIT_BITS,
};

verus! {

/// `piet::FixedGradient`: the description of a gradient, carried through.
#[verifier::external_type_specification]
#[verifier::external_body]
pub struct ExFixedGradient(FixedGradient);

/// `kurbo::Rect`: a rectangle, carried through.
#[verifier::external_type_specification]
#[verifier::external_body]
pub struct ExRect(Rect);

/// `piet::InterpolationMode`: how an image is resampled.
#[verifier::external_type_specification]
pub struct ExInterpolationMode(InterpolationMode);

/// An image of the backend. The backend makes none yet.
#[derive(Clone, Copy, Debug, PartialEq, Eq, Structural)]
pub struct CoreGraphicsImage {}

/// What a shape is painted with.
#[derive(Clone, Copy, Debug, PartialEq, Eq, Structural)]
pub enum Brush {
    /// One color, as an RGBA word.
    Solid(u32),
    /// A gradient. No backend call exists for it yet.
    Gradient,
}

/// One primitive call on the engine.
#[derive(Debug, PartialEq)]
pub enum BackendOp {
    BeginPath,
    MoveToPoint(Point),
    AddLineToPoint(Point),
    /// A cubic segment: its two control points and its end.
    AddCurveToPoint(Point, Point, Point),
    ClosePath,
    SetRgbFillColor(Rgba8),
    SetRgbStrokeColor(Rgba8),
    /// Fill the bounding box of the clip region.
    FillClipBounds,
    /// Fill the current path by the nonzero winding rule.
    FillPath,
    /// Fill the current path by the even-odd rule.
    EoFillPath,
    /// Intersect the clip region with the current path.
    Clip,
    StrokePath,
    SetLineWidth(Real),
    SetLineJoin(CGLineJoin),
    SetLineCap(CGLineCap),
    SetMiterLimit(Real),
    /// The dash phase and the dash lengths; no lengths for a solid line.
    SetLineDash(Real, Vec<Real>),
    SaveGState,
    RestoreGState,
    /// Compose a transform onto the current one.
    ConcatCtm(Affine),
}

/// A primitive call as a mathematical value.
pub enum BackendCall {
    BeginPath,
    MoveToPoint(Point),
    AddLineToPoint(Point),
    AddCurveToPoint(Point, Point, Point),
    ClosePath,
    SetRgbFillColor(Rgba8),
    SetRgbStrokeColor(Rgba8),
    FillClipBounds,
    FillPath,
    EoFillPath,
    Clip,
    StrokePath,
    SetLineWidth(Real),
    SetLineJoin(CGLineJoin),
    SetLineCap(CGLineCap),
    SetMiterLimit(Real),
    SetLineDash(Real, Seq<Real>),
    SaveGState,
    RestoreGState,
    ConcatCtm(Affine),
}

impl View for BackendOp {
    type V = BackendCall;

    open spec fn view(&self) -> BackendCall {
        match *self {
            BackendOp::BeginPath => BackendCall::BeginPath,
            BackendOp::MoveToPoint(p) => BackendCall::MoveToPoint(p),
            BackendOp::AddLineToPoint(p) => BackendCall::AddLineToPoint(p),
            BackendOp::AddCurveToPoint(a, b, c) => BackendCall::AddCurveToPoint(a, b, c),
            BackendOp::ClosePath => BackendCall::ClosePath,
            BackendOp::SetRgbFillColor(c) => BackendCall::SetRgbFillColor(c),
            BackendOp::SetRgbStrokeColor(c) => BackendCall::SetRgbStrokeColor(c),
            BackendOp::FillClipBounds => BackendCall::FillClipBounds,
            BackendOp::FillPath => BackendCall::FillPath,
            BackendOp::EoFillPath => BackendCall::EoFillPath,
            BackendOp::Clip => BackendCall::Clip,
            BackendOp::StrokePath => BackendCall::StrokePath,
            BackendOp::SetLineWidth(w) => BackendCall::SetLineWidth(w),
            BackendOp::SetLineJoin(j) => BackendCall::SetLineJoin(j),
            BackendOp::SetLineCap(c) => BackendCall::SetLineCap(c),
            BackendOp::SetMiterLimit(m) => BackendCall::SetMiterLimit(m),
            BackendOp::SetLineDash(phase, lengths) => BackendCall::SetLineDash(phase, lengths@),
            BackendOp::SaveGState => BackendCall::SaveGState,
            BackendOp::RestoreGState => BackendCall::RestoreGState,
            BackendOp::ConcatCtm(t) => BackendCall::ConcatCtm(t),
        }
    }
}

/// The calls that a list of operations stands for.
pub open spec fn calls(ops: Seq<BackendOp>) -> Seq<BackendCall> {
    Seq::new(ops.len(), |i: int| ops[i]@)
}

/// The point that an element leaves as the current one.
pub open spec fn next_point(el: PathEl, last: Point) -> Point {
    match el {
        PathEl::MoveTo(p) => p,
        PathEl::LineTo(p) => p,
        PathEl::QuadTo(_, p) => p,
        PathEl::CurveTo(_, _, p) => p,
        PathEl::ClosePath => last,
    }
}

/// The current point after the first `n` elements of a path that starts
/// with `start` as its current point.
pub open spec fn current_point(els: Seq<PathEl>, start: Point, n: int) -> Point
    decreases n,
{
    if n <= 0 {
        start
    } else {
        next_point(els[n - 1], current_point(els, start, n - 1))
    }
}

/// The call for one element, given the current point. A quadratic segment
/// becomes the cubic segment that traces the same curve.
pub open spec fn element_call(el: PathEl, last: Point) -> BackendCall {
    match el {
        PathEl::MoveTo(p) => BackendCall::MoveToPoint(p),
        PathEl::LineTo(p) => BackendCall::AddLineToPoint(p),
        PathEl::QuadTo(ctrl, end) => BackendCall::AddCurveToPoint(
            elevated(last, ctrl, end).0,
            elevated(last, ctrl, end).1,
            end,
        ),
        PathEl::CurveTo(c1, c2, end) => BackendCall::AddCurveToPoint(c1, c2, end),
        PathEl::ClosePath => BackendCall::ClosePath,
    }
}

/// The calls that build a path: one for each element, in order.
pub open spec fn path_calls(els: Seq<PathEl>, start: Point) -> Seq<BackendCall> {
    Seq::new(els.len(), |i: int| element_call(els[i], current_point(els, start, i)))
}

/// The calls that replace the engine's path by the given one.
pub open spec fn set_path_calls(els: Seq<PathEl>, start: Point) -> Seq<BackendCall> {
    seq![BackendCall::BeginPath] + path_calls(els, start)
}

/// The calls that put the engine in a stroke state.
pub open spec fn stroke_calls(s: StrokeState) -> Seq<BackendCall> {
    seq![
        BackendCall::SetLineWidth(s.width),
        BackendCall::SetLineJoin(s.line_join),
        BackendCall::SetLineCap(s.line_cap),
        BackendCall::SetMiterLimit(s.miter_limit),
        BackendCall::SetLineDash(s.dash_phase, s.dash_lengths),
    ]
}

/// A change to the engine's graphics state that save and restore scope.
pub enum StateChange {
    /// The clip region was intersected with the path that these calls build.
    Clip(Seq<BackendCall>),
    /// A transform was composed onto the current one.
    Transform(Affine),
}

/// The engine's graphics state as the context accounts for it: the changes
/// in force, and the states that were saved and not yet restored.
pub struct GraphicsState {
    pub current: Seq<StateChange>,
    pub saved: Seq<Seq<StateChange>>,
}

impl GraphicsState {
    /// The state of a fresh context.
    pub open spec fn initial() -> GraphicsState {
        GraphicsState { current: Seq::empty(), saved: Seq::empty() }
    }

    /// The state after a change.
    pub open spec fn change(self, c: StateChange) -> GraphicsState {
        GraphicsState { current: self.current.push(c), saved: self.saved }
    }

    /// The state after a save.
    pub open spec fn save(self) -> GraphicsState {
        GraphicsState { current: self.current, saved: self.saved.push(self.current) }
    }

    /// Whether a save is waiting for its restore.
    pub open spec fn can_restore(self) -> bool {
        self.saved.len() > 0
    }

    /// The state after a restore, where one is possible.
    pub open spec fn restore(self) -> GraphicsState {
        GraphicsState { current: self.saved.last(), saved: self.saved.drop_last() }
    }

    /// The state after `n` saves.
    pub open spec fn saves(self, n: nat) -> GraphicsState
        decreases n,
    {
        if n == 0 {
            self
        } else {
            self.saves((n - 1) as nat).save()
        }
    }

    /// The state after `n` restores.
    pub open spec fn restores(self, n: nat) -> GraphicsState
        decreases n,
    {
        if n == 0 {
            self
        } else {
            self.restores((n - 1) as nat).restore()
        }
    }
}

/// A restore undoes the save before it.
pub proof fn lemma_save_then_restore(g: GraphicsState)
    ensures
        g.save().can_restore(),
        g.save().restore() == g,
{
    assert(g.saved.push(g.current).drop_last() =~= g.saved);
}

/// After `n` saves, `k` restores (`k` at most `n`) leave what `n - k` saves
/// alone would have left.
pub proof fn lemma_partial_restores(g: GraphicsState, n: nat, k: nat)
    requires
        k <= n,
    ensures
        g.saves(n).restores(k) == g.saves((n - k) as nat),
    decreases k,
{
    if k > 0 {
        lemma_partial_restores(g, n, (k - 1) as nat);
        lemma_save_then_restore(g.saves((n - k) as nat));
    }
}

/// Saves and restores nest: `n` saves followed by `n` restores leave the
/// clip and the transform, and the stack below, as they were before the
/// first save; each of those restores finds a save to undo; and one restore
/// more is possible only if one was possible before the first save.
pub proof fn lemma_save_restore_nesting(g: GraphicsState, n: nat)
    ensures
        g.saves(n).restores(n) == g,
        forall|k: nat| k < n ==> (#[trigger] g.saves(n).restores(k)).can_restore(),
        g.saves(n).restores(n).can_restore() == g.can_restore(),
{
    lemma_partial_restores(g, n, n);
    assert forall|k: nat| k < n implies (#[trigger] g.saves(n).restores(k)).can_restore() by {
        lemma_partial_restores(g, n, k);
        lemma_save_then_restore(g.saves((n - k - 1) as nat));
    }
}

/// The text interface of the context. Text is not implemented.
#[derive(Clone, Copy, Debug, PartialEq, Eq, Structural)]
pub struct CoreGraphicsText {}

/// A font. The backend builds none yet.
#[derive(Clone, Copy, Debug, PartialEq, Eq, Structural)]
pub struct CoreGraphicsFont {}

/// The builder of a font.
#[derive(Clone, Copy, Debug, PartialEq, Eq, Structural)]
pub struct CoreGraphicsFontBuilder {}

/// A text layout. The backend builds none yet.
#[derive(Clone, Copy, Debug, PartialEq, Eq, Structural)]
pub struct CoreGraphicsTextLayout {}

/// The builder of a text layout.
#[derive(Clone, Copy, Debug, PartialEq, Eq, Structural)]
pub struct CoreGraphicsTextLayoutBuilder {}

impl CoreGraphicsText {
    /// A builder for the named font.
    pub fn new_font_by_name(&mut self, _name: &str, _size: Real) -> (b: CoreGraphicsFontBuilder)
        ensures
            *final(self) == *old(self),
    {
        CoreGraphicsFontBuilder {  }
    }

    /// A builder for a layout of the text in the font.
    pub fn new_text_layout(&mut self, _font: &CoreGraphicsFont, _text: &str, _width: Option<Real>) -> (b:
        CoreGraphicsTextLayoutBuilder)
        ensures
            *final(self) == *old(self),
    {
        CoreGraphicsTextLayoutBuilder {  }
    }
}

impl CoreGraphicsFontBuilder {
    /// Fails with `NotSupported`: the backend builds no fonts.
    pub fn build(self) -> (r: Result<CoreGraphicsFont, Error>)
        ensures
            r == Err::<CoreGraphicsFont, Error>(Error::NotSupported),
    {
        Err(Error::NotSupported)
    }
}

impl CoreGraphicsTextLayoutBuilder {
    /// Fails with `NotSupported`: the backend lays out no text.
    pub fn build(self) -> (r: Result<CoreGraphicsTextLayout, Error>)
        ensures
            r == Err::<CoreGraphicsTextLayout, Error>(Error::NotSupported),
    {
        Err(Error::NotSupported)
    }
}

impl CoreGraphicsTextLayout {
    /// The width of the layout: zero.
    pub fn width(&self) -> (w: Real)
        ensures
            w.bits == 0,
    {
        Real { bits: 0 }
    }
}

impl Brush {
    /// The brush to paint with. A brush needs no geometry to be resolved
    /// and is handed back as it is.
    pub fn make_brush(&self) -> (r: &Brush)
        ensures
            *r == *self,
    {
        self
    }
}

/// `Affine::default()`: the transform that the geometry crate starts from.
#[verifier::external_body]
fn default_transform() -> Affine {
    Affine::default()
}

/// Appends one operation.
fn emit(ops: &mut Vec<BackendOp>, op: BackendOp)
    ensures
        calls(final(ops)@) == calls(old(ops)@).push(op@),
{
    ops.push(op);
    assert(calls(ops@) =~= calls(old(ops)@).push(op@));
}

/// A drawing session on one engine.
pub struct CoreGraphicsContext {
    origin: Point,
    base_transform: Affine,
    depth: usize,
    state: Ghost<GraphicsState>,
    text: CoreGraphicsText,
}

/// What a context is, for contracts.
pub struct ContextModel {
    /// The current point of a path that names none.
    pub origin: Point,
    /// The transform that the context reports: the one that the geometry
    /// crate makes by default, taken when the context was made.
    pub base_transform: Affine,
    /// The graphics state of the engine.
    pub graphics: GraphicsState,
}

impl View for CoreGraphicsContext {
    type V = ContextModel;

    closed spec fn view(&self) -> ContextModel {
        ContextModel { origin: self.origin, base_transform: self.base_transform, graphics: self.state@ }
    }
}

/// The calls of a fill of `path` in the color `rgba`, ended by `rule`.
pub open spec fn fill_calls(path: Seq<PathEl>, start: Point, rgba: u32, rule: BackendCall) -> Seq<BackendCall> {
    set_path_calls(path, start) + seq![BackendCall::SetRgbFillColor(channels(rgba)), rule]
}

/// The calls of a stroke of `path` in the color `rgba`.
pub open spec fn stroke_path_calls(path: Seq<PathEl>, start: Point, rgba: u32, s: StrokeState) -> Seq<
    BackendCall,
> {
    set_path_calls(path, start) + stroke_calls(s) + seq![
        BackendCall::SetRgbStrokeColor(channels(rgba)),
        BackendCall::StrokePath,
    ]
}

impl CoreGraphicsContext {
    #[verifier::type_invariant]
    spec fn well_formed(&self) -> bool {
        self.depth == self.state@.saved.len()
    }

    /// A context on an engine in its initial state: nothing clipped,
    /// nothing transformed, nothing saved.
    pub fn new() -> (ctx: CoreGraphicsContext)
        ensures
            ctx@.graphics == GraphicsState::initial(),
    {
        CoreGraphicsContext {
            origin: default_point(),
            base_transform: default_transform(),
            depth: 0,
            state: Ghost(GraphicsState::initial()),
            text: CoreGraphicsText {  },
        }
    }

    /// The number of saves that wait for their restore.
    pub fn depth(&self) -> (d: usize)
        ensures
            d == self@.graphics.saved.len(),
    {
        proof {
            use_type_invariant(self);
        }
        self.depth
    }

    /// Appends the calls that replace the engine's path.
    fn append_path(&self, ops: &mut Vec<BackendOp>, path: &Vec<PathEl>)
        ensures
            calls(final(ops)@) == calls(old(ops)@) + set_path_calls(path@, self@.origin),
    {
        let ghost before = calls(ops@);
        let ghost start = self.origin;
        emit(ops, BackendOp::BeginPath);
        let mut last: Point = self.origin;
        let mut i: usize = 0;
        while i < path.len()
            invariant
                i <= path.len(),
                start == self@.origin,
                last == current_point(path@, start, i as int),
                calls(ops@) == before + seq![BackendCall::BeginPath] + path_calls(path@, start).take(i as int),
            decreases path.len() - i,
        {
            let ghost sofar = calls(ops@);
            match path[i] {
                PathEl::MoveTo(p) => {
                    emit(ops, BackendOp::MoveToPoint(p));
                    last = p;
                },
                PathEl::LineTo(p) => {
                    emit(ops, BackendOp::AddLineToPoint(p));
                    last = p;
                },
                PathEl::QuadTo(p1, p2) => {
                    let c = elevate(last, p1, p2);
                    emit(ops, BackendOp::AddCurveToPoint(c.0, c.1, p2));
                    last = p2;
                },
                PathEl::CurveTo(p1, p2, p3) => {
                    emit(ops, BackendOp::AddCurveToPoint(p1, p2, p3));
                    last = p3;
                },
                PathEl::ClosePath => {
                    emit(ops, BackendOp::ClosePath);
                },
            }
            proof {
                let all = path_calls(path@, start);
                assert(all.take(i as int + 1) =~= all.take(i as int).push(all[i as int]));
                assert(calls(ops@) =~= before + seq![BackendCall::BeginPath] + all.take(i as int + 1));
            }
            i = i + 1;
        }
        proof {
            let all = path_calls(path@, start);
            assert(all.take(path@.len() as int) =~= all);
            assert(calls(ops@) =~= before + set_path_calls(path@, start));
        }
    }

    /// Appends the calls that put the engine in the stroke state.
    fn append_stroke(ops: &mut Vec<BackendOp>, width: Real, style: Option<&StrokeStyle>)
        ensures
            calls(final(ops)@) == calls(old(ops)@) + stroke_calls(
                stroke_state(
                    width,
                    match style {
                        Some(s) => Some(*s),
                        None => None,
                    },
                ),
            ),
    {
        let ghost before = calls(ops@);
        emit(ops, BackendOp::SetLineWidth(width));
        let line_join = match style {
            Some(s) => match s.line_join {
                Some(j) => convert_line_join(j),
                None => CGLineJoin::CGLineJoinMiter,
            },
            None => CGLineJoin::CGLineJoinMiter,
        };
        emit(ops, BackendOp::SetLineJoin(line_join));
        let line_cap = match style {
            Some(s) => match s.line_cap {
                Some(c) => convert_line_cap(c),
                None => CGLineCap::CGLineCapButt,
            },
            None => CGLineCap::CGLineCapButt,
        };
        emit(ops, BackendOp::SetLineCap(line_cap));
        let miter_limit = match style {
            Some(s) => match s.miter_limit {
                Some(m) => m,
                None => Real { bits: DEFAULT_MITER_LIMIT_BITS },
            },
            None => Real { bits: DEFAULT_MITER_LIMIT_BITS },
        };
        emit(ops, BackendOp::SetMiterLimit(miter_limit));
        match style {
            Some(s) => match &s.dash {
                Some(d) => {
                    emit(ops, BackendOp::SetLineDash(d.1, copy_reals(&d.0)));
                },
                None => {
                    emit(ops, BackendOp::SetLineDash(Real { bits: DEFAULT_DASH_PHASE_BITS }, Vec::new()));
                },
            },
            None => {
                emit(ops, BackendOp::SetLineDash(Real { bits: DEFAULT_DASH_PHASE_BITS }, Vec::new()));
            },
        }
        proof {
            let st = stroke_state(
                width,
                match style {
                    Some(s) => Some(*s),
                    None => None,
                },
            );
            assert(calls(ops@) =~= before + stroke_calls(st));
        }
    }

    /// The calls that replace the engine's path by `path`: a fresh path,
    /// then one call for each element in order. A quadratic segment goes out
    /// as the cubic that the geometry crate raises it to, from the current
    /// point; a path that draws before it moves starts from the context's
    /// origin. Every path is converted to its end.
    pub fn set_path(&mut self, path: &Vec<PathEl>) -> (ops: Vec<BackendOp>)
        ensures
            final(self)@ == old(self)@,
            calls(ops@) == set_path_calls(path@, old(self)@.origin),
    {
        let mut ops: Vec<BackendOp> = Vec::new();
        self.append_path(&mut ops, path);
        assert(calls(ops@) =~= set_path_calls(path@, self@.origin));
        ops
    }

    /// The calls that set the stroke state: the width as given, then join,
    /// cap, miter limit and dashes, each from the style or its default.
    pub fn set_stroke(&mut self, width: Real, style: Option<&StrokeStyle>) -> (ops: Vec<BackendOp>)
        ensures
            final(self)@ == old(self)@,
            calls(ops@) == stroke_calls(
                stroke_state(
                    width,
                    match style {
                        Some(s) => Some(*s),
                        None => None,
                    },
                ),
            ),
    {
        let mut ops: Vec<BackendOp> = Vec::new();
        Self::append_stroke(&mut ops, width, style);
        assert(calls(ops@) =~= stroke_calls(
            stroke_state(
                width,
                match style {
                    Some(s) => Some(*s),
                    None => None,
                },
            ),
        ));
        ops
    }

    /// The call that makes the brush the fill color. A gradient has no
    /// such call: `NotSupported`.
    pub fn set_fill_brush(&mut self, brush: &Brush) -> (r: Result<BackendOp, Error>)
        ensures
            final(self)@ == old(self)@,
            match *brush {
                Brush::Solid(rgba) => r matches Ok(op) && op@ == BackendCall::SetRgbFillColor(channels(rgba)),
                Brush::Gradient => r matches Err(e) && e == Error::NotSupported,
            },
    {
        match *brush {
            Brush::Solid(rgba) => Ok(BackendOp::SetRgbFillColor(color_channels(rgba))),
            Brush::Gradient => Err(Error::NotSupported),
        }
    }

    /// The call that makes the brush the stroke color. A gradient has no
    /// such call: `NotSupported`.
    pub fn set_stroke_brush(&mut self, brush: &Brush) -> (r: Result<BackendOp, Error>)
        ensures
            final(self)@ == old(self)@,
            match *brush {
                Brush::Solid(rgba) => r matches Ok(op) && op@ == BackendCall::SetRgbStrokeColor(channels(rgba)),
                Brush::Gradient => r matches Err(e) && e == Error::NotSupported,
            },
    {
        match *brush {
            Brush::Solid(rgba) => Ok(BackendOp::SetRgbStrokeColor(color_channels(rgba))),
            Brush::Gradient => Err(Error::NotSupported),
        }
    }

    /// The calls that paint the whole clip region in `color`: the fill
    /// color from the four channels of the color, then a fill of the clip's
    /// bounding box.
    pub fn clear(&mut self, color: Color) -> (ops: Vec<BackendOp>)
        ensures
            final(self)@ == old(self)@,
            calls(ops@) == seq![
                BackendCall::SetRgbFillColor(channels(rgba_of(color))),
                BackendCall::FillClipBounds,
            ],
    {
        let rgba: u32 = color.as_rgba_u32();
        let mut ops: Vec<BackendOp> = Vec::new();
        emit(&mut ops, BackendOp::SetRgbFillColor(color_channels(rgba)));
        emit(&mut ops, BackendOp::FillClipBounds);
        assert(calls(ops@) =~= seq![
            BackendCall::SetRgbFillColor(channels(rgba_of(color))),
            BackendCall::FillClipBounds,
        ]);
        ops
    }

    /// A brush of one color. It always succeeds.
    pub fn solid_brush(&mut self, color: Color) -> (b: Brush)
        ensures
            final(self)@ == old(self)@,
            b == Brush::Solid(rgba_of(color)),
    {
        Brush::Solid(color.as_rgba_u32())
    }

    /// Fails with `NotSupported`: the backend has no gradients.
    pub fn gradient(&mut self, _gradient: FixedGradient) -> (r: Result<Brush, Error>)
        ensures
            final(self)@ == old(self)@,
            r == Err::<Brush, Error>(Error::NotSupported),
    {
        Err(Error::NotSupported)
    }

    /// The calls of a fill by `rule`, or `NotSupported` for a gradient.
    fn fill_with(&self, path: &Vec<PathEl>, brush: &Brush, even_odd: bool) -> (r: Result<Vec<BackendOp>, Error>)
        ensures
            match *brush {
                Brush::Solid(rgba) => r matches Ok(ops) && calls(ops@) == fill_calls(
                    path@,
                    self@.origin,
                    rgba,
                    if even_odd {
                        BackendCall::EoFillPath
                    } else {
                        BackendCall::FillPath
                    },
                ),
                Brush::Gradient => r matches Err(e) && e == Error::NotSupported,
            },
    {
        let brush = brush.make_brush();
        match *brush {
            Brush::Solid(rgba) => {
                let mut ops: Vec<BackendOp> = Vec::new();
                self.append_path(&mut ops, path);
                emit(&mut ops, BackendOp::SetRgbFillColor(color_channels(rgba)));
                if even_odd {
                    emit(&mut ops, BackendOp::EoFillPath);
                } else {
                    emit(&mut ops, BackendOp::FillPath);
                }
                assert(calls(ops@) =~= fill_calls(
                    path@,
                    self@.origin,
                    rgba,
                    if even_odd {
                        BackendCall::EoFillPath
                    } else {
                        BackendCall::FillPath
                    },
                ));
                Ok(ops)
            },
            Brush::Gradient => Err(Error::NotSupported),
        }
    }

    /// The calls that fill the path by the nonzero winding rule: the path,
    /// the fill color, the fill. With a gradient brush nothing is drawn and
    /// the request fails with `NotSupported`.
    pub fn fill(&mut self, path: &Vec<PathEl>, brush: &Brush) -> (r: Result<Vec<BackendOp>, Error>)
        ensures
            final(self)@ == old(self)@,
            match *brush {
                Brush::Solid(rgba) => r matches Ok(ops) && calls(ops@) == fill_calls(
                    path@,
                    old(self)@.origin,
                    rgba,
                    BackendCall::FillPath,
                ),
                Brush::Gradient => r matches Err(e) && e == Error::NotSupported,
            },
    {
        self.fill_with(path, brush, false)
    }

    /// The calls that fill the path by the even-odd rule. With a gradient
    /// brush nothing is drawn and the request fails with `NotSupported`.
    pub fn fill_even_odd(&mut self, path: &Vec<PathEl>, brush: &Brush) -> (r: Result<Vec<BackendOp>, Error>)
        ensures
            final(self)@ == old(self)@,
            match *brush {
                Brush::Solid(rgba) => r matches Ok(ops) && calls(ops@) == fill_calls(
                    path@,
                    old(self)@.origin,
                    rgba,
                    BackendCall::EoFillPath,
                ),
                Brush::Gradient => r matches Err(e) && e == Error::NotSupported,
            },
    {
        self.fill_with(path, brush, true)
    }

    /// The calls that intersect the clip region with the path. The clip is
    /// part of the graphics state from then on, until a restore drops it.
    pub fn clip(&mut self, path: &Vec<PathEl>) -> (ops: Vec<BackendOp>)
        ensures
            final(self)@.origin == old(self)@.origin,
            final(self)@.base_transform == old(self)@.base_transform,
            calls(ops@) == set_path_calls(path@, old(self)@.origin).push(BackendCall::Clip),
            final(self)@.graphics == old(self)@.graphics.change(
                StateChange::Clip(set_path_calls(path@, old(self)@.origin)),
            ),
    {
        let mut ops: Vec<BackendOp> = Vec::new();
        self.append_path(&mut ops, path);
        let ghost built = calls(ops@);
        emit(&mut ops, BackendOp::Clip);
        proof {
            use_type_invariant(&*self);
            assert(built =~= set_path_calls(path@, self@.origin));
        }
        self.state = Ghost(self.state@.change(StateChange::Clip(built)));
        ops
    }

    /// The calls of a stroke, or `NotSupported` for a gradient.
    fn stroke_with(&self, path: &Vec<PathEl>, brush: &Brush, width: Real, style: Option<&StrokeStyle>) -> (r:
        Result<Vec<BackendOp>, Error>)
        ensures
            match *brush {
                Brush::Solid(rgba) => r matches Ok(ops) && calls(ops@) == stroke_path_calls(
                    path@,
                    self@.origin,
                    rgba,
                    stroke_state(
                        width,
                        match style {
                            Some(s) => Some(*s),
                            None => None,
                        },
                    ),
                ),
                Brush::Gradient => r matches Err(e) && e == Error::NotSupported,
            },
    {
        let brush = brush.make_brush();
        match *brush {
            Brush::Solid(rgba) => {
                let mut ops: Vec<BackendOp> = Vec::new();
                self.append_path(&mut ops, path);
                Self::append_stroke(&mut ops, width, style);
                emit(&mut ops, BackendOp::SetRgbStrokeColor(color_channels(rgba)));
                emit(&mut ops, BackendOp::StrokePath);
                assert(calls(ops@) =~= stroke_path_calls(
                    path@,
                    self@.origin,
                    rgba,
                    stroke_state(
                        width,
                        match style {
                            Some(s) => Some(*s),
                            None => None,
                        },
                    ),
                ));
                Ok(ops)
            },
            Brush::Gradient => Err(Error::NotSupported),
        }
    }

    /// The calls that stroke the path at `width` with every default: the
    /// path, the stroke state, the stroke color, the stroke. With a gradient
    /// brush nothing is drawn and the request fails with `NotSupported`.
    pub fn stroke(&mut self, path: &Vec<PathEl>, brush: &Brush, width: Real) -> (r: Result<Vec<BackendOp>, Error>)
        ensures
            final(self)@ == old(self)@,
            match *brush {
                Brush::Solid(rgba) => r matches Ok(ops) && calls(ops@) == stroke_path_calls(
                    path@,
                    old(self)@.origin,
                    rgba,
                    stroke_state(width, None),
                ),
                Brush::Gradient => r matches Err(e) && e == Error::NotSupported,
            },
    {
        self.stroke_with(path, brush, width, None)
    }

    /// The calls that stroke the path at `width` in `style`. With a
    /// gradient brush nothing is drawn and the request fails with
    /// `NotSupported`.
    pub fn stroke_styled(&mut self, path: &Vec<PathEl>, brush: &Brush, width: Real, style: &StrokeStyle) -> (r:
        Result<Vec<BackendOp>, Error>)
        ensures
            final(self)@ == old(self)@,
            match *brush {
                Brush::Solid(rgba) => r matches Ok(ops) && calls(ops@) == stroke_path_calls(
                    path@,
                    old(self)@.origin,
                    rgba,
                    stroke_state(width, Some(*style)),
                ),
                Brush::Gradient => r matches Err(e) && e == Error::NotSupported,
            },
    {
        self.stroke_with(path, brush, width, Some(style))
    }

    /// The text interface. It holds no state: each caller gets its own.
    pub fn text(&mut self) -> (t: CoreGraphicsText)
        ensures
            final(self)@ == old(self)@,
            t == (CoreGraphicsText {  }),
    {
        self.text
    }

    /// Fails with `NotSupported`: the backend draws no text.
    pub fn draw_text(&mut self, _layout: &CoreGraphicsTextLayout, _pos: Point, _brush: &Brush) -> (r: Result<
        Vec<BackendOp>,
        Error,
    >)
        ensures
            final(self)@ == old(self)@,
            r matches Err(e) && e == Error::NotSupported,
    {
        Err(Error::NotSupported)
    }

    /// The call that saves the graphics state. The context counts its saves
    /// in a machine word; a save beyond that count fails with
    /// `BackendFailure` and changes nothing.
    pub fn save(&mut self) -> (r: Result<Vec<BackendOp>, Error>)
        ensures
            final(self)@.origin == old(self)@.origin,
            final(self)@.base_transform == old(self)@.base_transform,
            old(self)@.graphics.saved.len() < usize::MAX ==> (r matches Ok(ops) && calls(ops@)
                == seq![BackendCall::SaveGState] && final(self)@.graphics == old(self)@.graphics.save()),
            old(self)@.graphics.saved.len() >= usize::MAX ==> (r matches Err(e) && e == Error::BackendFailure
                && final(self)@ == old(self)@),
    {
        proof {
            use_type_invariant(&*self);
        }
        if self.depth == usize::MAX {
            return Err(Error::BackendFailure);
        }
        let mut ops: Vec<BackendOp> = Vec::new();
        emit(&mut ops, BackendOp::SaveGState);
        assert(calls(ops@) =~= seq![BackendCall::SaveGState]);
        let origin = self.origin;
        let base_transform = self.base_transform;
        let text = self.text;
        let depth: usize = self.depth + 1;
        let state = Ghost(self.state@.save());
        *self = CoreGraphicsContext { origin, base_transform, depth, state, text };
        Ok(ops)
    }

    /// The call that restores the graphics state to what the matching save
    /// found: clip and transform are again what they were then. A restore
    /// with no save to match fails with `BackendFailure`, reaches no engine
    /// and changes nothing.
    pub fn restore(&mut self) -> (r: Result<Vec<BackendOp>, Error>)
        ensures
            final(self)@.origin == old(self)@.origin,
            final(self)@.base_transform == old(self)@.base_transform,
            old(self)@.graphics.can_restore() ==> (r matches Ok(ops) && calls(ops@)
                == seq![BackendCall::RestoreGState] && final(self)@.graphics == old(self)@.graphics.restore()),
            !old(self)@.graphics.can_restore() ==> (r matches Err(e) && e == Error::BackendFailure
                && final(self)@ == old(self)@),
    {
        proof {
            use_type_invariant(&*self);
        }
        if self.depth == 0 {
            return Err(Error::BackendFailure);
        }
        let mut ops: Vec<BackendOp> = Vec::new();
        emit(&mut ops, BackendOp::RestoreGState);
        assert(calls(ops@) =~= seq![BackendCall::RestoreGState]);
        let origin = self.origin;
        let base_transform = self.base_transform;
        let text = self.text;
        let depth: usize = self.depth - 1;
        let state = Ghost(self.state@.restore());
        *self = CoreGraphicsContext { origin, base_transform, depth, state, text };
        Ok(ops)
    }

    /// Ends the session. The engine holds nothing back, so nothing is left
    /// to flush.
    pub fn finish(&mut self) -> (r: Result<(), Error>)
        ensures
            final(self)@ == old(self)@,
            r is Ok,
    {
        Ok(())
    }

    /// The call that composes `transform` onto the current transform. The
    /// transform is part of the graphics state from then on, until a
    /// restore drops it.
    pub fn transform(&mut self, transform: Affine) -> (ops: Vec<BackendOp>)
        ensures
            final(self)@.origin == old(self)@.origin,
            final(self)@.base_transform == old(self)@.base_transform,
            calls(ops@) == seq![BackendCall::ConcatCtm(transform)],
            final(self)@.graphics == old(self)@.graphics.change(StateChange::Transform(transform)),
    {
        let mut ops: Vec<BackendOp> = Vec::new();
        emit(&mut ops, BackendOp::ConcatCtm(transform));
        assert(calls(ops@) =~= seq![BackendCall::ConcatCtm(transform)]);
        proof {
            use_type_invariant(&*self);
        }
        self.state = Ghost(self.state@.change(StateChange::Transform(transform)));
        ops
    }

    /// The transform that the context reports. The engine reports none to
    /// the context, so the answer is the same at every moment of a session,
    /// whatever was composed, saved or restored: the transform that the
    /// geometry crate makes by default.
    pub fn current_transform(&self) -> (t: Affine)
        ensures
            t == self@.base_transform,
    {
        self.base_transform
    }

    /// Fails with `NotSupported`: the backend makes no images.
    pub fn make_image(&mut self, _width: usize, _height: usize, _buf: &[u8], _format: ImageFormat) -> (r: Result<
        CoreGraphicsImage,
        Error,
    >)
        ensures
            final(self)@ == old(self)@,
            r == Err::<CoreGraphicsImage, Error>(Error::NotSupported),
    {
        Err(Error::NotSupported)
    }

    /// Fails with `NotSupported`: the backend draws no blurred rectangles.
    pub fn blurred_rect(&mut self, _rect: Rect, _blur_radius: Real, _brush: &Brush) -> (r: Result<
        Vec<BackendOp>,
        Error,
    >)
        ensures
            final(self)@ == old(self)@,
            r matches Err(e) && e == Error::NotSupported,
    {
        Err(Error::NotSupported)
    }

    /// Fails with `NotSupported`: the backend draws no images.
    pub fn draw_image(&mut self, _image: &CoreGraphicsImage, _rect: Rect, _interp: InterpolationMode) -> (r: Result<
        Vec<BackendOp>,
        Error,
    >)
        ensures
            final(self)@ == old(self)@,
            r matches Err(e) && e == Error::NotSupported,
    {
        Err(Error::NotSupported)
    }

    /// Fails with `NotSupported`: the backend draws no images.
    pub fn draw_image_area(
        &mut self,
        _image: &CoreGraphicsImage,
        _src_rect: Rect,
        _dst_rect: Rect,
        _interp: InterpolationMode,
    ) -> (r: Result<Vec<BackendOp>, Error>)
        ensures
            final(self)@ == old(self)@,
            r matches Err(e) && e == Error::NotSupported,
    {
        Err(Error::NotSupported)
    }

    /// Fails with `NotSupported`: the engine reports no status.
    pub fn status(&mut self) -> (r: Result<(), Error>)
        ensures
            final(self)@ == old(self)@,
            r == Err::<(), Error>(Error::NotSupported),
    {
        Err(Error::NotSupported)
    }
}

} // verus!
