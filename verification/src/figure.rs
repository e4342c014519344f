use vstd::prelude::*;

use crate::normalize::{culled_points, norm_vertices, point_in_bounds, Vertex};
use crate::queue::{last_window, ComplexSampleQueue, SampleQueue};
use crate::utils::{calc_xlims, calc_ylims, xs_of, ys_of, Point2D};

verus! {

/// How a frame's vertices are rendered.
#[derive(Copy, Clone, Debug, PartialEq, Eq, Structural)]
pub enum PlotType {
    /// Draws a continuous line between points.
    Line,
    /// Each point is drawn as a small dot.
    Dot,
}

impl Default for PlotType {
    /// Defaults to a dot plot.
    fn default() -> (r: Self)
        ensures
            r == PlotType::Dot,
    {
        PlotType::Dot
    }
}

/// One axis of the view window: fixed for the figure's lifetime, or re-fitted
/// to the visible data on every frame.
#[derive(Copy, Clone, Debug, PartialEq, Eq, Structural)]
pub enum AxisLimits {
    /// Re-fit the axis to the current point set each frame.
    Auto,
    /// Keep the axis at the configured `min`, `max` window.
    Fixed(i32, i32),
}

impl Default for AxisLimits {
    /// Defaults to a dynamic axis.
    fn default() -> (r: Self)
        ensures
            r == AxisLimits::Auto,
    {
        AxisLimits::Auto
    }
}

/// Everything a figure reads on each frame: view limits, labels, color and
/// plot style. Assembled up front; immutable once the figure is bound.
#[derive(Clone, Debug)]
pub struct FigureConfig {
    /// The x-axis window; `Auto` re-fits it to the data every frame.
    pub xlim: AxisLimits,
    /// The y-axis window; `Auto` re-fits it to the data every frame.
    pub ylim: AxisLimits,
    /// A label for the x axis, if any.
    pub xlabel: Option<String>,
    /// A label for the y axis, if any.
    pub ylabel: Option<String>,
    /// The color of points or lines, one byte per channel.
    pub color: [u8; 3],
    /// The style vertices are rendered in.
    pub plot_type: PlotType,
}

impl Default for FigureConfig {
    /// Dynamic axes, no labels, black dots.
    fn default() -> (r: Self)
        ensures
            r.xlim == AxisLimits::Auto,
            r.ylim == AxisLimits::Auto,
            r.xlabel is None,
            r.ylabel is None,
            r.color == [0u8, 0u8, 0u8],
            r.plot_type == PlotType::Dot,
    {
        FigureConfig {
            xlim: AxisLimits::Auto,
            ylim: AxisLimits::Auto,
            xlabel: None,
            ylabel: None,
            color: [0, 0, 0],
            plot_type: PlotType::Dot,
        }
    }
}

/// Where a figure stands in its lifecycle: configured but not yet backed by
/// a display surface, live, or torn down.
#[derive(Copy, Clone, Debug, PartialEq, Eq, Structural)]
pub enum FigureState {
    /// Configuration only; no surface, no buffers.
    Unbound,
    /// A surface is attached and the sample capacity is fixed.
    Bound,
    /// Terminal: the surface is gone and no further draws are accepted.
    Closed,
}

/// Why a figure operation was refused, or why a frame had no data.
#[derive(Copy, Clone, Debug, PartialEq, Eq, Structural)]
pub enum PlotError {
    /// A per-frame operation ran before the figure was bound.
    UnboundFigure,
    /// `bind` ran on a figure that already has a surface.
    AlreadyBound,
    /// An operation ran after the figure was closed.
    FigureClosed,
    /// An extent was requested over zero points.
    EmptyInput,
}

/// What the display surface reported when polled for events.
#[derive(Copy, Clone, Debug, PartialEq, Eq, Structural)]
pub enum SurfaceEvent {
    /// The user asked the window to close.
    CloseRequested,
    /// The surface was destroyed outright.
    Destroyed,
    /// Anything else; plotting goes on.
    Other,
}

/// Whether one polled event asks the figure to shut down.
pub open spec fn is_close_event(e: SurfaceEvent) -> bool {
    e is CloseRequested || e is Destroyed
}

/// Whether any event of a polled batch asks the figure to shut down.
pub open spec fn close_requested(events: Seq<SurfaceEvent>) -> bool
    decreases events.len(),
{
    if events.len() == 0 {
        false
    } else {
        is_close_event(events.last()) || close_requested(events.drop_last())
    }
}

/// One frame handed to the display surface: exact clip-space vertices plus
/// the style and the limits the axes resolved to (for tick decoration).
#[derive(Debug, PartialEq)]
pub struct Frame {
    /// The vertices to draw, in input order.
    pub vertices: Vec<Vertex>,
    /// How to render them.
    pub plot_type: PlotType,
    /// The x window this frame was projected through, if one was resolvable.
    pub xlim: Option<(i32, i32)>,
    /// The y window this frame was projected through, if one was resolvable.
    pub ylim: Option<(i32, i32)>,
}

/// The window an axis resolves to: the configured one when fixed, the data
/// extent when dynamic, and nothing when dynamic with no data.
pub open spec fn resolve_axis(lim: AxisLimits, coords: Seq<int>) -> Option<(int, int)> {
    match lim {
        AxisLimits::Fixed(a, b) => Some((a as int, b as int)),
        AxisLimits::Auto => if coords.len() == 0 {
            None
        } else {
            Some((coords.min(), coords.max()))
        },
    }
}

/// `resolve_axis`, narrowed back to machine integers for the frame record.
pub open spec fn resolved_of(lim: AxisLimits, coords: Seq<int>) -> Option<(i32, i32)> {
    match resolve_axis(lim, coords) {
        Some((a, b)) => Some((a as i32, b as i32)),
        None => None,
    }
}

/// The vertices one frame draws for a point set under a configuration:
/// resolve both axes, cull against the window, normalize the survivors.
/// A dynamic axis with no data yields an empty frame.
pub open spec fn frame_vertices(points: Seq<Point2D>, config: FigureConfig) -> Seq<Vertex> {
    match (resolve_axis(config.xlim, xs_of(points)), resolve_axis(config.ylim, ys_of(points))) {
        (Some((xmn, xmx)), Some((ymn, ymx))) => norm_vertices(
            points,
            xmn,
            xmx,
            ymn,
            ymx,
            config.color,
        ),
        _ => Seq::empty(),
    }
}

/// What a correct frame for `pts` under `config` looks like.
pub open spec fn frame_matches(f: Frame, pts: Seq<Point2D>, config: FigureConfig) -> bool {
    &&& f.vertices@ == frame_vertices(pts, config)
    &&& f.plot_type == config.plot_type
    &&& f.xlim == resolved_of(config.xlim, xs_of(pts))
    &&& f.ylim == resolved_of(config.ylim, ys_of(pts))
}

/// The points an explicit (x, y) batch stands for.
pub open spec fn points_of(pairs: Seq<(i32, i32)>) -> Seq<Point2D> {
    pairs.map_values(|t: (i32, i32)| Point2D { x: t.0, y: t.1 })
}

/// The points a bare sample series stands for: x is the arrival index, so
/// consecutive samples sit at uniform spacing; a dynamic x axis then maps
/// them across the full clip interval whatever the count.
pub open spec fn interp_points(ys: Seq<i32>) -> Seq<Point2D> {
    Seq::new(ys.len(), |i: int| Point2D { x: i as i32, y: ys[i] })
}

/// A figure: one configuration, one pair of bounded sample queues, and the
/// lifecycle state of its display surface. Per-frame calls yield [`Frame`]
/// values for the surface; the surface itself lives outside the library.
pub struct Figure {
    /// The immutable per-frame configuration.
    pub config: FigureConfig,
    /// Where the figure stands in its lifecycle.
    pub state: FigureState,
    /// The fixed streaming capacity, mirrored by both queues.
    pub queue_size: usize,
    /// The bounded queue of streamed real samples.
    pub samples: SampleQueue,
    /// The bounded queue of streamed complex samples.
    pub complex_samples: ComplexSampleQueue,
}

impl Figure {
    /// Where the figure stands in its lifecycle.
    pub open spec fn spec_state(&self) -> FigureState {
        self.state
    }

    /// The streamed real samples, oldest first.
    pub open spec fn samples_view(&self) -> Seq<i32> {
        self.samples@
    }

    /// The streamed complex samples, oldest first, as (re, im).
    pub open spec fn complex_view(&self) -> Seq<(i32, i32)> {
        self.complex_samples@
    }

    /// The fixed streaming capacity.
    pub open spec fn spec_capacity(&self) -> nat {
        self.queue_size as nat
    }

    /// Both queues fit the configured capacity, which itself fits the
    /// coordinate range used for interpolated x values.
    pub open spec fn wf(&self) -> bool {
        &&& self.samples.wf()
        &&& self.complex_samples.wf()
        &&& self.samples.spec_capacity() == self.queue_size as nat
        &&& self.complex_samples.spec_capacity() == self.queue_size as nat
        &&& self.queue_size <= 0x7fff_ffff
    }

    /// A fresh, unbound figure with default settings and the given streaming
    /// capacity.
    pub fn new(queue_size: usize) -> (f: Figure)
        requires
            queue_size <= 0x7fff_ffff,
        ensures
            f.wf(),
            f.spec_state() is Unbound,
            f.spec_capacity() == queue_size as nat,
            f.samples_view() == Seq::<i32>::empty(),
            f.complex_view() == Seq::<(i32, i32)>::empty(),
            f.config.xlim is Auto,
            f.config.ylim is Auto,
            f.config.xlabel is None,
            f.config.ylabel is None,
            f.config.color == [0u8, 0u8, 0u8],
            f.config.plot_type == PlotType::Dot,
    {
        Figure {
            config: Default::default(),
            state: FigureState::Unbound,
            queue_size,
            samples: SampleQueue::new(queue_size),
            complex_samples: ComplexSampleQueue::new(queue_size),
        }
    }

    /// A fresh, unbound figure from an existing configuration.
    pub fn new_with_config(config: FigureConfig, queue_size: usize) -> (f: Figure)
        requires
            queue_size <= 0x7fff_ffff,
        ensures
            f.wf(),
            f.spec_state() is Unbound,
            f.spec_capacity() == queue_size as nat,
            f.samples_view() == Seq::<i32>::empty(),
            f.complex_view() == Seq::<(i32, i32)>::empty(),
            f.config == config,
    {
        Figure {
            config,
            state: FigureState::Unbound,
            queue_size,
            samples: SampleQueue::new(queue_size),
            complex_samples: ComplexSampleQueue::new(queue_size),
        }
    }

    /// Sets a fixed x window; the axis stops re-fitting to the data.
    pub fn xlim(self, xlim: [i32; 2]) -> (f: Figure)
        requires
            self.spec_state() is Unbound,
        ensures
            f.config.xlim == AxisLimits::Fixed(xlim[0], xlim[1]),
            f.config.ylim == self.config.ylim,
            f.config.xlabel == self.config.xlabel,
            f.config.ylabel == self.config.ylabel,
            f.config.color == self.config.color,
            f.config.plot_type == self.config.plot_type,
            f.spec_state() == self.spec_state(),
            f.spec_capacity() == self.spec_capacity(),
            f.samples_view() == self.samples_view(),
            f.complex_view() == self.complex_view(),
            self.wf() ==> f.wf(),
    {
        let min: i32 = xlim[0];
        let max: i32 = xlim[1];
        Figure { config: FigureConfig { xlim: AxisLimits::Fixed(min, max), ..self.config }, ..self }
    }

    /// Sets a fixed y window; the axis stops re-fitting to the data.
    pub fn ylim(self, ylim: [i32; 2]) -> (f: Figure)
        requires
            self.spec_state() is Unbound,
        ensures
            f.config.ylim == AxisLimits::Fixed(ylim[0], ylim[1]),
            f.config.xlim == self.config.xlim,
            f.config.xlabel == self.config.xlabel,
            f.config.ylabel == self.config.ylabel,
            f.config.color == self.config.color,
            f.config.plot_type == self.config.plot_type,
            f.spec_state() == self.spec_state(),
            f.spec_capacity() == self.spec_capacity(),
            f.samples_view() == self.samples_view(),
            f.complex_view() == self.complex_view(),
            self.wf() ==> f.wf(),
    {
        let min: i32 = ylim[0];
        let max: i32 = ylim[1];
        Figure { config: FigureConfig { ylim: AxisLimits::Fixed(min, max), ..self.config }, ..self }
    }

    /// Sets the x-axis label.
    pub fn xlabel(self, xlabel: String) -> (f: Figure)
        requires
            self.spec_state() is Unbound,
        ensures
            f.config.xlabel == Some(xlabel),
            f.config.xlim == self.config.xlim,
            f.config.ylim == self.config.ylim,
            f.config.ylabel == self.config.ylabel,
            f.config.color == self.config.color,
            f.config.plot_type == self.config.plot_type,
            f.spec_state() == self.spec_state(),
            f.spec_capacity() == self.spec_capacity(),
            f.samples_view() == self.samples_view(),
            f.complex_view() == self.complex_view(),
            self.wf() ==> f.wf(),
    {
        Figure { config: FigureConfig { xlabel: Some(xlabel), ..self.config }, ..self }
    }

    /// Sets the y-axis label.
    pub fn ylabel(self, ylabel: String) -> (f: Figure)
        requires
            self.spec_state() is Unbound,
        ensures
            f.config.ylabel == Some(ylabel),
            f.config.xlim == self.config.xlim,
            f.config.ylim == self.config.ylim,
            f.config.xlabel == self.config.xlabel,
            f.config.color == self.config.color,
            f.config.plot_type == self.config.plot_type,
            f.spec_state() == self.spec_state(),
            f.spec_capacity() == self.spec_capacity(),
            f.samples_view() == self.samples_view(),
            f.complex_view() == self.complex_view(),
            self.wf() ==> f.wf(),
    {
        Figure { config: FigureConfig { ylabel: Some(ylabel), ..self.config }, ..self }
    }

    /// Sets the color points or lines are drawn in.
    pub fn color(self, r: u8, g: u8, b: u8) -> (f: Figure)
        requires
            self.spec_state() is Unbound,
        ensures
            f.config.color == [r, g, b],
            f.config.xlim == self.config.xlim,
            f.config.ylim == self.config.ylim,
            f.config.xlabel == self.config.xlabel,
            f.config.ylabel == self.config.ylabel,
            f.config.plot_type == self.config.plot_type,
            f.spec_state() == self.spec_state(),
            f.spec_capacity() == self.spec_capacity(),
            f.samples_view() == self.samples_view(),
            f.complex_view() == self.complex_view(),
            self.wf() ==> f.wf(),
    {
        Figure { config: FigureConfig { color: [r, g, b], ..self.config }, ..self }
    }

    /// Sets the plot style.
    pub fn plot_type(self, plot_type: PlotType) -> (f: Figure)
        requires
            self.spec_state() is Unbound,
        ensures
            f.config.plot_type == plot_type,
            f.config.xlim == self.config.xlim,
            f.config.ylim == self.config.ylim,
            f.config.xlabel == self.config.xlabel,
            f.config.ylabel == self.config.ylabel,
            f.config.color == self.config.color,
            f.spec_state() == self.spec_state(),
            f.spec_capacity() == self.spec_capacity(),
            f.samples_view() == self.samples_view(),
            f.complex_view() == self.complex_view(),
            self.wf() ==> f.wf(),
    {
        Figure { config: FigureConfig { plot_type, ..self.config }, ..self }
    }

    /// Attaches the display surface: the capacity becomes final and the
    /// figure starts accepting per-frame calls. Binding twice is refused,
    /// as is reviving a closed figure.
    pub fn bind(&mut self) -> (r: Result<(), PlotError>)
        ensures
            final(self).config == old(self).config,
            final(self).spec_capacity() == old(self).spec_capacity(),
            final(self).samples_view() == old(self).samples_view(),
            final(self).complex_view() == old(self).complex_view(),
            old(self).wf() ==> final(self).wf(),
            r is Ok <==> old(self).spec_state() is Unbound,
            old(self).spec_state() is Unbound ==> final(self).spec_state() is Bound,
            old(self).spec_state() is Bound ==> r == Err::<(), PlotError>(PlotError::AlreadyBound)
                && final(self).spec_state() is Bound,
            old(self).spec_state() is Closed ==> r == Err::<(), PlotError>(PlotError::FigureClosed)
                && final(self).spec_state() is Closed,
    {
        match self.state {
            FigureState::Unbound => {
                self.state = FigureState::Bound;
                Ok(())
            },
            FigureState::Bound => Err(PlotError::AlreadyBound),
            FigureState::Closed => Err(PlotError::FigureClosed),
        }
    }

    /// Tears the figure down; no further draws are accepted.
    pub fn close(&mut self)
        ensures
            final(self).spec_state() is Closed,
            final(self).config == old(self).config,
            final(self).spec_capacity() == old(self).spec_capacity(),
            final(self).samples_view() == old(self).samples_view(),
            final(self).complex_view() == old(self).complex_view(),
            old(self).wf() ==> final(self).wf(),
    {
        self.state = FigureState::Closed;
    }

    /// Digests one batch of polled surface events: reports whether any asked
    /// the figure to close, and if one did, closes it.
    pub fn should_close_window(&mut self, events: &[SurfaceEvent]) -> (r: bool)
        ensures
            r == close_requested(events@),
            !r ==> *final(self) == *old(self),
            r ==> final(self).spec_state() is Closed,
            final(self).config == old(self).config,
            final(self).spec_capacity() == old(self).spec_capacity(),
            final(self).samples_view() == old(self).samples_view(),
            final(self).complex_view() == old(self).complex_view(),
            old(self).wf() ==> final(self).wf(),
    {
        let n: usize = events.len();
        let mut i: usize = 0;
        let mut saw_close: bool = false;
        proof {
            assert(events@.take(0) =~= Seq::<SurfaceEvent>::empty());
        }
        while i < n
            invariant
                0 <= i <= n,
                n == events@.len(),
                saw_close == close_requested(events@.take(i as int)),
            decreases n - i,
        {
            let ev = events[i];
            proof {
                assert(events@.take(i as int + 1).drop_last() =~= events@.take(i as int));
                assert(events@.take(i as int + 1).last() == ev);
            }
            match ev {
                SurfaceEvent::CloseRequested => {
                    saw_close = true;
                },
                SurfaceEvent::Destroyed => {
                    saw_close = true;
                },
                SurfaceEvent::Other => {},
            }
            i = i + 1;
        }
        proof {
            assert(events@.take(n as int) =~= events@);
        }
        if saw_close {
            self.state = FigureState::Closed;
        }
        saw_close
    }

    /// Refuses per-frame work unless the figure is live.
    fn check_bound(&self) -> (r: Result<(), PlotError>)
        ensures
            r is Ok <==> self.spec_state() is Bound,
            self.spec_state() is Unbound ==> r == Err::<(), PlotError>(PlotError::UnboundFigure),
            self.spec_state() is Closed ==> r == Err::<(), PlotError>(PlotError::FigureClosed),
    {
        match self.state {
            FigureState::Bound => Ok(()),
            FigureState::Unbound => Err(PlotError::UnboundFigure),
            FigureState::Closed => Err(PlotError::FigureClosed),
        }
    }

    /// Draws an explicit point set in override mode: the queue is bypassed
    /// and the frame shows exactly the given points.
    pub fn plot_xy(&mut self, points: &[(i32, i32)]) -> (r: Result<Frame, PlotError>)
        ensures
            *final(self) == *old(self),
            r is Ok <==> old(self).spec_state() is Bound,
            old(self).spec_state() is Unbound ==> r == Err::<Frame, PlotError>(
                PlotError::UnboundFigure,
            ),
            old(self).spec_state() is Closed ==> r == Err::<Frame, PlotError>(
                PlotError::FigureClosed,
            ),
            r matches Ok(f) ==> frame_matches(f, points_of(points@), old(self).config),
    {
        match self.check_bound() {
            Err(e) => Err(e),
            Ok(()) => {
                let pts = pairs_to_points(points);
                Ok(render_points(&pts, &self.config))
            },
        }
    }

    /// Draws a bare sample series in override mode; x-coordinates are the
    /// arrival indices, uniformly spaced.
    pub fn plot_y(&mut self, y_coords: &[i32]) -> (r: Result<Frame, PlotError>)
        requires
            y_coords@.len() <= 0x7fff_ffff,
        ensures
            *final(self) == *old(self),
            r is Ok <==> old(self).spec_state() is Bound,
            old(self).spec_state() is Unbound ==> r == Err::<Frame, PlotError>(
                PlotError::UnboundFigure,
            ),
            old(self).spec_state() is Closed ==> r == Err::<Frame, PlotError>(
                PlotError::FigureClosed,
            ),
            r matches Ok(f) ==> frame_matches(f, interp_points(y_coords@), old(self).config),
    {
        match self.check_bound() {
            Err(e) => Err(e),
            Ok(()) => {
                let pts = series_to_points(y_coords);
                Ok(render_points(&pts, &self.config))
            },
        }
    }

    /// Draws a complex point set in override mode: re on x, im on y.
    pub fn plot_complex(&mut self, coords: &[(i32, i32)]) -> (r: Result<Frame, PlotError>)
        ensures
            *final(self) == *old(self),
            r is Ok <==> old(self).spec_state() is Bound,
            old(self).spec_state() is Unbound ==> r == Err::<Frame, PlotError>(
                PlotError::UnboundFigure,
            ),
            old(self).spec_state() is Closed ==> r == Err::<Frame, PlotError>(
                PlotError::FigureClosed,
            ),
            r matches Ok(f) ==> frame_matches(f, points_of(coords@), old(self).config),
    {
        match self.check_bound() {
            Err(e) => Err(e),
            Ok(()) => {
                let pts = pairs_to_points(coords);
                Ok(render_points(&pts, &self.config))
            },
        }
    }

    /// Streams a batch of real samples: appends to the queue, evicts the
    /// overflow, and draws the whole retained window, x interpolated by
    /// arrival index.
    pub fn plot_stream(&mut self, y_coords: &[i32]) -> (r: Result<Frame, PlotError>)
        requires
            old(self).wf(),
        ensures
            final(self).wf(),
            final(self).config == old(self).config,
            final(self).spec_state() == old(self).spec_state(),
            final(self).spec_capacity() == old(self).spec_capacity(),
            final(self).complex_view() == old(self).complex_view(),
            r is Ok <==> old(self).spec_state() is Bound,
            !(old(self).spec_state() is Bound) ==> final(self).samples_view() == old(
                self,
            ).samples_view(),
            old(self).spec_state() is Unbound ==> r == Err::<Frame, PlotError>(
                PlotError::UnboundFigure,
            ),
            old(self).spec_state() is Closed ==> r == Err::<Frame, PlotError>(
                PlotError::FigureClosed,
            ),
            old(self).spec_state() is Bound ==> final(self).samples_view() == last_window(
                old(self).spec_capacity(),
                old(self).samples_view() + y_coords@,
            ),
            r matches Ok(f) ==> frame_matches(
                f,
                interp_points(
                    last_window(old(self).spec_capacity(), old(self).samples_view() + y_coords@),
                ),
                old(self).config,
            ),
    {
        match self.check_bound() {
            Err(e) => Err(e),
            Ok(()) => {
                self.samples.push_batch(y_coords);
                let window = self.samples.iter();
                let pts = series_to_points(window.as_slice());
                Ok(render_points(&pts, &self.config))
            },
        }
    }

    /// Streams a batch of complex samples: appends to the complex queue,
    /// evicts the overflow, and draws the retained window, re on x, im on y.
    pub fn plot_complex_stream(&mut self, points: &[(i32, i32)]) -> (r: Result<Frame, PlotError>)
        requires
            old(self).wf(),
        ensures
            final(self).wf(),
            final(self).config == old(self).config,
            final(self).spec_state() == old(self).spec_state(),
            final(self).spec_capacity() == old(self).spec_capacity(),
            final(self).samples_view() == old(self).samples_view(),
            r is Ok <==> old(self).spec_state() is Bound,
            !(old(self).spec_state() is Bound) ==> final(self).complex_view() == old(
                self,
            ).complex_view(),
            old(self).spec_state() is Unbound ==> r == Err::<Frame, PlotError>(
                PlotError::UnboundFigure,
            ),
            old(self).spec_state() is Closed ==> r == Err::<Frame, PlotError>(
                PlotError::FigureClosed,
            ),
            old(self).spec_state() is Bound ==> final(self).complex_view() == last_window(
                old(self).spec_capacity(),
                old(self).complex_view() + points@,
            ),
            r matches Ok(f) ==> frame_matches(
                f,
                points_of(
                    last_window(old(self).spec_capacity(), old(self).complex_view() + points@),
                ),
                old(self).config,
            ),
    {
        match self.check_bound() {
            Err(e) => Err(e),
            Ok(()) => {
                self.complex_samples.push_batch(points);
                let window = self.complex_samples.iter();
                let pts = pairs_to_points(window.as_slice());
                Ok(render_points(&pts, &self.config))
            },
        }
    }
}

/// Converts an (x, y) batch into points.
fn pairs_to_points(pairs: &[(i32, i32)]) -> (pts: Vec<Point2D>)
    ensures
        pts@ == points_of(pairs@),
{
    let mut pts: Vec<Point2D> = Vec::new();
    let n: usize = pairs.len();
    let mut i: usize = 0;
    while i < n
        invariant
            0 <= i <= n,
            n == pairs@.len(),
            pts@.len() == i,
            forall|j: int|
                0 <= j < i ==> pts@[j] == (Point2D { x: pairs@[j].0, y: pairs@[j].1 }),
        decreases n - i,
    {
        let pair = pairs[i];
        pts.push(Point2D { x: pair.0, y: pair.1 });
        i = i + 1;
    }
    proof {
        assert(pts@ =~= points_of(pairs@));
    }
    pts
}

/// Converts a bare series into points, x running over arrival indices.
fn series_to_points(ys: &[i32]) -> (pts: Vec<Point2D>)
    requires
        ys@.len() <= 0x7fff_ffff,
    ensures
        pts@ == interp_points(ys@),
{
    let mut pts: Vec<Point2D> = Vec::new();
    let n: usize = ys.len();
    let mut i: usize = 0;
    while i < n
        invariant
            0 <= i <= n,
            n == ys@.len() <= 0x7fff_ffff,
            pts@.len() == i,
            forall|j: int| 0 <= j < i ==> pts@[j] == (Point2D { x: j as i32, y: ys@[j] }),
        decreases n - i,
    {
        pts.push(Point2D { x: i as i32, y: ys[i] });
        i = i + 1;
    }
    proof {
        assert(pts@ =~= interp_points(ys@));
    }
    pts
}

/// Resolves both axes over a point set and produces the frame: the one
/// place the whole culling and normalization pipeline is assembled.
fn render_points(points: &Vec<Point2D>, config: &FigureConfig) -> (f: Frame)
    ensures
        frame_matches(f, points@, *config),
{
    let rx: Option<(i32, i32)> = match config.xlim {
        AxisLimits::Fixed(a, b) => Some((a, b)),
        AxisLimits::Auto => {
            match calc_xlims(points.as_slice()) {
                Ok(mm) => {
                    proof {
                        xs_of(points@).min_ensures();
                        xs_of(points@).max_ensures();
                    }
                    Some((mm[0], mm[1]))
                },
                Err(_) => None,
            }
        },
    };
    let ry: Option<(i32, i32)> = match config.ylim {
        AxisLimits::Fixed(a, b) => Some((a, b)),
        AxisLimits::Auto => {
            match calc_ylims(points.as_slice()) {
                Ok(mm) => {
                    proof {
                        ys_of(points@).min_ensures();
                        ys_of(points@).max_ensures();
                    }
                    Some((mm[0], mm[1]))
                },
                Err(_) => None,
            }
        },
    };
    let vertices: Vec<Vertex> = match (rx, ry) {
        (Some((xmn, xmx)), Some((ymn, ymx))) => crate::normalize::normalize_points(
            points.as_slice(),
            xmn,
            xmx,
            ymn,
            ymx,
            config.color,
        ),
        _ => Vec::new(),
    };
    Frame { vertices, plot_type: config.plot_type, xlim: rx, ylim: ry }
}

/// Law: override-mode plotting is idempotent. A plot call leaves the figure
/// exactly as it found it (see `plot_xy`), and any two frames drawn from the
/// same points under the same configuration agree in every field — so
/// plotting the same points twice produces bit-identical output.
pub proof fn lemma_override_idempotent(
    first: Frame,
    second: Frame,
    pts: Seq<Point2D>,
    config: FigureConfig,
)
    requires
        frame_matches(first, pts, config),
        frame_matches(second, pts, config),
    ensures
        first.vertices@ == second.vertices@,
        first.plot_type == second.plot_type,
        first.xlim == second.xlim,
        first.ylim == second.ylim,
{
}

/// With a dynamic x axis an interpolated series always spans the window
/// exactly: the x extent of the arrival indices is `(0, n - 1)`, so by the
/// endpoint law the first sample lands on the left end of the clip interval
/// and the last on the right end, whatever the sample count — the same
/// frame that uniform spacing over any other interval would give.
pub proof fn lemma_interp_spans_extent(ys: Seq<i32>)
    requires
        2 <= ys.len() <= 0x8000_0000,
    ensures
        xs_of(interp_points(ys)).min() == 0,
        xs_of(interp_points(ys)).max() == ys.len() - 1,
{
    let xs = xs_of(interp_points(ys));
    assert(xs.len() == ys.len());
    assert forall|i: int| 0 <= i < xs.len() implies #[trigger] xs[i] == i by {
        assert(0 <= i <= 0x7fff_ffff);
        assert(interp_points(ys)[i].x == i as i32);
    }
    xs.min_ensures();
    xs.max_ensures();
    assert(xs.contains(xs.min()));
    let jmin = choose|j: int| 0 <= j < xs.len() && xs[j] == xs.min();
    assert(xs.min() == jmin >= 0);
    assert(xs.min() <= xs[0] == 0);
    assert(xs.contains(xs.max()));
    let jmax = choose|j: int| 0 <= j < xs.len() && xs[j] == xs.max();
    assert(xs.max() == jmax <= xs.len() - 1);
    assert(xs.max() >= xs[xs.len() - 1] == xs.len() - 1);
}

/// Every point inside the window survives culling unchanged; with bounds
/// that already contain all points, the culling pass keeps the whole set.
pub proof fn lemma_all_in_bounds_kept(
    pts: Seq<Point2D>,
    xmn: int,
    xmx: int,
    ymn: int,
    ymx: int,
)
    requires
        forall|i: int| 0 <= i < pts.len() ==> point_in_bounds(#[trigger] pts[i], xmn, xmx, ymn, ymx),
    ensures
        culled_points(pts, xmn, xmx, ymn, ymx) == pts,
    decreases pts.len(),
{
    if pts.len() > 0 {
        assert(forall|i: int|
            0 <= i < pts.drop_last().len() ==> point_in_bounds(
                #[trigger] pts.drop_last()[i],
                xmn,
                xmx,
                ymn,
                ymx,
            ));
        lemma_all_in_bounds_kept(pts.drop_last(), xmn, xmx, ymn, ymx);
        assert(culled_points(pts, xmn, xmx, ymn, ymx) =~= pts);
    } else {
        assert(culled_points(pts, xmn, xmx, ymn, ymx) =~= pts);
    }
}

/// Law: with dynamic axes nothing is ever culled — the axes re-fit to the
/// data extent, which bounds every point, so the frame draws one vertex per
/// input point.
pub proof fn lemma_dynamic_keeps_all(pts: Seq<Point2D>, config: FigureConfig)
    requires
        config.xlim is Auto,
        config.ylim is Auto,
        pts.len() > 0,
    ensures
        frame_vertices(pts, config).len() == pts.len(),
{
    let xs = xs_of(pts);
    let ys = ys_of(pts);
    xs.min_ensures();
    xs.max_ensures();
    ys.min_ensures();
    ys.max_ensures();
    assert forall|i: int|
        0 <= i < pts.len() implies point_in_bounds(
        #[trigger] pts[i],
        xs.min(),
        xs.max(),
        ys.min(),
        ys.max(),
    ) by {
        assert(xs[i] == pts[i].x as int);
        assert(ys[i] == pts[i].y as int);
    }
    lemma_all_in_bounds_kept(pts, xs.min(), xs.max(), ys.min(), ys.max());
}

} // verus!
