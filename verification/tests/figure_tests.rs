use rtplot::{
    calc_xlims, AxisLimits, Figure, FigureConfig, FigureState, PlotError, PlotType, Point2D,
    SurfaceEvent,
};

#[test]
fn builder_sets_configuration() {
    let fig = Figure::new(5)
        .xlim([0, 1])
        .ylim([-2, 2])
        .xlabel("time".to_string())
        .ylabel("volts".to_string())
        .color(0x80, 0x00, 0x80)
        .plot_type(PlotType::Line);
    assert_eq!(fig.config.xlim, AxisLimits::Fixed(0, 1));
    assert_eq!(fig.config.ylim, AxisLimits::Fixed(-2, 2));
    assert_eq!(fig.config.xlabel, Some("time".to_string()));
    assert_eq!(fig.config.ylabel, Some("volts".to_string()));
    assert_eq!(fig.config.color, [0x80, 0x00, 0x80]);
    assert_eq!(fig.config.plot_type, PlotType::Line);
    assert_eq!(fig.state, FigureState::Unbound);
}

#[test]
fn default_configuration_is_dynamic_black_dots() {
    let config: FigureConfig = Default::default();
    assert_eq!(config.xlim, AxisLimits::Auto);
    assert_eq!(config.ylim, AxisLimits::Auto);
    assert_eq!(config.xlabel, None);
    assert_eq!(config.ylabel, None);
    assert_eq!(config.color, [0, 0, 0]);
    assert_eq!(config.plot_type, PlotType::Dot);
}

#[test]
fn new_with_config_keeps_configuration() {
    let config = FigureConfig {
        xlim: AxisLimits::Fixed(0, 10),
        ylim: AxisLimits::Auto,
        xlabel: None,
        ylabel: None,
        color: [7, 7, 7],
        plot_type: PlotType::Line,
    };
    let fig = Figure::new_with_config(config, 8);
    assert_eq!(fig.config.xlim, AxisLimits::Fixed(0, 10));
    assert_eq!(fig.config.color, [7, 7, 7]);
    assert_eq!(fig.state, FigureState::Unbound);
    assert_eq!(fig.queue_size, 8);
}

#[test]
fn plot_before_bind_is_refused() {
    let mut fig = Figure::new(4);
    assert_eq!(fig.plot_xy(&[(0, 0)]).unwrap_err(), PlotError::UnboundFigure);
    assert_eq!(fig.plot_y(&[1]).unwrap_err(), PlotError::UnboundFigure);
    assert_eq!(fig.plot_stream(&[1]).unwrap_err(), PlotError::UnboundFigure);
}

#[test]
fn binding_twice_is_refused() {
    let mut fig = Figure::new(4);
    assert!(fig.bind().is_ok());
    assert_eq!(fig.bind().unwrap_err(), PlotError::AlreadyBound);
}

#[test]
fn closed_figure_refuses_everything() {
    let mut fig = Figure::new(4);
    fig.bind().unwrap();
    fig.close();
    assert_eq!(fig.state, FigureState::Closed);
    assert_eq!(fig.plot_xy(&[(0, 0)]).unwrap_err(), PlotError::FigureClosed);
    assert_eq!(fig.bind().unwrap_err(), PlotError::FigureClosed);
}

#[test]
fn fixed_window_culls_outsiders() {
    let mut fig = Figure::new(0).xlim([0, 10]);
    fig.bind().unwrap();
    let frame = fig.plot_xy(&[(-1, 0), (5, 5), (11, 0)]).unwrap();
    assert_eq!(frame.vertices.len(), 1);
    assert!(frame.vertices[0].x.same_value(0, 1));
    assert!(frame.vertices[0].y.same_value(3, 4));
    assert_eq!(frame.xlim, Some((0, 10)));
    assert_eq!(frame.ylim, Some((0, 5)));
}

#[test]
fn dynamic_axes_map_extent_to_clip_corners() {
    let mut fig = Figure::new(0);
    fig.bind().unwrap();
    let frame = fig.plot_xy(&[(0, 0), (10, 10)]).unwrap();
    assert_eq!(frame.vertices.len(), 2);
    assert!(frame.vertices[0].x.same_value(-3, 4));
    assert!(frame.vertices[0].y.same_value(-3, 4));
    assert!(frame.vertices[1].x.same_value(3, 4));
    assert!(frame.vertices[1].y.same_value(3, 4));
    assert_eq!(frame.xlim, Some((0, 10)));
    assert_eq!(frame.ylim, Some((0, 10)));
}

#[test]
fn override_plotting_is_idempotent() {
    let mut fig = Figure::new(0).xlim([0, 10]).ylim([0, 10]);
    fig.bind().unwrap();
    let pts = [(1, 2), (3, 4), (9, 9)];
    let first = fig.plot_xy(&pts).unwrap();
    let second = fig.plot_xy(&pts).unwrap();
    assert_eq!(first, second);
}

#[test]
fn degenerate_window_never_divides_by_zero() {
    let mut fig = Figure::new(0).xlim([5, 5]).ylim([0, 10]);
    fig.bind().unwrap();
    let frame = fig.plot_xy(&[(5, 7)]).unwrap();
    assert_eq!(frame.vertices.len(), 1);
    assert_eq!(frame.vertices[0].x.den, 4);
    assert!(frame.vertices[0].x.same_value(27, 4));
    assert!(frame.vertices[0].y.same_value(12, 40));
}

#[test]
fn plot_y_interpolates_by_arrival_index() {
    let mut fig = Figure::new(0);
    fig.bind().unwrap();
    let frame = fig.plot_y(&[10, 20, 30]).unwrap();
    assert_eq!(frame.vertices.len(), 3);
    assert!(frame.vertices[0].x.same_value(-3, 4));
    assert!(frame.vertices[1].x.same_value(0, 1));
    assert!(frame.vertices[2].x.same_value(3, 4));
    assert!(frame.vertices[0].y.same_value(-3, 4));
    assert!(frame.vertices[1].y.same_value(0, 1));
    assert!(frame.vertices[2].y.same_value(3, 4));
    assert_eq!(frame.xlim, Some((0, 2)));
    assert_eq!(frame.ylim, Some((10, 30)));
}

#[test]
fn empty_dynamic_plot_is_a_noop_frame() {
    let mut fig = Figure::new(0);
    fig.bind().unwrap();
    let frame = fig.plot_xy(&[]).unwrap();
    assert_eq!(frame.vertices.len(), 0);
    assert_eq!(frame.xlim, None);
    assert_eq!(frame.ylim, None);
}

#[test]
fn empty_extent_is_an_error() {
    assert_eq!(calc_xlims(&[]).unwrap_err(), PlotError::EmptyInput);
    assert_eq!(
        calc_xlims(&[Point2D::new(3, 1), Point2D::new(-2, 0)]).unwrap(),
        [-2, 3]
    );
}

#[test]
fn streaming_draws_the_retained_window() {
    let mut fig = Figure::new(3);
    fig.bind().unwrap();
    let frame = fig.plot_stream(&[1, 2, 3, 4, 5]).unwrap();
    assert_eq!(fig.samples.iter(), vec![3, 4, 5]);
    assert_eq!(frame.vertices.len(), 3);
    assert!(frame.vertices[0].y.same_value(-3, 4));
    assert!(frame.vertices[1].y.same_value(0, 1));
    assert!(frame.vertices[2].y.same_value(3, 4));
    let frame2 = fig.plot_stream(&[6]).unwrap();
    assert_eq!(fig.samples.iter(), vec![4, 5, 6]);
    assert_eq!(frame2.vertices.len(), 3);
}

#[test]
fn complex_streaming_draws_re_against_im() {
    let mut fig = Figure::new(2);
    fig.bind().unwrap();
    let frame = fig.plot_complex_stream(&[(0, 0), (4, 8), (10, 20)]).unwrap();
    assert_eq!(fig.complex_samples.iter(), vec![(4, 8), (10, 20)]);
    assert_eq!(frame.vertices.len(), 2);
    assert_eq!(frame.xlim, Some((4, 10)));
    assert_eq!(frame.ylim, Some((8, 20)));
}

#[test]
fn plot_complex_overrides_without_queueing() {
    let mut fig = Figure::new(2);
    fig.bind().unwrap();
    let frame = fig.plot_complex(&[(0, 0), (2, 2)]).unwrap();
    assert_eq!(frame.vertices.len(), 2);
    assert_eq!(fig.complex_samples.len(), 0);
    assert_eq!(fig.samples.len(), 0);
}

#[test]
fn close_events_close_the_figure() {
    let mut fig = Figure::new(0);
    fig.bind().unwrap();
    assert!(!fig.should_close_window(&[SurfaceEvent::Other]));
    assert_eq!(fig.state, FigureState::Bound);
    assert!(fig.should_close_window(&[SurfaceEvent::Other, SurfaceEvent::Destroyed]));
    assert_eq!(fig.state, FigureState::Closed);
}

#[test]
fn close_request_event_counts_as_close() {
    let mut fig = Figure::new(0);
    fig.bind().unwrap();
    assert!(fig.should_close_window(&[SurfaceEvent::CloseRequested]));
    assert_eq!(fig.plot_y(&[1]).unwrap_err(), PlotError::FigureClosed);
}
