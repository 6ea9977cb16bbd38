use glwindow::render::POINT_SIZE;
use glwindow::window::Phase;
use glwindow::{
    normalize, react, Color, CreateOptions, DevicePoint, DrawCommand, LoopEvent, PixelPoint,
    PointPlot, Plotter, Position, Ratio, Reaction, Signal, Size, Step, SurfaceFormat, Window,
};

fn value(r: Ratio) -> f32 {
    r.num as f32 / r.den as f32
}

fn client() -> Size {
    Size { width: 800, height: 600 }
}

fn press(x: i32, y: i32) -> Signal {
    Signal::PrimaryPress { at: PixelPoint { x, y }, client: client() }
}

fn plot_window() -> Window<PointPlot, Plotter, Plotter> {
    Window::create(CreateOptions {
        title: String::from("MyWindow"),
        size: client(),
        state: PointPlot::new(),
        click_handler: Plotter,
        tick_handler: Plotter,
    })
}

fn device_of(x: i32, y: i32) -> (f32, f32) {
    let pos = normalize(PixelPoint { x, y }, client());
    let d = pos.to_device();
    (value(d.x), value(d.y))
}

#[test]
fn centre_click_maps_to_device_origin() {
    let pos = normalize(PixelPoint { x: 400, y: 300 }, client());
    assert_eq!(value(pos.x), 0.5);
    assert_eq!(value(pos.y), 0.5);
    assert_eq!(device_of(400, 300), (0.0, 0.0));
}

#[test]
fn top_left_click_maps_to_device_corner() {
    let pos = normalize(PixelPoint { x: 0, y: 0 }, client());
    assert_eq!(value(pos.x), 0.0);
    assert_eq!(value(pos.y), 0.0);
    assert_eq!(device_of(0, 0), (-1.0, 1.0));
}

#[test]
fn bottom_right_click_maps_to_opposite_corner() {
    let pos = normalize(PixelPoint { x: 800, y: 600 }, client());
    assert_eq!(value(pos.x), 1.0);
    assert_eq!(value(pos.y), 1.0);
    assert_eq!(device_of(800, 600), (1.0, -1.0));
}

#[test]
fn quarter_click_has_exact_fractions() {
    let pos = normalize(PixelPoint { x: 200, y: 450 }, client());
    assert_eq!(pos.x, Ratio { num: 200, den: 800 });
    assert_eq!(pos.y, Ratio { num: 450, den: 600 });
    let d = pos.to_device();
    assert_eq!(d.x, Ratio { num: -400, den: 800 });
    assert_eq!(d.y, Ratio { num: -300, den: 600 });
    assert_eq!((value(d.x), value(d.y)), (-0.5, -0.5));
}

#[test]
fn device_point_solves_back_to_pixel() {
    for &(x, y) in &[(0, 0), (1, 599), (400, 300), (799, 1), (800, 600), (123, 456)] {
        let d = normalize(PixelPoint { x, y }, client()).to_device();
        let px = (d.x.num as i64 + d.x.den as i64) * 800 / (2 * d.x.den as i64);
        let py = (d.y.den as i64 - d.y.num as i64) * 600 / (2 * d.y.den as i64);
        assert_eq!((px, py), (x as i64, y as i64));
    }
}

#[test]
fn distinct_pixels_give_distinct_positions() {
    let a = normalize(PixelPoint { x: 10, y: 20 }, client());
    let b = normalize(PixelPoint { x: 11, y: 20 }, client());
    assert_ne!(value(a.x), value(b.x));
    assert!(value(a.x) >= 0.0 && value(a.x) <= 1.0);
    assert!(value(b.y) >= 0.0 && value(b.y) <= 1.0);
}

#[test]
fn two_clicks_before_a_tick_are_drawn_in_order() {
    let mut w = plot_window();
    assert!(matches!(w.step(LoopEvent::Signal(press(0, 0))), Step::Dispatch(Reaction::Click(_))));
    assert!(matches!(
        w.step(LoopEvent::Signal(press(800, 600))),
        Step::Dispatch(Reaction::Click(_))
    ));
    assert_eq!(w.state().points().len(), 2);
    let cmds = match w.step(LoopEvent::Drained { client: client() }) {
        Step::Draw(c) => c,
        _ => panic!("expected a frame"),
    };
    let vertices: Vec<DevicePoint> = cmds
        .iter()
        .filter_map(|c| match c {
            DrawCommand::Vertex(d) => Some(*d),
            _ => None,
        })
        .collect();
    assert_eq!(vertices.len(), 2);
    assert_eq!((value(vertices[0].x), value(vertices[0].y)), (-1.0, 1.0));
    assert_eq!((value(vertices[1].x), value(vertices[1].y)), (1.0, -1.0));
}

#[test]
fn close_then_queued_clicks_never_reach_the_handler() {
    let mut w = plot_window();
    assert!(matches!(w.step(LoopEvent::Signal(Signal::Close)), Step::Dispatch(Reaction::Closed)));
    assert!(w.closed());
    assert!(matches!(w.step(LoopEvent::Signal(press(400, 300))), Step::Dispatch(Reaction::Dropped)));
    assert!(matches!(w.step(LoopEvent::Signal(press(10, 10))), Step::Dispatch(Reaction::Dropped)));
    assert_eq!(w.state().points().len(), 0);
    assert!(matches!(w.step(LoopEvent::Drained { client: client() }), Step::Exit));
    assert_eq!(w.current_phase(), Phase::Finished);
    assert!(matches!(w.step(LoopEvent::Signal(press(1, 1))), Step::Exit));
    assert_eq!(w.into_state().points().len(), 0);
}

#[test]
fn closed_flag_never_reverts() {
    let mut w = plot_window();
    assert!(!w.closed());
    w.dispatch(Signal::Other);
    assert!(!w.closed());
    w.dispatch(Signal::Close);
    assert!(w.closed());
    for s in [Signal::Paint, Signal::Other, press(5, 5), Signal::Close] {
        w.dispatch(s);
        assert!(w.closed());
    }
}

#[test]
fn loop_runs_frames_until_close() {
    let mut w = plot_window();
    for _ in 0..3 {
        assert!(matches!(w.step(LoopEvent::Drained { client: client() }), Step::Draw(_)));
        assert_eq!(w.current_phase(), Phase::Presenting);
        assert!(matches!(w.step(LoopEvent::Presented { ok: true }), Step::Drain));
        assert_eq!(w.current_phase(), Phase::Draining);
    }
}

#[test]
fn failed_present_ends_the_loop() {
    let mut w = plot_window();
    assert!(matches!(w.step(LoopEvent::Drained { client: client() }), Step::Draw(_)));
    assert!(matches!(w.step(LoopEvent::Presented { ok: false }), Step::Exit));
    assert_eq!(w.current_phase(), Phase::Finished);
    assert!(w.closed());
    assert_eq!(w.dispatch(press(400, 300)), Reaction::Dropped);
    assert_eq!(w.state().points().len(), 0);
}

#[test]
fn close_during_frame_exits_after_present() {
    let mut w = plot_window();
    assert!(matches!(w.step(LoopEvent::Drained { client: client() }), Step::Draw(_)));
    assert!(matches!(w.step(LoopEvent::Signal(Signal::Close)), Step::Dispatch(Reaction::Closed)));
    assert!(matches!(w.step(LoopEvent::Presented { ok: true }), Step::Exit));
    assert_eq!(w.current_phase(), Phase::Finished);
}

#[test]
fn closed_window_does_not_tick() {
    let mut w = plot_window();
    w.dispatch(press(400, 300));
    w.dispatch(Signal::Close);
    assert!(matches!(w.step(LoopEvent::Drained { client: client() }), Step::Exit));
    assert_eq!(w.current_phase(), Phase::Finished);
    assert_eq!(w.state().points().len(), 1);
}

#[test]
fn begin_on_closed_window_exits_without_draining() {
    let mut w = plot_window();
    w.dispatch(Signal::Close);
    assert!(matches!(w.begin(), Step::Exit));
    assert_eq!(w.current_phase(), Phase::Finished);
    assert!(matches!(w.step(LoopEvent::Drained { client: client() }), Step::Exit));
}

#[test]
fn begin_on_open_window_drains() {
    let mut w = plot_window();
    assert!(matches!(w.begin(), Step::Drain));
    assert_eq!(w.current_phase(), Phase::Draining);
    assert!(!w.closed());
}

fn recorded_after_click(x: i32, y: i32) -> (f32, f32) {
    let mut w = plot_window();
    assert!(matches!(w.step(LoopEvent::Signal(press(x, y))), Step::Dispatch(Reaction::Click(_))));
    let points = w.state().points();
    assert_eq!(points.len(), 1);
    (value(points[0].x), value(points[0].y))
}

#[test]
fn window_records_centre_click() {
    assert_eq!(recorded_after_click(400, 300), (0.5, 0.5));
}

#[test]
fn window_records_top_left_click() {
    assert_eq!(recorded_after_click(0, 0), (0.0, 0.0));
}

#[test]
fn window_records_bottom_right_click() {
    assert_eq!(recorded_after_click(800, 600), (1.0, 1.0));
}

#[test]
fn window_records_clicks_in_order() {
    let mut w = plot_window();
    w.dispatch(press(200, 150));
    w.dispatch(press(600, 450));
    let points = w.state().points();
    assert_eq!(points.len(), 2);
    assert_eq!((value(points[0].x), value(points[0].y)), (0.25, 0.25));
    assert_eq!((value(points[1].x), value(points[1].y)), (0.75, 0.75));
}

#[test]
fn events_out_of_turn_change_nothing() {
    let mut w = plot_window();
    assert!(matches!(w.step(LoopEvent::Presented { ok: true }), Step::Drain));
    assert_eq!(w.current_phase(), Phase::Draining);
    assert!(matches!(w.step(LoopEvent::Drained { client: client() }), Step::Draw(_)));
    assert!(matches!(w.step(LoopEvent::Drained { client: client() }), Step::Drain));
    assert_eq!(w.current_phase(), Phase::Presenting);
}

#[test]
fn paint_and_other_signals() {
    assert_eq!(react(false, Signal::Paint), Reaction::AcknowledgePaint);
    assert_eq!(react(true, Signal::Paint), Reaction::AcknowledgePaint);
    assert_eq!(react(false, Signal::Other), Reaction::Forward);
    assert_eq!(react(false, Signal::Close), Reaction::Closed);
}

#[test]
fn press_on_empty_client_area_is_dropped() {
    let zero_w = Signal::PrimaryPress {
        at: PixelPoint { x: 0, y: 0 },
        client: Size { width: 0, height: 600 },
    };
    let zero_h = Signal::PrimaryPress {
        at: PixelPoint { x: 0, y: 0 },
        client: Size { width: 800, height: 0 },
    };
    assert_eq!(react(false, zero_w), Reaction::Dropped);
    assert_eq!(react(false, zero_h), Reaction::Dropped);
}

#[test]
fn press_outside_client_area_is_dropped() {
    assert_eq!(react(false, press(-1, 10)), Reaction::Dropped);
    assert_eq!(react(false, press(10, 601)), Reaction::Dropped);
    assert_eq!(react(false, press(801, 0)), Reaction::Dropped);
    match react(false, press(800, 0)) {
        Reaction::Click(p) => assert_eq!((value(p.x), value(p.y)), (1.0, 0.0)),
        other => panic!("unexpected {:?}", other),
    }
}

#[test]
fn press_when_closed_is_dropped() {
    assert_eq!(react(true, press(400, 300)), Reaction::Dropped);
}

#[test]
fn frame_of_empty_plot() {
    let plot = PointPlot::new();
    let cmds = plot.frame_commands(client());
    assert_eq!(
        cmds,
        vec![
            DrawCommand::Viewport(client()),
            DrawCommand::Clear,
            DrawCommand::ClearColor(Color { r: 255, g: 255, b: 0, a: 255 }),
        ]
    );
}

#[test]
fn frame_of_one_point() {
    let mut plot = PointPlot::new();
    let pos = normalize(PixelPoint { x: 400, y: 300 }, client());
    plot.record_click(pos);
    let cmds = plot.frame_commands(client());
    assert_eq!(cmds.len(), 8);
    assert_eq!(cmds[3], DrawCommand::PointSize(POINT_SIZE));
    assert_eq!(POINT_SIZE, 10);
    assert_eq!(cmds[4], DrawCommand::BeginPoints);
    assert_eq!(cmds[5], DrawCommand::SetColor(Color { r: 0, g: 0, b: 0, a: 255 }));
    assert_eq!(cmds[6], DrawCommand::Vertex(pos.to_device()));
    assert_eq!(cmds[7], DrawCommand::EndPoints);
}

#[test]
fn window_keeps_its_setup() {
    let w = plot_window();
    assert_eq!(w.title(), "MyWindow");
    assert_eq!(w.size(), client());
    assert!(!w.closed());
    assert_eq!(w.current_phase(), Phase::Draining);
}

#[test]
fn size_from_rectangle_bounds() {
    assert_eq!(Size::from_bounds(0, 0, 800, 600), Some(client()));
    assert_eq!(Size::from_bounds(10, 20, 30, 25), Some(Size { width: 20, height: 5 }));
    assert_eq!(Size::from_bounds(i32::MIN, 0, i32::MAX, 10), None);
    assert_eq!(Size::from_bounds(0, i32::MAX, 0, i32::MIN), None);
    assert!(client().drawable());
    assert!(!Size { width: 0, height: 5 }.drawable());
    assert!(client().holds(PixelPoint { x: 800, y: 600 }));
}

#[test]
fn required_surface_format() {
    let f = SurfaceFormat::required();
    assert!(f.double_buffered && f.rgba);
    assert_eq!((f.color_bits, f.depth_bits, f.stencil_bits), (32, 24, 8));
}

#[test]
fn position_is_value_type() {
    let p = Position { x: Ratio { num: 1, den: 2 }, y: Ratio { num: 1, den: 4 } };
    let d = p.to_device();
    assert_eq!(d.x, Ratio { num: 0, den: 2 });
    assert_eq!(d.y, Ratio { num: 2, den: 4 });
}
