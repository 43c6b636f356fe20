use hello_triangle::frame::{
    frame_plan, frame_step, is_exit_event, FrameStep, InputEvent, Key, FRAME_SLEEP_NANOS,
};
use hello_triangle::scene::{
    clear_color, projection, triangle_vertex, triangle_vertices, view, viewport, Model, Point3i,
    Ratio, BUF_LEN,
};
use hello_triangle::vertex::GlCall;

#[test]
fn triangle_has_nine_coordinates() {
    let v = triangle_vertices();
    assert_eq!(v.len(), 9);
    assert_eq!(v.len(), BUF_LEN);
    assert_eq!(v, vec![-1, -1, 0, 1, -1, 0, 0, 1, 0]);
}

#[test]
fn triangle_vertex_layout() {
    let v = triangle_vertex(1, 2, 0x88E4, 0x1406);
    let calls = v.upload_calls();
    assert_eq!(calls[2], GlCall::BufferData { size: 36, usage: 0x88E4 });
    match calls[4] {
        GlCall::VertexAttribPointer(a) => {
            assert_eq!((a.index, a.size, a.kind, a.normalized, a.stride, a.offset), (0, 3, 0x1406, false, 12, 0));
        }
        other => panic!("unexpected call {:?}", other),
    }
    assert_eq!(v.draw()[1], GlCall::DrawTriangles { first: 0, count: 3 });
}

#[test]
fn projection_is_45_degrees_at_window_aspect() {
    let p = projection();
    assert_eq!(p.fovy_degrees, 45);
    assert_eq!(p.aspect, Ratio { num: 640, den: 480 });
    assert_eq!(p.near, Ratio { num: 1, den: 10 });
    assert_eq!(p.far, Ratio { num: 100, den: 1 });
    assert_eq!(projection(), p);
}

#[test]
fn view_looks_from_z5_at_origin() {
    let v = view();
    assert_eq!(v.eye, Point3i { x: 0, y: 0, z: 5 });
    assert_eq!(v.center, Point3i { x: 0, y: 0, z: 0 });
    assert_eq!(v.up, Point3i { x: 0, y: 1, z: 0 });
    assert_eq!(view(), v);
}

#[test]
fn viewport_and_clear_color() {
    let v = viewport();
    assert_eq!((v.x, v.y, v.width, v.height), (0, 0, 640, 480));
    let c = clear_color();
    assert_eq!((c.r, c.g, c.b, c.a), (255, 255, 255, 255));
}

#[test]
fn frame_sleep_is_a_sixtieth_of_a_second() {
    assert_eq!(FRAME_SLEEP_NANOS, 16_666_666);
    assert_eq!(frame_plan().sleep_nanos, 16_666_666);
}

#[test]
fn exit_events() {
    assert!(is_exit_event(&InputEvent::Quit));
    assert!(is_exit_event(&InputEvent::KeyDown(Some(Key::Escape))));
    assert!(!is_exit_event(&InputEvent::KeyDown(Some(Key::Other))));
    assert!(!is_exit_event(&InputEvent::KeyDown(None)));
    assert!(!is_exit_event(&InputEvent::Other));
}

#[test]
fn quit_or_escape_anywhere_ends_the_loop() {
    assert_eq!(frame_step(&vec![InputEvent::Quit]), FrameStep::Exit);
    assert_eq!(
        frame_step(&vec![InputEvent::Other, InputEvent::KeyDown(Some(Key::Other)), InputEvent::KeyDown(Some(Key::Escape))]),
        FrameStep::Exit
    );
    assert_eq!(frame_step(&vec![InputEvent::Quit, InputEvent::Other]), FrameStep::Exit);
}

#[test]
fn other_events_render_the_same_frame() {
    let quiet = frame_step(&vec![]);
    let busy = frame_step(&vec![InputEvent::Other, InputEvent::KeyDown(None), InputEvent::KeyDown(Some(Key::Other))]);
    assert_eq!(quiet, busy);
    match quiet {
        FrameStep::Render(p) => {
            assert_eq!(p, frame_plan());
            assert_eq!(p.model, Model::Identity);
            assert_eq!(p.view, view());
            assert_eq!(p.projection, projection());
            assert_eq!(p.sleep_nanos, FRAME_SLEEP_NANOS);
        }
        FrameStep::Exit => panic!("no exit event was given"),
    }
}
