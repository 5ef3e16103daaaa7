use xash3d_engine::tri::{CullFace, DrawLock, Primitive, Rgba, ScreenCoord, TriCall, TriangleApi};

#[test]
fn primitive_numbers() {
    let all = [
        Primitive::Points, Primitive::Lines, Primitive::Triangles, Primitive::TriangleStrip,
        Primitive::TriangleFan, Primitive::Quads, Primitive::QuadStrip, Primitive::Polygon,
    ];
    for p in all {
        assert_eq!(Primitive::from_raw(p.into_raw()), Some(p));
    }
    assert_eq!(Primitive::Triangles.into_raw(), 0);
    assert_eq!(Primitive::Points.into_raw(), 7);
    assert_eq!(Primitive::from_raw(8), None);
    assert_eq!(Primitive::from_raw(-1), None);
}

#[test]
fn cull_face_numbers() {
    assert_eq!(CullFace::Front.into_raw(), 0);
    assert_eq!(CullFace::Disabled.into_raw(), 1);
    assert_eq!(CullFace::from_raw(1), Some(CullFace::Disabled));
    assert_eq!(CullFace::from_raw(2), None);
}

#[test]
fn screen_coord_side() {
    assert!(matches!(ScreenCoord::from_behind(0, 5), ScreenCoord::Front(5)));
    assert!(matches!(ScreenCoord::from_behind(1, 5), ScreenCoord::Back(5)));
    assert!(matches!(ScreenCoord::from_behind(-3, 5), ScreenCoord::Back(5)));
}

#[test]
fn draw_stream_lock() {
    let mut lock = DrawLock::new();
    let tri = TriangleApi::new(1);
    assert_eq!(tri.version(), 1);
    assert!(!lock.is_locked());
    let (draw, call) = tri.begin(&mut lock, Primitive::Quads);
    assert_eq!(call, TriCall::Begin(2));
    assert!(lock.is_locked());
    let c = Rgba { r: 1, g: 2, b: 3, a: 4 };
    assert_eq!(draw.color(c), TriCall::Color4ub(1, 2, 3, 4));
    assert_eq!(draw.color4ub(9, 8, 7, 6), TriCall::Color4ub(9, 8, 7, 6));
    assert_eq!(draw.end(&mut lock), TriCall::End);
    assert!(!lock.is_locked());
    let (_again, call) = tri.begin(&mut lock, Primitive::Lines);
    assert_eq!(call, TriCall::Begin(4));
}

#[test]
fn draw_lock_is_shared_between_interfaces() {
    let mut lock = DrawLock::new();
    let first = TriangleApi::new(1);
    let second = TriangleApi::new(1);
    let (draw, _) = first.begin(&mut lock, Primitive::Triangles);
    // a stream opened through one interface holds the lock for the other too
    assert!(lock.is_locked());
    draw.end(&mut lock);
    let (_draw, call) = second.begin(&mut lock, Primitive::Points);
    assert_eq!(call, TriCall::Begin(7));
    assert!(lock.is_locked());
}

#[test]
fn triangle_api_calls() {
    let tri = TriangleApi::new(3);
    assert_eq!(tri.set_color(Rgba { r: 255, g: 0, b: 10, a: 128 }), TriCall::Color4ub(255, 0, 10, 128));
    assert_eq!(tri.set_color4ub(1, 1, 1, 1), TriCall::Color4ub(1, 1, 1, 1));
    assert_eq!(tri.set_cull_face(CullFace::Disabled), TriCall::CullFace(1));
}
