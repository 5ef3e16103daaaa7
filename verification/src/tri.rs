use vstd::prelude::*;

verus! {

/// The primitive that a draw stream builds from its vertices.
#[derive(Clone, Copy, Debug, PartialEq, Eq, Structural)]
pub enum Primitive {
    Points,
    Lines,
    Triangles,
    TriangleStrip,
    TriangleFan,
    Quads,
    QuadStrip,
    Polygon,
}

/// The engine's number for a primitive.
pub open spec fn primitive_raw(p: Primitive) -> i32 {
    match p {
        Primitive::Triangles => 0,
        Primitive::TriangleFan => 1,
        Primitive::Quads => 2,
        Primitive::Polygon => 3,
        Primitive::Lines => 4,
        Primitive::TriangleStrip => 5,
        Primitive::QuadStrip => 6,
        Primitive::Points => 7,
    }
}

/// The primitive with the engine's number `raw`, if any.
pub open spec fn primitive_from_raw(raw: i32) -> Option<Primitive> {
    match raw {
        0i32 => Some(Primitive::Triangles),
        1i32 => Some(Primitive::TriangleFan),
        2i32 => Some(Primitive::Quads),
        3i32 => Some(Primitive::Polygon),
        4i32 => Some(Primitive::Lines),
        5i32 => Some(Primitive::TriangleStrip),
        6i32 => Some(Primitive::QuadStrip),
        7i32 => Some(Primitive::Points),
        _ => None,
    }
}

impl Primitive {
    pub fn from_raw(raw: i32) -> (r: Option<Self>)
        ensures
            r == primitive_from_raw(raw),
    {
        match raw {
            0 => Some(Primitive::Triangles),
            1 => Some(Primitive::TriangleFan),
            2 => Some(Primitive::Quads),
            3 => Some(Primitive::Polygon),
            4 => Some(Primitive::Lines),
            5 => Some(Primitive::TriangleStrip),
            6 => Some(Primitive::QuadStrip),
            7 => Some(Primitive::Points),
            _ => None,
        }
    }

    pub fn into_raw(self) -> (r: i32)
        ensures
            r == primitive_raw(self),
    {
        match self {
            Primitive::Triangles => 0,
            Primitive::TriangleFan => 1,
            Primitive::Quads => 2,
            Primitive::Polygon => 3,
            Primitive::Lines => 4,
            Primitive::TriangleStrip => 5,
            Primitive::QuadStrip => 6,
            Primitive::Points => 7,
        }
    }
}

/// Which faces the engine culls.
#[derive(Clone, Copy, Debug, PartialEq, Eq, Structural)]
pub enum CullFace {
    /// No face is culled.
    Disabled,
    /// Front faces are culled.
    Front,
}

/// The engine's number for a cull style.
pub open spec fn cull_face_raw(c: CullFace) -> u32 {
    match c {
        CullFace::Front => 0,
        CullFace::Disabled => 1,
    }
}

/// The cull style with the engine's number `raw`, if any.
pub open spec fn cull_face_from_raw(raw: u32) -> Option<CullFace> {
    match raw {
        0u32 => Some(CullFace::Front),
        1u32 => Some(CullFace::Disabled),
        _ => None,
    }
}

impl CullFace {
    pub fn from_raw(raw: u32) -> (r: Option<Self>)
        ensures
            r == cull_face_from_raw(raw),
    {
        match raw {
            0 => Some(CullFace::Front),
            1 => Some(CullFace::Disabled),
            _ => None,
        }
    }

    pub fn into_raw(self) -> (r: u32)
        ensures
            r == cull_face_raw(self),
    {
        match self {
            CullFace::Front => 0,
            CullFace::Disabled => 1,
        }
    }
}

/// A primitive and its engine number determine each other, and so do a cull style and its
/// number.
pub proof fn law_raw_round_trips(p: Primitive, raw: i32, c: CullFace, craw: u32)
    ensures
        primitive_from_raw(primitive_raw(p)) == Some(p),
        primitive_from_raw(raw) matches Some(q) ==> primitive_raw(q) == raw,
        cull_face_from_raw(cull_face_raw(c)) == Some(c),
        cull_face_from_raw(craw) matches Some(d) ==> cull_face_raw(d) == craw,
{
}

/// The engine's numbers: triangles 0, triangle fan 1, quads 2, polygon 3, lines 4,
/// triangle strip 5, quad strip 6, points 7; for culling, front faces 0 and none 1. Every
/// other number names no primitive or cull style.
pub proof fn law_engine_numbers(raw: i32, craw: u32)
    ensures
        primitive_raw(Primitive::Triangles) == 0,
        primitive_raw(Primitive::TriangleFan) == 1,
        primitive_raw(Primitive::Quads) == 2,
        primitive_raw(Primitive::Polygon) == 3,
        primitive_raw(Primitive::Lines) == 4,
        primitive_raw(Primitive::TriangleStrip) == 5,
        primitive_raw(Primitive::QuadStrip) == 6,
        primitive_raw(Primitive::Points) == 7,
        primitive_from_raw(raw) is Some <==> 0 <= raw <= 7,
        primitive_from_raw(raw) matches Some(p) ==> primitive_raw(p) == raw,
        cull_face_raw(CullFace::Front) == 0,
        cull_face_raw(CullFace::Disabled) == 1,
        cull_face_from_raw(craw) is Some <==> craw <= 1,
        cull_face_from_raw(craw) matches Some(c) ==> cull_face_raw(c) == craw,
{
}

/// Where a world position lands on the screen: in front of the view or behind it.
#[derive(Clone, Copy, Debug)]
pub enum ScreenCoord<V> {
    Front(V),
    Back(V),
}

impl<V> ScreenCoord<V> {
    /// The screen position `v` that the engine computed, placed in front of the view when the
    /// engine's `behind` answer is zero and behind it otherwise.
    pub fn from_behind(behind: i32, v: V) -> (r: Self)
        ensures
            r == (if behind == 0 { ScreenCoord::Front(v) } else { ScreenCoord::Back(v) }),
    {
        if behind == 0 {
            ScreenCoord::Front(v)
        } else {
            ScreenCoord::Back(v)
        }
    }
}

/// A colour with red, green, blue and alpha bytes.
#[derive(Clone, Copy, Debug, PartialEq, Eq, Structural)]
pub struct Rgba {
    pub r: u8,
    pub g: u8,
    pub b: u8,
    pub a: u8,
}

/// A call of the engine's triangle interface, with its arguments.
#[derive(Clone, Copy, Debug, PartialEq, Eq, Structural)]
pub enum TriCall {
    /// Start a draw stream of the primitive with this number.
    Begin(i32),
    /// End the draw stream.
    End,
    /// Set the cull style with this number.
    CullFace(u32),
    /// Set the colour from four bytes.
    Color4ub(u8, u8, u8, u8),
}

/// The lock that allows at most one open draw stream, whichever interface opens it.
///
/// A binding creates one lock for the whole program and passes it to every `begin` and
/// `end`, so that the lock is shared by all its interface values.
pub struct DrawLock {
    locked: bool,
}

impl DrawLock {
    /// Whether a draw stream is open.
    pub closed spec fn spec_locked(self) -> bool {
        self.locked
    }

    /// The lock once a draw stream has taken it.
    pub closed spec fn after_begin(self) -> DrawLock {
        DrawLock { locked: true }
    }

    /// The lock once the draw stream has released it.
    pub closed spec fn after_end(self) -> DrawLock {
        DrawLock { locked: false }
    }

    /// The program's lock, with no draw stream open.
    pub fn new() -> (r: Self)
        ensures
            !r.spec_locked(),
    {
        DrawLock { locked: false }
    }

    /// Whether a draw stream is open.
    pub fn is_locked(&self) -> (r: bool)
        ensures
            r == self.spec_locked(),
    {
        self.locked
    }
}

/// The engine's triangle interface, of which this library reads the version.
pub struct TriangleApi {
    version: i32,
}

/// An open draw stream. It is ended with the lock that it was opened with.
pub struct Draw {
    primitive: Primitive,
}

impl TriangleApi {
    pub closed spec fn spec_version(self) -> i32 {
        self.version
    }

    /// The interface of the given version.
    pub fn new(version: i32) -> (r: Self)
        ensures
            r.spec_version() == version,
    {
        TriangleApi { version }
    }

    pub fn version(&self) -> (r: i32)
        ensures
            r == self.spec_version(),
    {
        self.version
    }

    pub fn set_cull_face(&self, style: CullFace) -> (r: TriCall)
        ensures
            r == TriCall::CullFace(cull_face_raw(style)),
    {
        TriCall::CullFace(style.into_raw())
    }

    pub fn set_color4ub(&self, r: u8, g: u8, b: u8, a: u8) -> (c: TriCall)
        ensures
            c == TriCall::Color4ub(r, g, b, a),
    {
        TriCall::Color4ub(r, g, b, a)
    }

    /// Sets the colour from its four bytes.
    pub fn set_color(&self, color: Rgba) -> (c: TriCall)
        ensures
            c == TriCall::Color4ub(color.r, color.g, color.b, color.a),
    {
        self.set_color4ub(color.r, color.g, color.b, color.a)
    }

    /// Opens a draw stream of `primitive`, taking the program's lock; no stream may be open,
    /// on this interface or any other.
    pub fn begin(&self, lock: &mut DrawLock, primitive: Primitive) -> (r: (Draw, TriCall))
        requires
            !old(lock).spec_locked(),
        ensures
            final(lock).spec_locked(),
            *final(lock) == old(lock).after_begin(),
            r.0.spec_primitive() == primitive,
            r.1 == TriCall::Begin(primitive_raw(primitive)),
    {
        lock.locked = true;
        (Draw { primitive }, TriCall::Begin(primitive.into_raw()))
    }
}

/// At most one draw stream is open at a time: once a stream has taken the lock, the next
/// `begin`, on any interface, is refused until the stream has ended, and ending releases
/// the lock whatever state it was in.
pub proof fn law_one_draw_stream(lock: DrawLock)
    ensures
        lock.after_begin().spec_locked(),
        lock.after_begin().after_end() == lock.after_end(),
        !lock.after_end().spec_locked(),
        !lock.spec_locked() ==> lock.after_end() == lock,
{
}

impl Draw {
    /// The primitive of the stream.
    pub closed spec fn spec_primitive(self) -> Primitive {
        self.primitive
    }

    /// Closes the stream and releases the program's lock, so that another stream can be
    /// opened.
    pub fn end(self, lock: &mut DrawLock) -> (r: TriCall)
        requires
            old(lock).spec_locked(),
        ensures
            !final(lock).spec_locked(),
            *final(lock) == old(lock).after_end(),
            r == TriCall::End,
    {
        lock.locked = false;
        TriCall::End
    }

    pub fn color4ub(&self, r: u8, g: u8, b: u8, a: u8) -> (c: TriCall)
        ensures
            c == TriCall::Color4ub(r, g, b, a),
    {
        TriCall::Color4ub(r, g, b, a)
    }

    /// Sets the colour of the following vertices from its four bytes.
    pub fn color(&self, color: Rgba) -> (c: TriCall)
        ensures
            c == TriCall::Color4ub(color.r, color.g, color.b, color.a),
    {
        self.color4ub(color.r, color.g, color.b, color.a)
    }
}

} // verus!
