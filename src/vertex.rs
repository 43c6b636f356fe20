use vstd::prelude::*;

verus! {

/// Bytes in one GL float.
pub const FLOAT_BYTES: usize = 4;

/// Arguments of one `glVertexAttribPointer` call.
#[derive(PartialEq, Eq, Structural, Clone, Copy, Debug)]
pub struct AttribPointer {
    pub index: u32,
    pub size: i32,
    pub kind: u32,
    pub normalized: bool,
    pub stride: i32,
    /// Byte offset of the attribute within one vertex.
    pub offset: usize,
}

/// One GL call of the vertex buffer's lifetime, in the order it must be made.
#[derive(PartialEq, Eq, Structural, Clone, Copy, Debug)]
pub enum GlCall {
    BindVertexArray(u32),
    BindArrayBuffer(u32),
    /// Upload `size` bytes of the caller's vertex data into the bound array buffer.
    BufferData { size: isize, usage: u32 },
    EnableVertexAttribArray(u32),
    VertexAttribPointer(AttribPointer),
    DrawTriangles { first: i32, count: i32 },
}

/// Number of floats taken by the first `n` attributes.
pub open spec fn floats_before(sizes: Seq<i32>, n: int) -> int
    decreases n,
{
    if n <= 0 {
        0
    } else {
        floats_before(sizes, n - 1) + sizes[n - 1]
    }
}

/// The pointer description of attribute `i`: attributes lie one after another.
pub open spec fn attrib_spec(kinds: Seq<u32>, sizes: Seq<i32>, stride: i32, i: int) -> AttribPointer {
    AttribPointer {
        index: i as u32,
        size: sizes[i],
        kind: kinds[i],
        normalized: false,
        stride,
        offset: (FLOAT_BYTES * floats_before(sizes, i)) as usize,
    }
}

/// The pointer descriptions of all attributes, in index order.
pub open spec fn attribs_spec(kinds: Seq<u32>, sizes: Seq<i32>, stride: i32) -> Seq<AttribPointer> {
    Seq::new(sizes.len(), |i: int| attrib_spec(kinds, sizes, stride, i))
}

/// A type for each attribute, no negative size, and few enough floats that
/// every index and byte offset fits in a machine integer.
pub open spec fn layout_fits(kinds: Seq<u32>, sizes: Seq<i32>) -> bool {
    &&& kinds.len() >= sizes.len()
    &&& sizes.len() <= u32::MAX
    &&& forall|i: int| 0 <= i < sizes.len() ==> sizes[i] >= 0
    &&& FLOAT_BYTES * floats_before(sizes, sizes.len() as int) <= usize::MAX
}

proof fn lemma_floats_before_monotone(sizes: Seq<i32>, a: int, b: int)
    requires
        0 <= a <= b <= sizes.len(),
        forall|i: int| 0 <= i < sizes.len() ==> sizes[i] >= 0,
    ensures
        0 <= floats_before(sizes, a) <= floats_before(sizes, b),
    decreases b,
{
    if b > a {
        lemma_floats_before_monotone(sizes, a, b - 1);
    } else if b > 0 {
        lemma_floats_before_monotone(sizes, b - 1, b - 1);
    }
}

/// The pointer descriptions of all attributes, in index order.
pub fn attrib_pointers(kinds: &Vec<u32>, sizes: &Vec<i32>, stride: i32) -> (r: Vec<AttribPointer>)
    requires
        layout_fits(kinds@, sizes@),
    ensures
        r@ == attribs_spec(kinds@, sizes@, stride),
{
    let mut r: Vec<AttribPointer> = Vec::new();
    let mut offset: usize = 0;
    let mut i: usize = 0;
    while i < sizes.len()
        invariant
            layout_fits(kinds@, sizes@),
            i <= sizes@.len(),
            offset == floats_before(sizes@, i as int),
            r@.len() == i,
            forall|j: int| 0 <= j < i ==> r@[j] == attrib_spec(kinds@, sizes@, stride, j),
        decreases sizes@.len() - i,
    {
        proof {
            lemma_floats_before_monotone(sizes@, i as int, i + 1);
            lemma_floats_before_monotone(sizes@, i + 1, sizes@.len() as int);
        }
        let size = sizes[i];
        r.push(AttribPointer {
            index: i as u32,
            size,
            kind: kinds[i],
            normalized: false,
            stride,
            offset: offset * FLOAT_BYTES,
        });
        offset = offset + size as usize;
        i = i + 1;
    }
    assert(r@ =~= attribs_spec(kinds@, sizes@, stride));
    r
}

/// The enable and pointer calls for each attribute, in index order.
pub open spec fn attrib_calls(attribs: Seq<AttribPointer>) -> Seq<GlCall>
    decreases attribs.len(),
{
    if attribs.len() == 0 {
        Seq::empty()
    } else {
        let a = attribs.last();
        attrib_calls(attribs.drop_last()) + seq![
            GlCall::EnableVertexAttribArray(a.index),
            GlCall::VertexAttribPointer(a),
        ]
    }
}

/// A vertex array object with its buffer: the GPU handles, the data upload and
/// the attribute layout, and the number of vertices that one draw covers.
pub struct Vertex {
    vao: u32,
    vbo: u32,
    size: isize,
    usage: u32,
    attribs: Vec<AttribPointer>,
    vertex_num: i32,
}

pub struct VertexView {
    pub vao: u32,
    pub vbo: u32,
    pub size: isize,
    pub usage: u32,
    pub attribs: Seq<AttribPointer>,
    pub vertex_num: i32,
}

impl View for Vertex {
    type V = VertexView;

    closed spec fn view(&self) -> VertexView {
        VertexView {
            vao: self.vao,
            vbo: self.vbo,
            size: self.size,
            usage: self.usage,
            attribs: self.attribs@,
            vertex_num: self.vertex_num,
        }
    }
}

/// The calls that fill the buffer and record the layout in the vertex array:
/// bind both, upload, describe each attribute, then unbind both.
pub open spec fn upload_spec(v: VertexView) -> Seq<GlCall> {
    seq![
        GlCall::BindVertexArray(v.vao),
        GlCall::BindArrayBuffer(v.vbo),
        GlCall::BufferData { size: v.size, usage: v.usage },
    ] + attrib_calls(v.attribs) + seq![GlCall::BindArrayBuffer(0), GlCall::BindVertexArray(0)]
}

/// The calls of one draw: bind the vertex array, draw its triangles, unbind it.
pub open spec fn draw_spec(v: VertexView) -> Seq<GlCall> {
    seq![
        GlCall::BindVertexArray(v.vao),
        GlCall::DrawTriangles { first: 0, count: v.vertex_num },
        GlCall::BindVertexArray(0),
    ]
}

impl Vertex {
    /// A vertex array `vao` over buffer `vbo`, holding `size` bytes uploaded
    /// with `usage`, whose attributes have the given GL types and float counts
    /// and lie one after another within each vertex of `stride` bytes.
    pub fn new(
        vao: u32,
        vbo: u32,
        size: isize,
        usage: u32,
        attribute_type_vec: Vec<u32>,
        attribute_size_vec: Vec<i32>,
        stride: i32,
        vertex_num: i32,
    ) -> (r: Vertex)
        requires
            layout_fits(attribute_type_vec@, attribute_size_vec@),
        ensures
            r@ == (VertexView {
                vao,
                vbo,
                size,
                usage,
                attribs: attribs_spec(attribute_type_vec@, attribute_size_vec@, stride),
                vertex_num,
            }),
    {
        let attribs = attrib_pointers(&attribute_type_vec, &attribute_size_vec, stride);
        Vertex { vao, vbo, size, usage, attribs, vertex_num }
    }

    /// The calls that upload the data and record the attribute layout.
    pub fn upload_calls(&self) -> (r: Vec<GlCall>)
        ensures
            r@ == upload_spec(self@),
    {
        let mut calls: Vec<GlCall> = Vec::new();
        calls.push(GlCall::BindVertexArray(self.vao));
        calls.push(GlCall::BindArrayBuffer(self.vbo));
        calls.push(GlCall::BufferData { size: self.size, usage: self.usage });
        let ghost head = calls@;
        let mut i: usize = 0;
        while i < self.attribs.len()
            invariant
                i <= self.attribs@.len(),
                head == seq![
                    GlCall::BindVertexArray(self.vao),
                    GlCall::BindArrayBuffer(self.vbo),
                    GlCall::BufferData { size: self.size, usage: self.usage },
                ],
                calls@ == head + attrib_calls(self.attribs@.subrange(0, i as int)),
            decreases self.attribs@.len() - i,
        {
            let a = self.attribs[i];
            calls.push(GlCall::EnableVertexAttribArray(a.index));
            calls.push(GlCall::VertexAttribPointer(a));
            proof {
                let next = self.attribs@.subrange(0, i + 1);
                assert(next.drop_last() =~= self.attribs@.subrange(0, i as int));
                assert(calls@ =~= head + attrib_calls(next));
            }
            i = i + 1;
        }
        assert(self.attribs@.subrange(0, i as int) =~= self.attribs@);
        calls.push(GlCall::BindArrayBuffer(0));
        calls.push(GlCall::BindVertexArray(0));
        assert(calls@ =~= upload_spec(self@));
        calls
    }

    /// The calls that draw the vertices as triangles.
    pub fn draw(&self) -> (r: Vec<GlCall>)
        ensures
            r@ == draw_spec(self@),
    {
        let r = vec![
            GlCall::BindVertexArray(self.vao),
            GlCall::DrawTriangles { first: 0, count: self.vertex_num },
            GlCall::BindVertexArray(0),
        ];
        assert(r@ =~= draw_spec(self@));
        r
    }
}

} // verus!
