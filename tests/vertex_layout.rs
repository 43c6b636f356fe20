use hello_triangle::vertex::{attrib_pointers, AttribPointer, GlCall, Vertex};

const FLOAT_KIND: u32 = 0x1406;
const STATIC_DRAW: u32 = 0x88E4;

#[test]
fn attrib_pointers_lie_one_after_another() {
    let r = attrib_pointers(&vec![10, 11, 12], &vec![3, 2, 4], 36);
    assert_eq!(r.len(), 3);
    assert_eq!(r[0].offset, 0);
    assert_eq!(r[1].offset, 12);
    assert_eq!(r[2].offset, 20);
    assert_eq!(r[1].index, 1);
    assert_eq!(r[2].kind, 12);
    assert_eq!(r[2].size, 4);
    assert!(r.iter().all(|a| a.stride == 36 && !a.normalized));
}

#[test]
fn attrib_pointers_of_no_attribute() {
    assert!(attrib_pointers(&vec![], &vec![], 0).is_empty());
}

#[test]
fn upload_calls_bind_upload_describe_unbind() {
    let v = Vertex::new(7, 9, 36, STATIC_DRAW, vec![FLOAT_KIND], vec![3], 12, 3);
    let a = AttribPointer { index: 0, size: 3, kind: FLOAT_KIND, normalized: false, stride: 12, offset: 0 };
    assert_eq!(
        v.upload_calls(),
        vec![
            GlCall::BindVertexArray(7),
            GlCall::BindArrayBuffer(9),
            GlCall::BufferData { size: 36, usage: STATIC_DRAW },
            GlCall::EnableVertexAttribArray(0),
            GlCall::VertexAttribPointer(a),
            GlCall::BindArrayBuffer(0),
            GlCall::BindVertexArray(0),
        ]
    );
}

#[test]
fn upload_calls_with_two_attributes() {
    let v = Vertex::new(1, 2, 120, STATIC_DRAW, vec![FLOAT_KIND, FLOAT_KIND], vec![3, 2], 20, 6);
    let calls = v.upload_calls();
    assert_eq!(calls.len(), 9);
    assert_eq!(calls[5], GlCall::EnableVertexAttribArray(1));
    match calls[6] {
        GlCall::VertexAttribPointer(a) => {
            assert_eq!(a.index, 1);
            assert_eq!(a.size, 2);
            assert_eq!(a.offset, 12);
        }
        other => panic!("unexpected call {:?}", other),
    }
}

#[test]
fn draw_binds_draws_unbinds() {
    let v = Vertex::new(4, 5, 36, STATIC_DRAW, vec![FLOAT_KIND], vec![3], 12, 3);
    assert_eq!(
        v.draw(),
        vec![
            GlCall::BindVertexArray(4),
            GlCall::DrawTriangles { first: 0, count: 3 },
            GlCall::BindVertexArray(0),
        ]
    );
}
