use rsgl::tags::{
    ArrayBuffer, ElementArrayBuffer, Float32, FragmentShader, Texture2D, Texture2DMultisample,
    TextureBuffer, TextureRectangle, UniformBuffer, VertexShader,
};
use rsgl::{
    check_status, Buffer, Call, Category, Context, ContextMut, DrawMode, Freq, Gl, Mode,
    MutContext, Program, Shader, Texture, VertexArray,
};
use std::cell::RefCell;

const VTS: [f32; 9] = [-0.5, -0.5, 0.0, 0.5, -0.5, 0.0, 0.0, 0.5, 0.0];

fn usage_of(freq: Freq, mode: Mode) -> u32 {
    let mut gl = Gl::new();
    let buf: Buffer<ArrayBuffer, u8> = Buffer::new(&mut gl);
    buf.context(&mut gl, |gl, b| b.buffer_data(gl, &[1u8, 2, 3], (freq, mode)));
    match gl.calls().last() {
        Some(Call::BufferData { usage, size, target }) => {
            assert_eq!(*size, 3);
            assert_eq!(*target, gl::ARRAY_BUFFER);
            *usage
        }
        other => panic!("unexpected call {:?}", other),
    }
}

#[test]
fn upload_usage_for_every_combination() {
    let table = [
        (Freq::Stream, Mode::Draw, gl::STREAM_DRAW),
        (Freq::Stream, Mode::Read, gl::STREAM_READ),
        (Freq::Stream, Mode::Copy, gl::STREAM_COPY),
        (Freq::Static, Mode::Draw, gl::STATIC_DRAW),
        (Freq::Static, Mode::Read, gl::STATIC_READ),
        (Freq::Static, Mode::Copy, gl::STATIC_COPY),
        (Freq::Dynamic, Mode::Draw, gl::DYNAMIC_DRAW),
        (Freq::Dynamic, Mode::Read, gl::DYNAMIC_READ),
        (Freq::Dynamic, Mode::Copy, gl::DYNAMIC_COPY),
    ];
    let mut seen = Vec::new();
    for (freq, mode, want) in table {
        let got = usage_of(freq, mode);
        assert_eq!(got, want);
        assert!(!seen.contains(&got));
        seen.push(got);
    }
    assert_eq!(seen.len(), 9);
}

#[test]
fn upload_size_is_in_bytes() {
    let mut gl = Gl::new();
    let buf: Buffer<UniformBuffer, u32> = Buffer::new(&mut gl);
    buf.context(&mut gl, |gl, b| b.buffer_data(gl, &[7u32, 8, 9, 10], (Freq::Dynamic, Mode::Copy)));
    let id = buf.id();
    assert_eq!(
        gl.calls().as_slice(),
        &[
            Call::GenBuffer { id },
            Call::BindBuffer { target: gl::UNIFORM_BUFFER, id },
            Call::BufferData { target: gl::UNIFORM_BUFFER, size: 16, usage: gl::DYNAMIC_COPY },
        ]
    );
}

#[test]
fn upload_of_nothing_has_size_zero() {
    let mut gl = Gl::new();
    let buf: Buffer<ElementArrayBuffer, u16> = Buffer::new(&mut gl);
    buf.context(&mut gl, |gl, b| b.buffer_data(gl, &[], (Freq::Static, Mode::Read)));
    assert_eq!(
        gl.calls().last(),
        Some(&Call::BufferData { target: gl::ELEMENT_ARRAY_BUFFER, size: 0, usage: gl::STATIC_READ })
    );
}

#[test]
fn create_and_release_once_each() {
    let mut gl = Gl::new();
    let n = 5;
    let mut bufs: Vec<Buffer<ArrayBuffer, u8>> = Vec::new();
    for _ in 0..n {
        bufs.push(Buffer::new(&mut gl));
    }
    let ids: Vec<u32> = bufs.iter().map(|b| b.id()).collect();
    let mut unique = ids.clone();
    unique.sort();
    unique.dedup();
    assert_eq!(unique.len(), n);
    assert!(ids.iter().all(|&id| id != 0));
    for b in bufs {
        b.release(&mut gl);
    }
    let gens: Vec<u32> = gl
        .calls()
        .iter()
        .filter_map(|c| match c {
            Call::GenBuffer { id } => Some(*id),
            _ => None,
        })
        .collect();
    let deletes: Vec<u32> = gl
        .calls()
        .iter()
        .filter_map(|c| match c {
            Call::DeleteBuffer { id } => Some(*id),
            _ => None,
        })
        .collect();
    assert_eq!(gens, ids);
    assert_eq!(deletes, ids);
    assert_eq!(gl.calls().len(), 2 * n);
}

#[test]
fn every_wrapper_releases_its_own_handle() {
    let mut gl = Gl::new();
    let vao = VertexArray::new(&mut gl);
    let sh = Shader::new::<VertexShader>(&mut gl);
    let prog = Program::new(&mut gl);
    let tex: Texture<Texture2D> = Texture::new(&mut gl);
    let (a, b, c, d) = (vao.id(), sh.id(), prog.id(), tex.id());
    assert_eq!(
        gl.calls().as_slice(),
        &[
            Call::GenVertexArray { id: a },
            Call::CreateShader { stage: gl::VERTEX_SHADER, id: b },
            Call::CreateProgram { id: c },
            Call::GenTexture { id: d },
        ]
    );
    vao.release(&mut gl);
    sh.release(&mut gl);
    prog.release(&mut gl);
    tex.release(&mut gl);
    assert_eq!(
        &gl.calls()[4..],
        &[
            Call::DeleteVertexArray { id: a },
            Call::DeleteShader { id: b },
            Call::DeleteProgram { id: c },
            Call::DeleteTexture { id: d },
        ]
    );
    let mut ids = vec![a, b, c, d];
    ids.sort();
    ids.dedup();
    assert_eq!(ids.len(), 4);
}

#[test]
fn fresh_handles_are_available() {
    let gl = Gl::new();
    assert!(gl.has_free_handle());
    assert!(gl.calls().is_empty());
}

#[test]
fn read_scope_binds_before_the_block() {
    let mut gl = Gl::new();
    let vao = VertexArray::new(&mut gl);
    let seen = vao.context(&mut gl, |gl, v| {
        assert_eq!(gl.calls().last(), Some(&Call::BindVertexArray { id: v.id() }));
        gl.calls().len()
    });
    assert_eq!(seen, 2);
    let prog = Program::new(&mut gl);
    let n = prog.context(&mut gl, |gl, p| {
        assert_eq!(gl.calls().last(), Some(&Call::UseProgram { id: p.id() }));
        41 + 1
    });
    assert_eq!(n, 42);
}

#[test]
fn exclusive_scope_binds_before_the_block() {
    let mut gl = Gl::new();
    let mut vao = VertexArray::new(&mut gl);
    let id = vao.id();
    vao.mut_context(&mut gl, |gl, v| {
        assert_eq!(gl.calls().last(), Some(&Call::BindVertexArray { id: v.id() }));
    });
    let mut buf: Buffer<ArrayBuffer, u8> = Buffer::new(&mut gl);
    let bid = buf.id();
    buf.mut_context(&mut gl, |gl, b| {
        assert_eq!(gl.calls().last(), Some(&Call::BindBuffer { target: gl::ARRAY_BUFFER, id: b.id() }));
    });
    assert_eq!(gl.calls()[1], Call::BindVertexArray { id });
    assert_eq!(gl.calls()[3], Call::BindBuffer { target: gl::ARRAY_BUFFER, id: bid });
}

#[test]
fn texture_scope_selects_unit_zero_then_binds() {
    let mut gl = Gl::new();
    let tex: Texture<TextureRectangle> = Texture::new(&mut gl);
    tex.context(&mut gl, |gl, t| {
        let calls = gl.calls();
        assert_eq!(
            &calls[calls.len() - 2..],
            &[
                Call::ActiveTexture { unit: gl::TEXTURE0 },
                Call::BindTexture { target: gl::TEXTURE_RECTANGLE, id: t.id() },
            ]
        );
    });
}

#[test]
fn texture_bind_selects_the_unit() {
    let mut gl = Gl::new();
    let tex: Texture<Texture2D> = Texture::new(&mut gl);
    tex.bind(&mut gl, 3);
    assert_eq!(
        &gl.calls()[1..],
        &[
            Call::ActiveTexture { unit: gl::TEXTURE0 + 3 },
            Call::BindTexture { target: gl::TEXTURE_2D, id: tex.id() },
        ]
    );
}

struct Locked(RefCell<i32>);

impl ContextMut<i32> for Locked {
    fn context_mut<R, F: FnOnce(&mut i32) -> R>(&self, local: F) -> R {
        let mut value = self.0.borrow_mut();
        local(&mut *value)
    }
}

#[test]
fn synchronized_value_scope_hands_out_the_value() {
    let lock = Locked(RefCell::new(10));
    let r = lock.context_mut(|v| {
        assert_eq!(*v, 10);
        *v = 20;
        30
    });
    assert_eq!(r, 30);
    assert_eq!(lock.context_mut(|v| *v), 20);
}

#[test]
fn nested_scopes_rebind_and_do_not_restore() {
    let mut gl = Gl::new();
    let a = VertexArray::new(&mut gl);
    let b = VertexArray::new(&mut gl);
    a.context(&mut gl, |gl, _| {
        b.context(gl, |_, _| ());
    });
    let (ia, ib) = (a.id(), b.id());
    assert_eq!(
        &gl.calls()[2..],
        &[Call::BindVertexArray { id: ia }, Call::BindVertexArray { id: ib }]
    );
    a.context(&mut gl, |gl, _| {
        a.context(gl, |_, _| ());
    });
    assert_eq!(
        &gl.calls()[4..],
        &[Call::BindVertexArray { id: ia }, Call::BindVertexArray { id: ia }]
    );
}

#[test]
fn failed_compile_carries_the_log() {
    let log = b"0:3(1): error: syntax error, unexpected IDENTIFIER\0";
    match check_status(false, log) {
        Err(text) => {
            assert!(!text.is_empty());
            assert!(text.starts_with("0:3(1): error: syntax error"));
        }
        Ok(()) => panic!("a failed compile must report its log"),
    }
}

#[test]
fn successful_compile_has_no_payload() {
    assert_eq!(check_status(true, b""), Ok(()));
    assert_eq!(check_status(true, b"warning: unused variable"), Ok(()));
}

#[test]
fn failed_link_with_empty_log() {
    assert_eq!(check_status(false, b""), Err(String::new()));
}

#[test]
fn failed_status_with_invalid_utf8() {
    match check_status(false, &[0x66, 0xff, 0x6f]) {
        Err(text) => assert_eq!(text, "f\u{FFFD}o"),
        Ok(()) => panic!("expected an error"),
    }
}

#[test]
fn shader_and_program_calls() {
    let mut gl = Gl::new();
    let mut vs = Shader::new::<VertexShader>(&mut gl);
    vs.source(&mut gl, "void main() {}");
    vs.compile(&mut gl);
    let mut fs = Shader::new::<FragmentShader>(&mut gl);
    fs.source(&mut gl, "out vec4 c; void main() { c = vec4(1.0); }");
    fs.compile(&mut gl);
    let mut prog = Program::new(&mut gl);
    prog.attach(&mut gl, &vs);
    prog.attach(&mut gl, &fs);
    prog.link(&mut gl);
    let (v, f, p) = (vs.id(), fs.id(), prog.id());
    assert_eq!(
        gl.calls().as_slice(),
        &[
            Call::CreateShader { stage: gl::VERTEX_SHADER, id: v },
            Call::ShaderSource { id: v, source: "void main() {}".to_string() },
            Call::CompileShader { id: v },
            Call::CreateShader { stage: gl::FRAGMENT_SHADER, id: f },
            Call::ShaderSource { id: f, source: "out vec4 c; void main() { c = vec4(1.0); }".to_string() },
            Call::CompileShader { id: f },
            Call::CreateProgram { id: p },
            Call::AttachShader { program: p, shader: v },
            Call::AttachShader { program: p, shader: f },
            Call::LinkProgram { id: p },
        ]
    );
}

#[test]
fn mipmap_on_2d_texture() {
    let mut gl = Gl::new();
    let tex: Texture<Texture2D> = Texture::new(&mut gl);
    let before = tex.context(&mut gl, |gl, _| gl.calls().len());
    let r = tex.context(&mut gl, |gl, t| t.generate_mipmap(gl));
    assert_eq!(r, Ok(()));
    let calls = gl.calls();
    assert_eq!(calls.len(), before + 3);
    assert_eq!(calls.last(), Some(&Call::GenerateMipmap { target: gl::TEXTURE_2D }));
}

#[test]
fn mipmap_on_buffer_texture_is_rejected() {
    let mut gl = Gl::new();
    let tex: Texture<TextureBuffer> = Texture::new(&mut gl);
    tex.bind(&mut gl, 0);
    let before = gl.calls().len();
    let r = tex.generate_mipmap(&mut gl);
    assert_eq!(r, Err("Invalid operation for texture type: TextureBuffer".to_string()));
    assert_eq!(gl.calls().len(), before);
}

#[test]
fn mipmap_on_multisample_texture_is_rejected() {
    let mut gl = Gl::new();
    let tex: Texture<Texture2DMultisample> = Texture::new(&mut gl);
    tex.bind(&mut gl, 0);
    let before = gl.calls().len();
    let r = tex.generate_mipmap(&mut gl);
    assert_eq!(r, Err("Invalid operation for texture type: Texture2DMultisample".to_string()));
    assert_eq!(gl.calls().len(), before);
}

#[test]
fn draw_modes_and_indexed_draws() {
    let mut gl = Gl::new();
    let vao = VertexArray::new(&mut gl);
    let modes = [
        (DrawMode::Points, gl::POINTS),
        (DrawMode::LineStrip, gl::LINE_STRIP),
        (DrawMode::LineLoop, gl::LINE_LOOP),
        (DrawMode::Lines, gl::LINES),
        (DrawMode::LineStripAdjacency, gl::LINE_STRIP_ADJACENCY),
        (DrawMode::LinesAdjacency, gl::LINES_ADJACENCY),
        (DrawMode::TriangleStrip, gl::TRIANGLE_STRIP),
        (DrawMode::TriangleFan, gl::TRIANGLE_FAN),
        (DrawMode::Triangles, gl::TRIANGLES),
        (DrawMode::TriangleStripAdjacency, gl::TRIANGLE_STRIP_ADJACENCY),
        (DrawMode::TrianglesAdjacency, gl::TRIANGLES_ADJACENCY),
        (DrawMode::Patches, gl::PATCHES),
    ];
    for (mode, want) in modes {
        vao.context(&mut gl, |gl, v| v.draw_arrays(gl, mode, 2, 5));
        assert_eq!(gl.calls().last(), Some(&Call::DrawArrays { mode: want, first: 2, count: 5 }));
    }
    vao.context(&mut gl, |gl, v| v.draw_elements::<u16>(gl, DrawMode::Lines, 6));
    assert_eq!(
        gl.calls().last(),
        Some(&Call::DrawElements { mode: gl::LINES, count: 6, kind: gl::UNSIGNED_SHORT })
    );
    vao.context(&mut gl, |gl, v| v.draw_elements::<u8>(gl, DrawMode::Points, 1));
    assert_eq!(
        gl.calls().last(),
        Some(&Call::DrawElements { mode: gl::POINTS, count: 1, kind: gl::UNSIGNED_BYTE })
    );
}

#[test]
fn attribute_stride_in_bytes() {
    let mut gl = Gl::new();
    let vao = VertexArray::new(&mut gl);
    vao.context(&mut gl, |gl, v| v.bind_vertex_attrib_pointer::<i16>(gl, 2, true, 4, 6));
    let calls = gl.calls();
    assert_eq!(
        &calls[calls.len() - 2..],
        &[
            Call::VertexAttribPointer { index: 2, size: 2, kind: gl::SHORT, normalized: true, stride: 8, offset: 6 },
            Call::EnableVertexAttribArray { index: 2 },
        ]
    );
}

#[test]
fn triangle_end_to_end() {
    let mut gl = Gl::new();
    let vbo: Buffer<ArrayBuffer, f32> = Buffer::new(&mut gl);
    let vao = VertexArray::new(&mut gl);
    vao.context(&mut gl, |gl, vao| {
        vbo.context(gl, |gl, vbo| vbo.buffer_data(gl, &VTS, (Freq::Static, Mode::Draw)));
        vao.bind_vertex_attrib_pointer::<Float32>(gl, 0, false, 3, 0);
    });
    vao.context(&mut gl, |gl, vao| vao.draw_arrays(gl, DrawMode::Triangles, 0, 3));
    let (b, a) = (vbo.id(), vao.id());
    let expected = [
        Call::GenBuffer { id: b },
        Call::GenVertexArray { id: a },
        Call::BindBuffer { target: gl::ARRAY_BUFFER, id: b },
        Call::BufferData { target: gl::ARRAY_BUFFER, size: 36, usage: gl::STATIC_DRAW },
        Call::VertexAttribPointer { index: 0, size: 4, kind: gl::FLOAT, normalized: false, stride: 12, offset: 0 },
        Call::EnableVertexAttribArray { index: 0 },
        Call::DrawArrays { mode: gl::TRIANGLES, first: 0, count: 3 },
    ];
    let without_vao_binds: Vec<Call> = gl
        .calls()
        .iter()
        .filter(|c| !matches!(c, Call::BindVertexArray { .. }))
        .cloned()
        .collect();
    assert_eq!(without_vao_binds, expected);
    assert_eq!(gl.calls()[2], Call::BindVertexArray { id: a });
    assert_eq!(gl.calls()[7], Call::BindVertexArray { id: a });
    assert_eq!(gl.calls().len(), 9);
    let _ = Category::VertexArray;
}
