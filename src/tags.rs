use vstd::prelude::*;

verus! {

// Selector values of the native API.
pub const ARRAY_BUFFER: u32 = 0x8892;
pub const ATOMIC_COUNTER_BUFFER: u32 = 0x92C0;
pub const COPY_READ_BUFFER: u32 = 0x8F36;
pub const COPY_WRITE_BUFFER: u32 = 0x8F37;
pub const DISPATCH_INDIRECT_BUFFER: u32 = 0x90EE;
pub const DRAW_INDIRECT_BUFFER: u32 = 0x8F3F;
pub const ELEMENT_ARRAY_BUFFER: u32 = 0x8893;
pub const PIXEL_PACK_BUFFER: u32 = 0x88EB;
pub const PIXEL_UNPACK_BUFFER: u32 = 0x88EC;
pub const QUERY_BUFFER: u32 = 0x9192;
pub const SHADER_STORAGE_BUFFER: u32 = 0x90D2;
pub const TEXTURE_BUFFER: u32 = 0x8C2A;
pub const TRANSFORM_FEEDBACK_BUFFER: u32 = 0x8C8E;
pub const UNIFORM_BUFFER: u32 = 0x8A11;
pub const COMPUTE_SHADER: u32 = 0x91B9;
pub const VERTEX_SHADER: u32 = 0x8B31;
pub const TESS_CONTROL_SHADER: u32 = 0x8E88;
pub const TESS_EVALUATION_SHADER: u32 = 0x8E87;
pub const GEOMETRY_SHADER: u32 = 0x8DD9;
pub const FRAGMENT_SHADER: u32 = 0x8B30;
pub const TEXTURE_1D: u32 = 0x0DE0;
pub const TEXTURE_2D: u32 = 0x0DE1;
pub const TEXTURE_3D: u32 = 0x806F;
pub const TEXTURE_1D_ARRAY: u32 = 0x8C18;
pub const TEXTURE_2D_ARRAY: u32 = 0x8C1A;
pub const TEXTURE_RECTANGLE: u32 = 0x84F5;
pub const TEXTURE_CUBE_MAP: u32 = 0x8513;
pub const TEXTURE_CUBE_MAP_ARRAY: u32 = 0x9009;
pub const TEXTURE_2D_MULTISAMPLE: u32 = 0x9100;
pub const TEXTURE_2D_MULTISAMPLE_ARRAY: u32 = 0x9102;
pub const FLOAT: u32 = 0x1406;
pub const INT: u32 = 0x1404;
pub const UNSIGNED_INT: u32 = 0x1405;
pub const BYTE: u32 = 0x1400;
pub const UNSIGNED_BYTE: u32 = 0x1401;
pub const SHORT: u32 = 0x1402;
pub const UNSIGNED_SHORT: u32 = 0x1403;

/// A buffer target: the category under which a buffer is made current.
pub trait BufferType {
    /// The native selector of this target.
    spec fn target() -> u32;

    fn selector() -> (r: u32)
        ensures
            r == Self::target(),
    ;
}

/// A shader stage.
pub trait ShaderType {
    /// The native selector of this stage.
    spec fn stage() -> u32;

    fn selector() -> (r: u32)
        ensures
            r == Self::stage(),
    ;
}

/// A texture target: the category under which a texture is made current.
pub trait TextureTarget {
    /// The native selector of this target.
    spec fn target() -> u32;

    /// The name of this target, for diagnostics.
    spec fn label() -> Seq<char>;

    fn selector() -> (r: u32)
        ensures
            r == Self::target(),
    ;

    fn name() -> (r: &'static str)
        ensures
            r@ == Self::label(),
    ;
}

/// An element type that a vertex attribute can be read as.
pub trait VertexAttribPointerType {
    /// The native selector of this element type.
    spec fn kind() -> u32;

    /// The size of one element in bytes.
    spec fn width() -> usize;

    fn selector() -> (r: u32)
        ensures
            r == Self::kind(),
    ;

    fn size() -> (r: usize)
        ensures
            r == Self::width(),
    ;
}

/// An index type that indexed drawing can read.
pub trait DrawElementsType {
    /// The native selector of this index type.
    spec fn kind() -> u32;

    fn selector() -> (r: u32)
        ensures
            r == Self::kind(),
    ;
}

/// The buffer target `ARRAY_BUFFER`.
#[derive(Default, Clone, Copy, Debug, PartialEq, Eq, Hash)]
pub struct ArrayBuffer;

impl BufferType for ArrayBuffer {
    open spec fn target() -> u32 {
        ARRAY_BUFFER
    }

    fn selector() -> (r: u32) {
        ARRAY_BUFFER
    }
}

/// The buffer target `ATOMIC_COUNTER_BUFFER`.
#[derive(Default, Clone, Copy, Debug, PartialEq, Eq, Hash)]
pub struct AtomicCounterBuffer;

impl BufferType for AtomicCounterBuffer {
    open spec fn target() -> u32 {
        ATOMIC_COUNTER_BUFFER
    }

    fn selector() -> (r: u32) {
        ATOMIC_COUNTER_BUFFER
    }
}

/// The buffer target `COPY_READ_BUFFER`.
#[derive(Default, Clone, Copy, Debug, PartialEq, Eq, Hash)]
pub struct CopyReadBuffer;

impl BufferType for CopyReadBuffer {
    open spec fn target() -> u32 {
        COPY_READ_BUFFER
    }

    fn selector() -> (r: u32) {
        COPY_READ_BUFFER
    }
}

/// The buffer target `COPY_WRITE_BUFFER`.
#[derive(Default, Clone, Copy, Debug, PartialEq, Eq, Hash)]
pub struct CopyWriteBuffer;

impl BufferType for CopyWriteBuffer {
    open spec fn target() -> u32 {
        COPY_WRITE_BUFFER
    }

    fn selector() -> (r: u32) {
        COPY_WRITE_BUFFER
    }
}

/// The buffer target `DISPATCH_INDIRECT_BUFFER`.
#[derive(Default, Clone, Copy, Debug, PartialEq, Eq, Hash)]
pub struct DispatchIndirectBuffer;

impl BufferType for DispatchIndirectBuffer {
    open spec fn target() -> u32 {
        DISPATCH_INDIRECT_BUFFER
    }

    fn selector() -> (r: u32) {
        DISPATCH_INDIRECT_BUFFER
    }
}

/// The buffer target `DRAW_INDIRECT_BUFFER`.
#[derive(Default, Clone, Copy, Debug, PartialEq, Eq, Hash)]
pub struct DrawIndirectBuffer;

impl BufferType for DrawIndirectBuffer {
    open spec fn target() -> u32 {
        DRAW_INDIRECT_BUFFER
    }

    fn selector() -> (r: u32) {
        DRAW_INDIRECT_BUFFER
    }
}

/// The buffer target `ELEMENT_ARRAY_BUFFER`.
#[derive(Default, Clone, Copy, Debug, PartialEq, Eq, Hash)]
pub struct ElementArrayBuffer;

impl BufferType for ElementArrayBuffer {
    open spec fn target() -> u32 {
        ELEMENT_ARRAY_BUFFER
    }

    fn selector() -> (r: u32) {
        ELEMENT_ARRAY_BUFFER
    }
}

/// The buffer target `PIXEL_PACK_BUFFER`.
#[derive(Default, Clone, Copy, Debug, PartialEq, Eq, Hash)]
pub struct PixelPackBuffer;

impl BufferType for PixelPackBuffer {
    open spec fn target() -> u32 {
        PIXEL_PACK_BUFFER
    }

    fn selector() -> (r: u32) {
        PIXEL_PACK_BUFFER
    }
}

/// The buffer target `PIXEL_UNPACK_BUFFER`.
#[derive(Default, Clone, Copy, Debug, PartialEq, Eq, Hash)]
pub struct PixelUnpackBuffer;

impl BufferType for PixelUnpackBuffer {
    open spec fn target() -> u32 {
        PIXEL_UNPACK_BUFFER
    }

    fn selector() -> (r: u32) {
        PIXEL_UNPACK_BUFFER
    }
}

/// The buffer target `QUERY_BUFFER`.
#[derive(Default, Clone, Copy, Debug, PartialEq, Eq, Hash)]
pub struct QueryBuffer;

impl BufferType for QueryBuffer {
    open spec fn target() -> u32 {
        QUERY_BUFFER
    }

    fn selector() -> (r: u32) {
        QUERY_BUFFER
    }
}

/// The buffer target `SHADER_STORAGE_BUFFER`.
#[derive(Default, Clone, Copy, Debug, PartialEq, Eq, Hash)]
pub struct ShaderStorageBuffer;

impl BufferType for ShaderStorageBuffer {
    open spec fn target() -> u32 {
        SHADER_STORAGE_BUFFER
    }

    fn selector() -> (r: u32) {
        SHADER_STORAGE_BUFFER
    }
}

/// The buffer target `TEXTURE_BUFFER`.
#[derive(Default, Clone, Copy, Debug, PartialEq, Eq, Hash)]
pub struct TextureBuffer;

impl BufferType for TextureBuffer {
    open spec fn target() -> u32 {
        TEXTURE_BUFFER
    }

    fn selector() -> (r: u32) {
        TEXTURE_BUFFER
    }
}

/// The buffer target `TRANSFORM_FEEDBACK_BUFFER`.
#[derive(Default, Clone, Copy, Debug, PartialEq, Eq, Hash)]
pub struct TransformFeedbackBuffer;

impl BufferType for TransformFeedbackBuffer {
    open spec fn target() -> u32 {
        TRANSFORM_FEEDBACK_BUFFER
    }

    fn selector() -> (r: u32) {
        TRANSFORM_FEEDBACK_BUFFER
    }
}

/// The buffer target `UNIFORM_BUFFER`.
#[derive(Default, Clone, Copy, Debug, PartialEq, Eq, Hash)]
pub struct UniformBuffer;

impl BufferType for UniformBuffer {
    open spec fn target() -> u32 {
        UNIFORM_BUFFER
    }

    fn selector() -> (r: u32) {
        UNIFORM_BUFFER
    }
}

/// The shader stage `COMPUTE_SHADER`.
#[derive(Default, Clone, Copy, Debug, PartialEq, Eq, Hash)]
pub struct ComputeShader;

impl ShaderType for ComputeShader {
    open spec fn stage() -> u32 {
        COMPUTE_SHADER
    }

    fn selector() -> (r: u32) {
        COMPUTE_SHADER
    }
}

/// The shader stage `VERTEX_SHADER`.
#[derive(Default, Clone, Copy, Debug, PartialEq, Eq, Hash)]
pub struct VertexShader;

impl ShaderType for VertexShader {
    open spec fn stage() -> u32 {
        VERTEX_SHADER
    }

    fn selector() -> (r: u32) {
        VERTEX_SHADER
    }
}

/// The shader stage `TESS_CONTROL_SHADER`.
#[derive(Default, Clone, Copy, Debug, PartialEq, Eq, Hash)]
pub struct TessControlShader;

impl ShaderType for TessControlShader {
    open spec fn stage() -> u32 {
        TESS_CONTROL_SHADER
    }

    fn selector() -> (r: u32) {
        TESS_CONTROL_SHADER
    }
}

/// The shader stage `TESS_EVALUATION_SHADER`.
#[derive(Default, Clone, Copy, Debug, PartialEq, Eq, Hash)]
pub struct TessEvaluationShader;

impl ShaderType for TessEvaluationShader {
    open spec fn stage() -> u32 {
        TESS_EVALUATION_SHADER
    }

    fn selector() -> (r: u32) {
        TESS_EVALUATION_SHADER
    }
}

/// The shader stage `GEOMETRY_SHADER`.
#[derive(Default, Clone, Copy, Debug, PartialEq, Eq, Hash)]
pub struct GeometryShader;

impl ShaderType for GeometryShader {
    open spec fn stage() -> u32 {
        GEOMETRY_SHADER
    }

    fn selector() -> (r: u32) {
        GEOMETRY_SHADER
    }
}

/// The shader stage `FRAGMENT_SHADER`.
#[derive(Default, Clone, Copy, Debug, PartialEq, Eq, Hash)]
pub struct FragmentShader;

impl ShaderType for FragmentShader {
    open spec fn stage() -> u32 {
        FRAGMENT_SHADER
    }

    fn selector() -> (r: u32) {
        FRAGMENT_SHADER
    }
}

/// The texture target `TEXTURE_1D`.
#[derive(Default, Clone, Copy, Debug, PartialEq, Eq, Hash)]
pub struct Texture1D;

impl TextureTarget for Texture1D {
    open spec fn target() -> u32 {
        TEXTURE_1D
    }

    open spec fn label() -> Seq<char> {
        "Texture1D"@
    }

    fn selector() -> (r: u32) {
        TEXTURE_1D
    }

    fn name() -> (r: &'static str) {
        "Texture1D"
    }
}

/// The texture target `TEXTURE_2D`.
#[derive(Default, Clone, Copy, Debug, PartialEq, Eq, Hash)]
pub struct Texture2D;

impl TextureTarget for Texture2D {
    open spec fn target() -> u32 {
        TEXTURE_2D
    }

    open spec fn label() -> Seq<char> {
        "Texture2D"@
    }

    fn selector() -> (r: u32) {
        TEXTURE_2D
    }

    fn name() -> (r: &'static str) {
        "Texture2D"
    }
}

/// The texture target `TEXTURE_3D`.
#[derive(Default, Clone, Copy, Debug, PartialEq, Eq, Hash)]
pub struct Texture3D;

impl TextureTarget for Texture3D {
    open spec fn target() -> u32 {
        TEXTURE_3D
    }

    open spec fn label() -> Seq<char> {
        "Texture3D"@
    }

    fn selector() -> (r: u32) {
        TEXTURE_3D
    }

    fn name() -> (r: &'static str) {
        "Texture3D"
    }
}

/// The texture target `TEXTURE_1D_ARRAY`.
#[derive(Default, Clone, Copy, Debug, PartialEq, Eq, Hash)]
pub struct Texture1DArray;

impl TextureTarget for Texture1DArray {
    open spec fn target() -> u32 {
        TEXTURE_1D_ARRAY
    }

    open spec fn label() -> Seq<char> {
        "Texture1DArray"@
    }

    fn selector() -> (r: u32) {
        TEXTURE_1D_ARRAY
    }

    fn name() -> (r: &'static str) {
        "Texture1DArray"
    }
}

/// The texture target `TEXTURE_2D_ARRAY`.
#[derive(Default, Clone, Copy, Debug, PartialEq, Eq, Hash)]
pub struct Texture2DArray;

impl TextureTarget for Texture2DArray {
    open spec fn target() -> u32 {
        TEXTURE_2D_ARRAY
    }

    open spec fn label() -> Seq<char> {
        "Texture2DArray"@
    }

    fn selector() -> (r: u32) {
        TEXTURE_2D_ARRAY
    }

    fn name() -> (r: &'static str) {
        "Texture2DArray"
    }
}

/// The texture target `TEXTURE_RECTANGLE`.
#[derive(Default, Clone, Copy, Debug, PartialEq, Eq, Hash)]
pub struct TextureRectangle;

impl TextureTarget for TextureRectangle {
    open spec fn target() -> u32 {
        TEXTURE_RECTANGLE
    }

    open spec fn label() -> Seq<char> {
        "TextureRectangle"@
    }

    fn selector() -> (r: u32) {
        TEXTURE_RECTANGLE
    }

    fn name() -> (r: &'static str) {
        "TextureRectangle"
    }
}

/// The texture target `TEXTURE_CUBE_MAP`.
#[derive(Default, Clone, Copy, Debug, PartialEq, Eq, Hash)]
pub struct TextureCubeMap;

impl TextureTarget for TextureCubeMap {
    open spec fn target() -> u32 {
        TEXTURE_CUBE_MAP
    }

    open spec fn label() -> Seq<char> {
        "TextureCubeMap"@
    }

    fn selector() -> (r: u32) {
        TEXTURE_CUBE_MAP
    }

    fn name() -> (r: &'static str) {
        "TextureCubeMap"
    }
}

/// The texture target `TEXTURE_CUBE_MAP_ARRAY`.
#[derive(Default, Clone, Copy, Debug, PartialEq, Eq, Hash)]
pub struct TextureCubeMapArray;

impl TextureTarget for TextureCubeMapArray {
    open spec fn target() -> u32 {
        TEXTURE_CUBE_MAP_ARRAY
    }

    open spec fn label() -> Seq<char> {
        "TextureCubeMapArray"@
    }

    fn selector() -> (r: u32) {
        TEXTURE_CUBE_MAP_ARRAY
    }

    fn name() -> (r: &'static str) {
        "TextureCubeMapArray"
    }
}

/// The texture target `TEXTURE_2D_MULTISAMPLE`.
#[derive(Default, Clone, Copy, Debug, PartialEq, Eq, Hash)]
pub struct Texture2DMultisample;

impl TextureTarget for Texture2DMultisample {
    open spec fn target() -> u32 {
        TEXTURE_2D_MULTISAMPLE
    }

    open spec fn label() -> Seq<char> {
        "Texture2DMultisample"@
    }

    fn selector() -> (r: u32) {
        TEXTURE_2D_MULTISAMPLE
    }

    fn name() -> (r: &'static str) {
        "Texture2DMultisample"
    }
}

/// The texture target `TEXTURE_2D_MULTISAMPLE_ARRAY`.
#[derive(Default, Clone, Copy, Debug, PartialEq, Eq, Hash)]
pub struct Texture2DMultisampleArray;

impl TextureTarget for Texture2DMultisampleArray {
    open spec fn target() -> u32 {
        TEXTURE_2D_MULTISAMPLE_ARRAY
    }

    open spec fn label() -> Seq<char> {
        "Texture2DMultisampleArray"@
    }

    fn selector() -> (r: u32) {
        TEXTURE_2D_MULTISAMPLE_ARRAY
    }

    fn name() -> (r: &'static str) {
        "Texture2DMultisampleArray"
    }
}

impl TextureTarget for TextureBuffer {
    open spec fn target() -> u32 {
        TEXTURE_BUFFER
    }

    open spec fn label() -> Seq<char> {
        "TextureBuffer"@
    }

    fn selector() -> (r: u32) {
        TEXTURE_BUFFER
    }

    fn name() -> (r: &'static str) {
        "TextureBuffer"
    }
}

/// A 32-bit floating-point element, as vertex data is most often given.
#[derive(Default, Clone, Copy, Debug, PartialEq, Eq, Hash)]
pub struct Float32;

impl VertexAttribPointerType for Float32 {
    open spec fn kind() -> u32 {
        FLOAT
    }

    open spec fn width() -> usize {
        4
    }

    fn selector() -> (r: u32) {
        FLOAT
    }

    fn size() -> (r: usize) {
        4
    }
}

impl VertexAttribPointerType for i32 {
    open spec fn kind() -> u32 {
        INT
    }

    open spec fn width() -> usize {
        4
    }

    fn selector() -> (r: u32) {
        INT
    }

    fn size() -> (r: usize) {
        4
    }
}

impl VertexAttribPointerType for u32 {
    open spec fn kind() -> u32 {
        UNSIGNED_INT
    }

    open spec fn width() -> usize {
        4
    }

    fn selector() -> (r: u32) {
        UNSIGNED_INT
    }

    fn size() -> (r: usize) {
        4
    }
}

impl VertexAttribPointerType for i8 {
    open spec fn kind() -> u32 {
        BYTE
    }

    open spec fn width() -> usize {
        1
    }

    fn selector() -> (r: u32) {
        BYTE
    }

    fn size() -> (r: usize) {
        1
    }
}

impl VertexAttribPointerType for u8 {
    open spec fn kind() -> u32 {
        UNSIGNED_BYTE
    }

    open spec fn width() -> usize {
        1
    }

    fn selector() -> (r: u32) {
        UNSIGNED_BYTE
    }

    fn size() -> (r: usize) {
        1
    }
}

impl VertexAttribPointerType for i16 {
    open spec fn kind() -> u32 {
        SHORT
    }

    open spec fn width() -> usize {
        2
    }

    fn selector() -> (r: u32) {
        SHORT
    }

    fn size() -> (r: usize) {
        2
    }
}

impl VertexAttribPointerType for u16 {
    open spec fn kind() -> u32 {
        UNSIGNED_SHORT
    }

    open spec fn width() -> usize {
        2
    }

    fn selector() -> (r: u32) {
        UNSIGNED_SHORT
    }

    fn size() -> (r: usize) {
        2
    }
}

impl DrawElementsType for u8 {
    open spec fn kind() -> u32 {
        UNSIGNED_BYTE
    }

    fn selector() -> (r: u32) {
        UNSIGNED_BYTE
    }
}

impl DrawElementsType for u16 {
    open spec fn kind() -> u32 {
        UNSIGNED_SHORT
    }

    fn selector() -> (r: u32) {
        UNSIGNED_SHORT
    }
}

impl DrawElementsType for u32 {
    open spec fn kind() -> u32 {
        UNSIGNED_INT
    }

    fn selector() -> (r: u32) {
        UNSIGNED_INT
    }
}

/// The selectors of every buffer target.
pub open spec fn buffer_targets() -> Seq<u32> {
    seq![
        <ArrayBuffer as BufferType>::target(),
        <AtomicCounterBuffer as BufferType>::target(),
        <CopyReadBuffer as BufferType>::target(),
        <CopyWriteBuffer as BufferType>::target(),
        <DispatchIndirectBuffer as BufferType>::target(),
        <DrawIndirectBuffer as BufferType>::target(),
        <ElementArrayBuffer as BufferType>::target(),
        <PixelPackBuffer as BufferType>::target(),
        <PixelUnpackBuffer as BufferType>::target(),
        <QueryBuffer as BufferType>::target(),
        <ShaderStorageBuffer as BufferType>::target(),
        <TextureBuffer as BufferType>::target(),
        <TransformFeedbackBuffer as BufferType>::target(),
        <UniformBuffer as BufferType>::target(),
    ]
}

/// The selectors of every shader stage.
pub open spec fn shader_stages() -> Seq<u32> {
    seq![
        <ComputeShader as ShaderType>::stage(),
        <VertexShader as ShaderType>::stage(),
        <TessControlShader as ShaderType>::stage(),
        <TessEvaluationShader as ShaderType>::stage(),
        <GeometryShader as ShaderType>::stage(),
        <FragmentShader as ShaderType>::stage(),
    ]
}

/// The selectors of every texture target.
pub open spec fn texture_targets() -> Seq<u32> {
    seq![
        <Texture1D as TextureTarget>::target(),
        <Texture2D as TextureTarget>::target(),
        <Texture3D as TextureTarget>::target(),
        <Texture1DArray as TextureTarget>::target(),
        <Texture2DArray as TextureTarget>::target(),
        <TextureRectangle as TextureTarget>::target(),
        <TextureCubeMap as TextureTarget>::target(),
        <TextureCubeMapArray as TextureTarget>::target(),
        <Texture2DMultisample as TextureTarget>::target(),
        <Texture2DMultisampleArray as TextureTarget>::target(),
        <TextureBuffer as TextureTarget>::target(),
    ]
}

/// The selectors of every vertex attribute element type.
pub open spec fn attrib_kinds() -> Seq<u32> {
    seq![
        <Float32 as VertexAttribPointerType>::kind(),
        <i32 as VertexAttribPointerType>::kind(),
        <u32 as VertexAttribPointerType>::kind(),
        <i8 as VertexAttribPointerType>::kind(),
        <u8 as VertexAttribPointerType>::kind(),
        <i16 as VertexAttribPointerType>::kind(),
        <u16 as VertexAttribPointerType>::kind(),
    ]
}

/// The selectors of every index type.
pub open spec fn index_kinds() -> Seq<u32> {
    seq![
        <u8 as DrawElementsType>::kind(),
        <u16 as DrawElementsType>::kind(),
        <u32 as DrawElementsType>::kind(),
    ]
}

/// Within each category, no two tags share a selector.
pub proof fn lemma_selectors_distinct()
    ensures
        buffer_targets().no_duplicates(),
        shader_stages().no_duplicates(),
        texture_targets().no_duplicates(),
        attrib_kinds().no_duplicates(),
        index_kinds().no_duplicates(),
{
}

} // verus!
