//! Textures: their kinds, pixel formats and creation parameters.

use vstd::prelude::*;

verus! {

/// The kind of a texture.
#[derive(Copy, Clone, Debug, PartialEq, Eq, Structural)]
pub enum TexKind {
    /// Standard 2D texture
    Tex2d,
    /// Cube map texture
    CubeMap,
    Shadow2d,
    ShadowCube,
}

/// Format of the texture bytes
#[derive(Copy, Clone, Debug, PartialEq, Eq, Structural)]
pub enum TexFormat {
    /// 8-bit Red + 8-bit Green + 8-bit Blue + 8-bit Alpha
    Rgba8,
    /// 8-bit Red + 8-bit Green + 8-bit Blue
    Rgb8,
    /// 5-bit Red + 5-bit Green + 5-bit Blue + 1-bit Alpha
    Rgba5551,
    /// 5-bit Red + 6-bit Green + 5-bit Blue
    Rgb565,
    /// 4-bit Red + 4-bit Green + 4-bit Blue + 4-bit Alpha
    Rgba4,
    /// 8-bit Luminance + 8-bit Alpha
    La8,
    /// 8-bit Hi + 8-bit Lo
    HiLo8,
    /// 8-bit Luminance
    L8,
    /// 8-bit Alpha
    A8,
    /// 4-bit Luminance + 4-bit Alpha
    La4,
    /// 4-bit Luminance
    L4,
    /// 4-bit Alpha
    A4,
    /// ETC1 texture compression
    Etc1,
    /// ETC1 texture compression + 4-bit Alpha
    Etc1A4,
}

impl TexFormat {
    /// Bits needed to store each pixel
    pub open spec fn bits(self) -> nat {
        match self {
            TexFormat::Rgba8 => 32,
            TexFormat::Rgb8 => 24,
            TexFormat::Rgba5551
            | TexFormat::Rgb565
            | TexFormat::Rgba4
            | TexFormat::La8
            | TexFormat::HiLo8 => 16,
            TexFormat::L8 | TexFormat::A8 | TexFormat::La4 | TexFormat::Etc1A4 => 8,
            TexFormat::L4 | TexFormat::A4 | TexFormat::Etc1 => 4,
        }
    }

    /// Bits needed to store each pixel
    pub fn bits_per_pixel(&self) -> (n: usize)
        ensures
            n == self.bits(),
    {
        match self {
            TexFormat::Rgba8 => 32,
            TexFormat::Rgb8 => 24,
            TexFormat::Rgba5551
            | TexFormat::Rgb565
            | TexFormat::Rgba4
            | TexFormat::La8
            | TexFormat::HiLo8 => 16,
            TexFormat::L8 | TexFormat::A8 | TexFormat::La4 | TexFormat::Etc1A4 => 8,
            TexFormat::L4 | TexFormat::A4 | TexFormat::Etc1 => 4,
        }
    }

    /// Bytes that the pixels of a texture of `width` by `height` take.
    pub open spec fn byte_len(self, width: int, height: int) -> int {
        width * height * self.bits() / 8
    }

    /// Whether a buffer of `len` bytes holds all the pixels of a texture of
    /// `width` by `height` in this format, so that it can be uploaded.
    pub fn fits(&self, width: u16, height: u16, len: usize) -> (b: bool)
        ensures
            b == (len >= self.byte_len(width as int, height as int)),
    {
        let w = width as u64;
        let h = height as u64;
        assert(w * h <= 0xFFFF * 0xFFFF) by (nonlinear_arith)
            requires
                w <= 0xFFFF,
                h <= 0xFFFF,
        ;
        let pixels: u64 = w * h;
        let depth = self.bits_per_pixel() as u64;
        assert(pixels * depth <= 0xFFFF * 0xFFFF * 32) by (nonlinear_arith)
            requires
                pixels <= 0xFFFF * 0xFFFF,
                depth <= 32,
        ;
        let bits: u64 = pixels * depth;
        len as u64 >= bits / 8
    }
}

/// How a texture is sampled between its pixels.
#[derive(Copy, Clone, Debug, PartialEq, Eq, Structural)]
pub enum TextureFilterParam {
    /// Nearest-neighbor interpolation.
    Nearest,
    /// Linear interpolation.
    Linear,
}

/// How a texture is sampled outside its bounds.
#[derive(Copy, Clone, Debug, PartialEq, Eq, Structural)]
pub enum TextureWrapParam {
    /// Clamps to edge.
    ClampToEdge,
    /// Clamps to border.
    ClampToBorder,
    /// Repeats texture.
    Repeat,
    /// Repeats with mirrored texture.
    MirroredRepeat,
}

/// The parameters that a texture is created with.
#[derive(Copy, Clone, Debug, PartialEq, Eq, Structural)]
pub struct TexParams {
    use_vram: bool,
    width: u16,
    height: u16,
    format: TexFormat,
    kind: TexKind,
}

/// What a set of texture parameters holds.
pub struct TexParamsView {
    pub use_vram: bool,
    pub width: u16,
    pub height: u16,
    pub format: TexFormat,
    pub kind: TexKind,
}

impl View for TexParams {
    type V = TexParamsView;

    closed spec fn view(&self) -> TexParamsView {
        TexParamsView {
            use_vram: self.use_vram,
            width: self.width,
            height: self.height,
            format: self.format,
            kind: self.kind,
        }
    }
}

impl TexParams {
    /// Parameters for 2d texture in rgba8 format using CPU memory
    pub fn new_2d(width: u16, height: u16) -> (p: Self)
        ensures
            p@ == (TexParamsView {
                use_vram: false,
                width,
                height,
                format: TexFormat::Rgba8,
                kind: TexKind::Tex2d,
            }),
    {
        Self { use_vram: false, width, height, format: TexFormat::Rgba8, kind: TexKind::Tex2d }
    }

    /// Set whether to use vram for storing pixels
    pub fn use_vram(self, v: bool) -> (p: Self)
        ensures
            p@ == (TexParamsView { use_vram: v, ..self@ }),
    {
        let mut p = self;
        p.use_vram = v;
        p
    }

    /// Set the width in pixels
    pub fn width(self, v: u16) -> (p: Self)
        ensures
            p@ == (TexParamsView { width: v, ..self@ }),
    {
        let mut p = self;
        p.width = v;
        p
    }

    /// Set the height in pixels
    pub fn height(self, v: u16) -> (p: Self)
        ensures
            p@ == (TexParamsView { height: v, ..self@ }),
    {
        let mut p = self;
        p.height = v;
        p
    }

    /// Set to 2d
    pub fn make_2d(self) -> (p: Self)
        ensures
            p@ == (TexParamsView { kind: TexKind::Tex2d, ..self@ }),
    {
        let mut p = self;
        p.kind = TexKind::Tex2d;
        p
    }

    /// Set texture format
    pub fn format(self, fmt: TexFormat) -> (p: Self)
        ensures
            p@ == (TexParamsView { format: fmt, ..self@ }),
    {
        let mut p = self;
        p.format = fmt;
        p
    }

    /// The parameters, one by one: whether the pixels are stored in vram,
    /// the width, the height, the format and the kind.
    pub fn parts(&self) -> (r: (bool, u16, u16, TexFormat, TexKind))
        ensures
            r == (self@.use_vram, self@.width, self@.height, self@.format, self@.kind),
    {
        (self.use_vram, self.width, self.height, self.format, self.kind)
    }
}

} // verus!
