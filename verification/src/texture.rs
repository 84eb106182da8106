//! Immutable or dynamic 2D textures and the formats of their pixels.

use vstd::prelude::*;
use crate::errors::Error;
use crate::location::Location;

verus! {

/// A texture is a container of one or more images. It can be the source of a
/// texture access from a shader.
#[derive(Debug, Clone, Copy)]
pub struct TextureSetup<'a> {
    pub location: Location<'a>,
    pub params: TextureParams,
    pub data: Option<&'a [u8]>,
}

impl<'a> TextureSetup<'a> {
    /// Whether a texture can be created from this setup: one under a shared
    /// location must be immutable.
    pub open spec fn valid(&self) -> bool {
        self.location.is_shared() ==> self.params.hint == TextureHint::Immutable
    }

    /// Validates the setup before anything is queued for it.
    pub fn validate(&self) -> (r: Result<(), Error>)
        ensures
            r == (if self.valid() {
                Ok::<(), Error>(())
            } else {
                Err::<(), Error>(Error::CreateMutableSharedObject)
            }),
    {
        if self.location.is_shared() {
            if self.params.hint != TextureHint::Immutable {
                return Err(Error::CreateMutableSharedObject);
            }
        }
        Ok(())
    }
}

impl<'a> Default for TextureSetup<'a> {
    /// The default setup has the default location and parameters, and no data.
    fn default() -> (s: Self)
        ensures
            s.location.signature() == crate::location::Signature::Unique,
            s.params == TextureParams::spec_default(),
            s.data is None,
            s.valid(),
    {
        TextureSetup { location: Location::default(), params: TextureParams::default(), data: None }
    }
}

/// The parameters a texture is created with.
#[derive(Debug, Copy, Clone, PartialEq, Eq)]
pub struct TextureParams {
    pub format: TextureFormat,
    pub address: TextureAddress,
    pub filter: TextureFilter,
    pub hint: TextureHint,
    pub mipmap: bool,
    pub dimensions: (u32, u32),
}

impl TextureParams {
    /// The parameters of a texture that nothing was said about.
    pub open spec fn spec_default() -> TextureParams {
        TextureParams {
            format: TextureFormat::U8U8U8U8,
            address: TextureAddress::Clamp,
            filter: TextureFilter::Linear,
            hint: TextureHint::Immutable,
            mipmap: false,
            dimensions: (0u32, 0u32),
        }
    }
}

impl Default for TextureParams {
    fn default() -> (p: Self)
        ensures
            p == TextureParams::spec_default(),
    {
        TextureParams {
            format: TextureFormat::U8U8U8U8,
            address: TextureAddress::Clamp,
            filter: TextureFilter::Linear,
            hint: TextureHint::Immutable,
            mipmap: false,
            dimensions: (0, 0),
        }
    }
}

/// A render texture is a texture with a special format that can be used as a
/// render target. If `sampler` is true, it can also be the source of a
/// texture access from a shader.
#[derive(Debug, Copy, Clone, PartialEq, Eq)]
pub struct RenderTextureSetup {
    pub format: RenderTextureFormat,
    pub address: TextureAddress,
    pub filter: TextureFilter,
    pub dimensions: (u32, u32),
    pub sampler: bool,
}

impl Default for RenderTextureSetup {
    fn default() -> (s: Self)
        ensures
            s == (RenderTextureSetup {
                format: RenderTextureFormat::RGB8,
                address: TextureAddress::Clamp,
                filter: TextureFilter::Linear,
                dimensions: (0u32, 0u32),
                sampler: true,
            }),
    {
        RenderTextureSetup {
            format: RenderTextureFormat::RGB8,
            address: TextureAddress::Clamp,
            filter: TextureFilter::Linear,
            dimensions: (0, 0),
            sampler: true,
        }
    }
}

/// The parameters a render texture is created with.
pub type RenderTextureParams = RenderTextureSetup;

/// The pixels a texture is created with.
#[derive(Debug, Clone, PartialEq, Eq)]
pub struct TextureData {
    pub bytes: Vec<Vec<u8>>,
}

/// Hint about the intended update strategy of the data.
#[derive(Debug, PartialEq, Eq, Clone, Copy, Structural)]
pub enum TextureHint {
    /// The resource is initialized with data and cannot be changed later.
    Immutable,
    /// The resource is initialized without data, but will be updated by the
    /// CPU in each frame.
    Stream,
    /// The resource is initialized without data and will be written by the CPU
    /// before use; updates will be infrequent.
    Dynamic,
}

/// Specifies how the texture is sampled.
#[derive(Debug, PartialEq, Eq, Clone, Copy, Structural)]
pub enum TextureFilter {
    /// The value of the texture element nearest to the centre of the pixel.
    Nearest,
    /// The weighted average of the four closest texture elements.
    Linear,
}

/// Sets the wrap parameter for a texture.
#[derive(Debug, PartialEq, Eq, Clone, Copy, Structural)]
pub enum TextureAddress {
    /// Samples at coord x + 1 map to coord x.
    Repeat,
    /// Samples at coord x + 1 map to coord 1 - x.
    Mirror,
    /// Samples at coord x + 1 map to coord 1.
    Clamp,
    /// Same as Mirror, but only for one repetition.
    MirrorClamp,
}

/// The formats of a renderable texture that can be attached to a framebuffer.
#[derive(Debug, PartialEq, Eq, Clone, Copy, Structural)]
pub enum RenderTextureFormat {
    RGB8,
    RGBA4,
    RGBA8,
    Depth16,
    Depth24,
    Depth32,
    Depth24Stencil8,
}

/// The formats of input data when uploading to a texture.
#[derive(Debug, PartialEq, Eq, Clone, Copy, Structural)]
pub enum TextureFormat {
    U8,
    U8U8,
    U8U8U8,
    U8U8U8U8,
    U5U6U5,
    U4U4U4U4,
    U5U5U5U1,
    U10U10U10U2,
    F16,
    F16F16,
    F16F16F16,
    F16F16F16F16,
    F32,
    F32F32,
    F32F32F32,
    F32F32F32F32,
}

/// The sum of the widths in `bits`.
pub open spec fn total_bits(bits: Seq<nat>) -> nat
    decreases bits.len(),
{
    if bits.len() == 0 {
        0
    } else {
        total_bits(bits.drop_last()) + bits.last()
    }
}

impl TextureFormat {
    /// The width in bits of each channel of a pixel, in the order the
    /// format's name gives them.
    pub open spec fn channel_bits(self) -> Seq<nat> {
        match self {
            TextureFormat::U8 => seq![8],
            TextureFormat::U8U8 => seq![8, 8],
            TextureFormat::U8U8U8 => seq![8, 8, 8],
            TextureFormat::U8U8U8U8 => seq![8, 8, 8, 8],
            TextureFormat::U5U6U5 => seq![5, 6, 5],
            TextureFormat::U4U4U4U4 => seq![4, 4, 4, 4],
            TextureFormat::U5U5U5U1 => seq![5, 5, 5, 1],
            TextureFormat::U10U10U10U2 => seq![10, 10, 10, 2],
            TextureFormat::F16 => seq![16],
            TextureFormat::F16F16 => seq![16, 16],
            TextureFormat::F16F16F16 => seq![16, 16, 16],
            TextureFormat::F16F16F16F16 => seq![16, 16, 16, 16],
            TextureFormat::F32 => seq![32],
            TextureFormat::F32F32 => seq![32, 32],
            TextureFormat::F32F32F32 => seq![32, 32, 32],
            TextureFormat::F32F32F32F32 => seq![32, 32, 32, 32],
        }
    }

    /// Returns the number of components of this client format.
    pub fn components(&self) -> (n: u8)
        ensures
            n == self.channel_bits().len(),
            1 <= n <= 4,
    {
        match *self {
            TextureFormat::F32 | TextureFormat::F16 | TextureFormat::U8 => 1,
            TextureFormat::U8U8 | TextureFormat::F16F16 | TextureFormat::F32F32 => 2,
            TextureFormat::U5U6U5
            | TextureFormat::U8U8U8
            | TextureFormat::F16F16F16
            | TextureFormat::F32F32F32 => 3,
            TextureFormat::U8U8U8U8
            | TextureFormat::U4U4U4U4
            | TextureFormat::U5U5U5U1
            | TextureFormat::U10U10U10U2
            | TextureFormat::F16F16F16F16
            | TextureFormat::F32F32F32F32 => 4,
        }
    }

    /// Returns the size in bytes of a pixel of this type.
    pub fn size(&self) -> (n: u8)
        ensures
            8 * n == total_bits(self.channel_bits()),
    {
        proof {
            reveal_with_fuel(total_bits, 6);
            let bits = self.channel_bits();
            if bits.len() >= 1 {
                let b1 = bits.drop_last();
                if b1.len() >= 1 {
                    let b2 = b1.drop_last();
                    if b2.len() >= 1 {
                        let b3 = b2.drop_last();
                        assert(b3.len() <= 1);
                    }
                }
            }
        }
        match *self {
            TextureFormat::U8 => 1,
            TextureFormat::U8U8
            | TextureFormat::U5U6U5
            | TextureFormat::U4U4U4U4
            | TextureFormat::U5U5U5U1
            | TextureFormat::F16 => 2,
            TextureFormat::U8U8U8 => 3,
            TextureFormat::U8U8U8U8
            | TextureFormat::U10U10U10U2
            | TextureFormat::F16F16
            | TextureFormat::F32 => 4,
            TextureFormat::F16F16F16 => 6,
            TextureFormat::F16F16F16F16 | TextureFormat::F32F32 => 8,
            TextureFormat::F32F32F32 => 12,
            TextureFormat::F32F32F32F32 => 16,
        }
    }
}

} // verus!
