//! Resource handles: plain values that name a native allocation, each
//! loaded into and unloaded from a device context.
//!
//! A handle is not `Copy`: `unload` consumes it, so the handle it was
//! cannot be used again. A `load` takes what the native load call returned
//! and records it in the device; a zero id there means that the native
//! load failed, and such a handle is never valid.
use vstd::prelude::*;
use crate::codes::{PixelFormat, ShaderUniformDataType, TextureFilter, TextureWrap};
use crate::device::{
    DeviceError, DeviceState, DeviceView, DrawMode, ResourceKind, Window, after_alias, after_font,
    after_font_unload, after_register, after_unload, alias_result, draw_result, font_result,
    handle_of, register_result, release_result, use_result,
};
use crate::marshal::{NativeString, to_native_string};
use vstd::utf8::encode_utf8;

verus! {

/// An RGBA color, one byte per channel.
#[derive(Debug, Clone, Copy, PartialEq, Eq, Structural)]
pub struct Color {
    pub r: u8,
    pub g: u8,
    pub b: u8,
    pub a: u8,
}

impl Color {
    pub fn new(r: u8, g: u8, b: u8, a: u8) -> (c: Color)
        ensures
            c == (Color { r, g, b, a }),
    {
        Color { r, g, b, a }
    }
}

/// The fields of a native texture.
#[derive(Debug, Clone, Copy, PartialEq, Eq, Structural)]
pub struct Texture {
    /// Native texture id; 0 after a failed load.
    pub id: u32,
    pub width: i32,
    pub height: i32,
    pub mipmaps: i32,
    /// Native pixel format code.
    pub format: i32,
}

/// A texture owned through a device context.
#[derive(Debug, PartialEq, Eq)]
pub struct Texture2D(pub Texture);

/// A cubemap texture.
#[derive(Debug, PartialEq, Eq)]
pub struct TextureCubemap(pub Texture);

/// The fields of a native render target: a framebuffer with its color and
/// depth attachments.
#[derive(Debug, Clone, Copy, PartialEq, Eq, Structural)]
pub struct RenderTexture {
    /// Native framebuffer id; 0 after a failed load.
    pub id: u32,
    pub texture: Texture,
    pub depth: Texture,
}

/// A render target owned through a device context.
#[derive(Debug, PartialEq, Eq)]
pub struct RenderTexture2D(pub RenderTexture);

/// What the device answers to recording a fresh handle, carried over to the
/// handle itself.
pub open spec fn loaded<T>(registered: Result<bool, DeviceError>, handle: T) -> Result<T, DeviceError> {
    match registered {
        Ok(_) => Ok(handle),
        Err(e) => Err(e),
    }
}

/// The result of an operation on a usable handle that hands a value to the
/// native call.
pub open spec fn gated<T>(check: Result<(), DeviceError>, value: T) -> Result<T, DeviceError> {
    match check {
        Ok(_) => Ok(value),
        Err(e) => Err(e),
    }
}

/// Bits that one pixel takes in the native format `f`.
pub open spec fn spec_bits_per_pixel(f: PixelFormat) -> u128 {
    match f {
        PixelFormat::UncompressedGrayscale => 8,
        PixelFormat::UncompressedGrayAlpha => 16,
        PixelFormat::UncompressedR5g6b5 => 16,
        PixelFormat::UncompressedR8g8b8 => 24,
        PixelFormat::UncompressedR5g5b5a1 => 16,
        PixelFormat::UncompressedR4g4b4a4 => 16,
        PixelFormat::UncompressedR8g8b8a8 => 32,
        PixelFormat::UncompressedR32 => 32,
        PixelFormat::UncompressedR32g32b32 => 96,
        PixelFormat::UncompressedR32g32b32a32 => 128,
        PixelFormat::UncompressedR16 => 16,
        PixelFormat::UncompressedR16g16b16 => 48,
        PixelFormat::UncompressedR16g16b16a16 => 64,
        PixelFormat::CompressedDxt1Rgb => 4,
        PixelFormat::CompressedDxt1Rgba => 4,
        PixelFormat::CompressedDxt3Rgba => 8,
        PixelFormat::CompressedDxt5Rgba => 8,
        PixelFormat::CompressedEtc1Rgb => 4,
        PixelFormat::CompressedEtc2Rgb => 4,
        PixelFormat::CompressedEtc2EacRgba => 8,
        PixelFormat::CompressedPvrtRgb => 4,
        PixelFormat::CompressedPvrtRgba => 4,
        PixelFormat::CompressedAstc4x4Rgba => 8,
        PixelFormat::CompressedAstc8x8Rgba => 2,
    }
}

/// Bits that one pixel takes in the native format `f`.
pub fn bits_per_pixel(f: PixelFormat) -> (r: u128)
    ensures
        r == spec_bits_per_pixel(f),
{
    match f {
        PixelFormat::UncompressedGrayscale => 8,
        PixelFormat::UncompressedGrayAlpha => 16,
        PixelFormat::UncompressedR5g6b5 => 16,
        PixelFormat::UncompressedR8g8b8 => 24,
        PixelFormat::UncompressedR5g5b5a1 => 16,
        PixelFormat::UncompressedR4g4b4a4 => 16,
        PixelFormat::UncompressedR8g8b8a8 => 32,
        PixelFormat::UncompressedR32 => 32,
        PixelFormat::UncompressedR32g32b32 => 96,
        PixelFormat::UncompressedR32g32b32a32 => 128,
        PixelFormat::UncompressedR16 => 16,
        PixelFormat::UncompressedR16g16b16 => 48,
        PixelFormat::UncompressedR16g16b16a16 => 64,
        PixelFormat::CompressedDxt1Rgb => 4,
        PixelFormat::CompressedDxt1Rgba => 4,
        PixelFormat::CompressedDxt3Rgba => 8,
        PixelFormat::CompressedDxt5Rgba => 8,
        PixelFormat::CompressedEtc1Rgb => 4,
        PixelFormat::CompressedEtc2Rgb => 4,
        PixelFormat::CompressedEtc2EacRgba => 8,
        PixelFormat::CompressedPvrtRgb => 4,
        PixelFormat::CompressedPvrtRgba => 4,
        PixelFormat::CompressedAstc4x4Rgba => 8,
        PixelFormat::CompressedAstc8x8Rgba => 2,
    }
}

/// The format is block-compressed.
pub open spec fn is_compressed(f: PixelFormat) -> bool {
    f.spec_code() >= 14
}

/// Bytes that a native update of a `width` by `height` texture in format
/// `f` may read: `width * height * bits / 8` rounded up, and at least one
/// 16-byte block for a compressed format. Negative sizes count as 0.
pub open spec fn pixel_bytes(width: i32, height: i32, f: PixelFormat) -> int {
    let w: int = if width < 0 { 0 } else { width as int };
    let h: int = if height < 0 { 0 } else { height as int };
    let n = (w * h * spec_bits_per_pixel(f) + 7) / 8;
    if is_compressed(f) && n < 16 {
        16
    } else {
        n
    }
}

/// Bytes that a native update of a `width` by `height` texture in format
/// `f` may read.
pub fn pixel_data_bytes(width: i32, height: i32, f: PixelFormat) -> (r: u128)
    ensures
        r == pixel_bytes(width, height, f),
{
    let w: u128 = if width < 0 { 0 } else { width as u128 };
    let h: u128 = if height < 0 { 0 } else { height as u128 };
    let bits = bits_per_pixel(f);
    assert(w * h <= 0x4000_0000_0000_0000) by (nonlinear_arith)
        requires
            w <= 0x8000_0000,
            h <= 0x8000_0000,
    ;
    assert(w * h * bits <= 0x4000_0000_0000_0000 * 128) by (nonlinear_arith)
        requires
            w * h <= 0x4000_0000_0000_0000,
            bits <= 128,
    ;
    let n = (w * h * bits + 7) / 8;
    if f.code() >= 14 && n < 16 {
        16
    } else {
        n
    }
}

/// What a texture update answers: the texture must be usable, its format
/// known, and the buffer must hold every byte the native side reads.
pub open spec fn update_result(
    window: DeviceView,
    texture: Texture,
    pixel_count: nat,
) -> Result<(), DeviceError> {
    match use_result(window, ResourceKind::Texture, texture.id as u64) {
        Err(e) => Err(e),
        Ok(_) => match PixelFormat::spec_from_code(texture.format) {
            None => Err(DeviceError::UnknownFormat),
            Some(f) => if 4 * pixel_count >= pixel_bytes(texture.width, texture.height, f) {
                Ok(())
            } else {
                Err(DeviceError::BufferTooShort)
            },
        },
    }
}

impl Texture2D {
    /// The registry id of this texture.
    pub open spec fn key(&self) -> u64 {
        self.0.id as u64
    }

    /// Takes charge of a texture that a native load returned.
    pub fn load(window: &mut Window, raw: Texture) -> (r: Result<Texture2D, DeviceError>)
        ensures
            r == loaded(
                register_result(old(window)@, handle_of(ResourceKind::Texture, raw.id as u64)),
                Texture2D(raw),
            ),
            final(window)@ == after_register(
                old(window)@,
                handle_of(ResourceKind::Texture, raw.id as u64),
            ),
            old(window)@.well_formed() ==> final(window)@.well_formed(),
    {
        match window.register(ResourceKind::Texture, raw.id as u64) {
            Ok(_) => Ok(Texture2D(raw)),
            Err(e) => Err(e),
        }
    }

    /// Gives the texture up; `Ok(true)` means the native unload is due.
    pub fn unload(self, window: &mut Window) -> (r: Result<bool, DeviceError>)
        ensures
            r == release_result(old(window)@, ResourceKind::Texture, self.key()),
            final(window)@ == after_unload(old(window)@, ResourceKind::Texture, self.key()),
            old(window)@.well_formed() ==> final(window)@.well_formed(),
    {
        window.release(ResourceKind::Texture, self.0.id as u64)
    }

    /// The texture is loaded in an open device and not yet unloaded.
    pub fn is_valid(&self, window: &Window) -> (r: bool)
        ensures
            r == (use_result(window@, ResourceKind::Texture, self.key()) is Ok),
    {
        window.require_live(ResourceKind::Texture, self.0.id as u64).is_ok()
    }

    /// Checks that `pixels` may be copied into the texture: it must cover
    /// every byte the native side reads for the texture's size and format.
    /// The buffer stays the caller's.
    pub fn update(&self, window: &Window, pixels: &[Color]) -> (r: Result<(), DeviceError>)
        ensures
            r == update_result(window@, self.0, pixels@.len()),
    {
        match window.require_live(ResourceKind::Texture, self.0.id as u64) {
            Err(e) => Err(e),
            Ok(_) => match PixelFormat::from_code(self.0.format) {
                None => Err(DeviceError::UnknownFormat),
                Some(f) => {
                    if 4 * (pixels.len() as u128) >= pixel_data_bytes(self.0.width, self.0.height, f) {
                        Ok(())
                    } else {
                        Err(DeviceError::BufferTooShort)
                    }
                },
            },
        }
    }

    /// Checks that mipmaps may be generated for the texture.
    pub fn gen_mipmaps(texture: &Texture2D, window: &Window) -> (r: Result<(), DeviceError>)
        ensures
            r == use_result(window@, ResourceKind::Texture, texture.key()),
    {
        window.require_live(ResourceKind::Texture, texture.0.id as u64)
    }

    /// The native filter code to set on the texture.
    pub fn set_filter(&self, window: &Window, filter: TextureFilter) -> (r: Result<i32, DeviceError>)
        ensures
            r == gated(use_result(window@, ResourceKind::Texture, self.key()), filter.spec_code()),
    {
        match window.require_live(ResourceKind::Texture, self.0.id as u64) {
            Ok(_) => Ok(filter.code()),
            Err(e) => Err(e),
        }
    }

    /// The native wrap code to set on the texture.
    pub fn set_wrap(&self, window: &Window, wrap: TextureWrap) -> (r: Result<i32, DeviceError>)
        ensures
            r == gated(use_result(window@, ResourceKind::Texture, self.key()), wrap.spec_code()),
    {
        match window.require_live(ResourceKind::Texture, self.0.id as u64) {
            Ok(_) => Ok(wrap.code()),
            Err(e) => Err(e),
        }
    }

    /// Checks that the texture may be drawn: inside a frame, while live.
    pub fn draw(&self, window: &Window, pos_x: i32, pos_y: i32, tint: Color) -> (r: Result<
        (),
        DeviceError,
    >)
        ensures
            r == draw_result(window@, ResourceKind::Texture, self.key()),
    {
        window.require_drawable(ResourceKind::Texture, self.0.id as u64)
    }
}

impl TextureCubemap {
    /// Takes charge of a cubemap that a native load returned.
    pub fn load(window: &mut Window, raw: Texture) -> (r: Result<TextureCubemap, DeviceError>)
        ensures
            r == loaded(
                register_result(old(window)@, handle_of(ResourceKind::Texture, raw.id as u64)),
                TextureCubemap(raw),
            ),
            final(window)@ == after_register(
                old(window)@,
                handle_of(ResourceKind::Texture, raw.id as u64),
            ),
            old(window)@.well_formed() ==> final(window)@.well_formed(),
    {
        match window.register(ResourceKind::Texture, raw.id as u64) {
            Ok(_) => Ok(TextureCubemap(raw)),
            Err(e) => Err(e),
        }
    }

    /// Gives the cubemap up; `Ok(true)` means the native unload is due.
    pub fn unload(self, window: &mut Window) -> (r: Result<bool, DeviceError>)
        ensures
            r == release_result(old(window)@, ResourceKind::Texture, self.0.id as u64),
            final(window)@ == after_unload(old(window)@, ResourceKind::Texture, self.0.id as u64),
            old(window)@.well_formed() ==> final(window)@.well_formed(),
    {
        window.release(ResourceKind::Texture, self.0.id as u64)
    }
}

impl RenderTexture2D {
    /// The registry id of this render target.
    pub open spec fn key(&self) -> u64 {
        self.0.id as u64
    }

    /// Takes charge of a render target that a native load returned.
    pub fn load(window: &mut Window, raw: RenderTexture) -> (r: Result<RenderTexture2D, DeviceError>)
        ensures
            r == loaded(
                register_result(old(window)@, handle_of(ResourceKind::RenderTexture, raw.id as u64)),
                RenderTexture2D(raw),
            ),
            final(window)@ == after_register(
                old(window)@,
                handle_of(ResourceKind::RenderTexture, raw.id as u64),
            ),
            old(window)@.well_formed() ==> final(window)@.well_formed(),
    {
        match window.register(ResourceKind::RenderTexture, raw.id as u64) {
            Ok(_) => Ok(RenderTexture2D(raw)),
            Err(e) => Err(e),
        }
    }

    /// The render target is loaded in an open device and not yet unloaded.
    pub fn valid(&self, window: &Window) -> (r: bool)
        ensures
            r == (use_result(window@, ResourceKind::RenderTexture, self.key()) is Ok),
    {
        window.require_live(ResourceKind::RenderTexture, self.0.id as u64).is_ok()
    }

    /// Gives the render target up; `Ok(true)` means the native unload is due.
    pub fn unload(self, window: &mut Window) -> (r: Result<bool, DeviceError>)
        ensures
            r == release_result(old(window)@, ResourceKind::RenderTexture, self.key()),
            final(window)@ == after_unload(old(window)@, ResourceKind::RenderTexture, self.key()),
            old(window)@.well_formed() ==> final(window)@.well_formed(),
    {
        window.release(ResourceKind::RenderTexture, self.0.id as u64)
    }

    /// Redirects drawing into this target until the matching `end_mode`.
    pub fn begin_mode(&self, window: &mut Window) -> (r: Result<(), DeviceError>)
        ensures
            use_result(old(window)@, ResourceKind::RenderTexture, self.key()) matches Err(e) ==> r
                == Err::<(), DeviceError>(e) && final(window)@ == old(window)@,
            use_result(old(window)@, ResourceKind::RenderTexture, self.key()) is Ok ==> {
                &&& r is Ok <==> old(window)@.state == DeviceState::Drawing
                &&& r is Err ==> r == Err::<(), DeviceError>(DeviceError::NotDrawing)
                &&& final(window)@.modes == if r is Ok {
                    old(window)@.modes.push(DrawMode::Texture)
                } else {
                    old(window)@.modes
                }
                &&& final(window)@.state == old(window)@.state
                &&& final(window)@.live == old(window)@.live
            },
            old(window)@.well_formed() ==> final(window)@.well_formed(),
    {
        match window.require_live(ResourceKind::RenderTexture, self.0.id as u64) {
            Ok(_) => window.begin_mode(DrawMode::Texture),
            Err(e) => Err(e),
        }
    }
}

/// A compiled shader program.
#[derive(Debug, PartialEq, Eq)]
pub struct Shader {
    /// Native program id; 0 after a failed load.
    pub id: u32,
    /// Address of the native location table.
    pub locs: u64,
}

/// A uniform or attribute location inside a shader.
#[derive(Debug, Clone, Copy, PartialEq, Eq, Structural)]
pub struct ShaderLocation(pub i32);

impl ShaderLocation {
    /// A location the native side reported; a negative one means that the
    /// name was not found.
    pub fn from_native(location: i32) -> (r: Option<ShaderLocation>)
        ensures
            location < 0 ==> r is None,
            location >= 0 ==> r == Some(ShaderLocation(location)),
    {
        if location < 0 {
            None
        } else {
            Some(ShaderLocation(location))
        }
    }

    /// The native location index.
    pub fn index(&self) -> (r: i32)
        ensures
            r == self.0,
    {
        self.0
    }
}

impl From<i32> for ShaderLocation {
    fn from(location: i32) -> ShaderLocation {
        ShaderLocation(location)
    }
}

impl vstd::std_specs::convert::FromSpecImpl<i32> for ShaderLocation {
    open spec fn obeys_from_spec() -> bool {
        true
    }

    open spec fn from_spec(location: i32) -> ShaderLocation {
        ShaderLocation(location)
    }
}

impl Shader {
    /// The registry id of this shader.
    pub open spec fn key(&self) -> u64 {
        self.id as u64
    }

    /// Takes charge of a shader that a native load returned.
    pub fn load(window: &mut Window, raw: Shader) -> (r: Result<Shader, DeviceError>)
        ensures
            r == loaded(
                register_result(old(window)@, handle_of(ResourceKind::Shader, raw.id as u64)),
                raw,
            ),
            final(window)@ == after_register(
                old(window)@,
                handle_of(ResourceKind::Shader, raw.id as u64),
            ),
            old(window)@.well_formed() ==> final(window)@.well_formed(),
    {
        match window.register(ResourceKind::Shader, raw.id as u64) {
            Ok(_) => Ok(raw),
            Err(e) => Err(e),
        }
    }

    /// Marshals the two shader sources for a native load from memory.
    pub fn from_memory(window: &Window, vs_code: &str, fs_code: &str) -> (r: Result<
        (NativeString, NativeString),
        DeviceError,
    >)
        ensures
            r is Ok <==> window@.is_open() && !encode_utf8(vs_code@).contains(0u8)
                && !encode_utf8(fs_code@).contains(0u8),
            !window@.is_open() ==> r == Err::<(NativeString, NativeString), DeviceError>(
                DeviceError::Closed,
            ),
            r matches Ok((vs, fs)) ==> vs@ == encode_utf8(vs_code@).push(0u8) && fs@ == encode_utf8(
                fs_code@,
            ).push(0u8),
    {
        if !window.is_open() {
            return Err(DeviceError::Closed);
        }
        let vs = match to_native_string(vs_code) {
            Ok(v) => v,
            Err(e) => return Err(DeviceError::InvalidString(e)),
        };
        let fs = match to_native_string(fs_code) {
            Ok(f) => f,
            Err(e) => return Err(DeviceError::InvalidString(e)),
        };
        Ok((vs, fs))
    }

    /// Gives the shader up; `Ok(true)` means the native unload is due.
    pub fn unload(self, window: &mut Window) -> (r: Result<bool, DeviceError>)
        ensures
            r == release_result(old(window)@, ResourceKind::Shader, self.key()),
            final(window)@ == after_unload(old(window)@, ResourceKind::Shader, self.key()),
            old(window)@.well_formed() ==> final(window)@.well_formed(),
    {
        window.release(ResourceKind::Shader, self.id as u64)
    }

    /// The shader is loaded in an open device and not yet unloaded.
    pub fn is_valid(&self, window: &Window) -> (r: bool)
        ensures
            r == (use_result(window@, ResourceKind::Shader, self.key()) is Ok),
    {
        window.require_live(ResourceKind::Shader, self.id as u64).is_ok()
    }

    /// Opens a shader mode bracket with this shader.
    pub fn begin_mode(&self, window: &mut Window) -> (r: Result<(), DeviceError>)
        ensures
            use_result(old(window)@, ResourceKind::Shader, self.key()) matches Err(e) ==> r
                == Err::<(), DeviceError>(e) && final(window)@ == old(window)@,
            use_result(old(window)@, ResourceKind::Shader, self.key()) is Ok ==> {
                &&& r is Ok <==> old(window)@.state == DeviceState::Drawing
                &&& r is Err ==> r == Err::<(), DeviceError>(DeviceError::NotDrawing)
                &&& final(window)@.modes == if r is Ok {
                    old(window)@.modes.push(DrawMode::Shader)
                } else {
                    old(window)@.modes
                }
                &&& final(window)@.state == old(window)@.state
                &&& final(window)@.live == old(window)@.live
            },
            old(window)@.well_formed() ==> final(window)@.well_formed(),
    {
        match window.require_live(ResourceKind::Shader, self.id as u64) {
            Ok(_) => window.begin_mode(DrawMode::Shader),
            Err(e) => Err(e),
        }
    }

    /// Closes the innermost bracket, which must be a shader mode.
    pub fn end_mode(&self, window: &mut Window) -> (r: Result<(), DeviceError>)
        ensures
            r is Ok <==> old(window)@.state == DeviceState::Drawing && old(window)@.modes.len() > 0
                && old(window)@.modes.last() == DrawMode::Shader,
            r is Ok ==> final(window)@.modes == old(window)@.modes.drop_last(),
            r is Err ==> final(window)@ == old(window)@,
            final(window)@.state == old(window)@.state,
            final(window)@.live == old(window)@.live,
            old(window)@.well_formed() ==> final(window)@.well_formed(),
    {
        window.end_mode(DrawMode::Shader)
    }

    /// Marshals a uniform name for the native location lookup.
    pub fn uniform_location(&self, window: &Window, uniform_name: &str) -> (r: Result<
        NativeString,
        DeviceError,
    >)
        ensures
            use_result(window@, ResourceKind::Shader, self.key()) matches Err(e) ==> r == Err::<
                NativeString,
                DeviceError,
            >(e),
            use_result(window@, ResourceKind::Shader, self.key()) is Ok ==> (r is Ok
                <==> !encode_utf8(uniform_name@).contains(0u8)),
            r matches Ok(n) ==> n@ == encode_utf8(uniform_name@).push(0u8),
    {
        self.location_name(window, uniform_name)
    }

    /// Marshals an attribute name for the native location lookup.
    pub fn attrib_location(&self, window: &Window, attrib_name: &str) -> (r: Result<
        NativeString,
        DeviceError,
    >)
        ensures
            use_result(window@, ResourceKind::Shader, self.key()) matches Err(e) ==> r == Err::<
                NativeString,
                DeviceError,
            >(e),
            use_result(window@, ResourceKind::Shader, self.key()) is Ok ==> (r is Ok
                <==> !encode_utf8(attrib_name@).contains(0u8)),
            r matches Ok(n) ==> n@ == encode_utf8(attrib_name@).push(0u8),
    {
        self.location_name(window, attrib_name)
    }

    fn location_name(&self, window: &Window, name: &str) -> (r: Result<NativeString, DeviceError>)
        ensures
            use_result(window@, ResourceKind::Shader, self.key()) matches Err(e) ==> r == Err::<
                NativeString,
                DeviceError,
            >(e),
            use_result(window@, ResourceKind::Shader, self.key()) is Ok ==> (r is Ok
                <==> !encode_utf8(name@).contains(0u8)),
            r matches Ok(n) ==> n@ == encode_utf8(name@).push(0u8),
    {
        match window.require_live(ResourceKind::Shader, self.id as u64) {
            Err(e) => Err(e),
            Ok(_) => match to_native_string(name) {
                Ok(n) => Ok(n),
                Err(e) => Err(DeviceError::InvalidString(e)),
            },
        }
    }

    /// The native type code for setting one uniform value.
    pub fn set<T>(
        &self,
        window: &Window,
        location: &ShaderLocation,
        value: &T,
        uniform_type: ShaderUniformDataType,
    ) -> (r: Result<i32, DeviceError>)
        ensures
            r == gated(use_result(window@, ResourceKind::Shader, self.key()), uniform_type.spec_code()),
    {
        match window.require_live(ResourceKind::Shader, self.id as u64) {
            Ok(_) => Ok(uniform_type.code()),
            Err(e) => Err(e),
        }
    }

    /// The native element count for setting a uniform array from `value`;
    /// `TooLong` where the count does not fit a native `int`.
    pub fn set_vector<T>(
        &self,
        window: &Window,
        location: &ShaderLocation,
        value: &[T],
        uniform_type: ShaderUniformDataType,
    ) -> (r: Result<i32, DeviceError>)
        ensures
            use_result(window@, ResourceKind::Shader, self.key()) matches Err(e) ==> r == Err::<
                i32,
                DeviceError,
            >(e),
            use_result(window@, ResourceKind::Shader, self.key()) is Ok ==> if value@.len()
                <= i32::MAX {
                r == Ok::<i32, DeviceError>(value@.len() as i32)
            } else {
                r == Err::<i32, DeviceError>(DeviceError::TooLong)
            },
    {
        match window.require_live(ResourceKind::Shader, self.id as u64) {
            Err(e) => Err(e),
            Ok(_) => {
                if value.len() <= i32::MAX as usize {
                    Ok(value.len() as i32)
                } else {
                    Err(DeviceError::TooLong)
                }
            },
        }
    }
}

/// The fields of a native audio stream.
#[derive(Debug, Clone, Copy, PartialEq, Eq, Structural)]
pub struct AudioStream {
    /// Address of the native audio buffer; 0 after a failed load.
    pub buffer: u64,
    /// Address of the native audio processor.
    pub processor: u64,
    pub sample_rate: u32,
    pub sample_size: u32,
    pub channels: u32,
}

/// A sound: samples held in a native audio buffer, or an alias that plays
/// the samples of another sound.
#[derive(Debug, PartialEq, Eq)]
pub struct Sound {
    pub stream: AudioStream,
    pub frame_count: i32,
}

impl Sound {
    /// The registry id of this sound.
    pub open spec fn key(&self) -> u64 {
        self.stream.buffer
    }

    /// Takes charge of a sound that a native load returned.
    pub fn load(window: &mut Window, raw: Sound) -> (r: Result<Sound, DeviceError>)
        ensures
            r == loaded(
                register_result(old(window)@, handle_of(ResourceKind::Sound, raw.key())),
                raw,
            ),
            final(window)@ == after_register(old(window)@, handle_of(ResourceKind::Sound, raw.key())),
            old(window)@.well_formed() ==> final(window)@.well_formed(),
    {
        match window.register(ResourceKind::Sound, raw.stream.buffer) {
            Ok(_) => Ok(raw),
            Err(e) => Err(e),
        }
    }

    /// Takes charge of an alias of this sound that the native side made.
    pub fn load_alias(&self, window: &mut Window, raw: Sound) -> (r: Result<Sound, DeviceError>)
        ensures
            r == loaded(alias_result(old(window)@, raw.key(), self.key()), raw),
            final(window)@ == after_alias(old(window)@, raw.key(), self.key()),
            old(window)@.well_formed() ==> final(window)@.well_formed(),
    {
        match window.register_alias(raw.stream.buffer, self.stream.buffer) {
            Ok(_) => Ok(raw),
            Err(e) => Err(e),
        }
    }

    /// Gives the sound up, and with it every alias of it; `Ok(true)` means
    /// the native unload is due.
    pub fn unload(self, window: &mut Window) -> (r: Result<bool, DeviceError>)
        ensures
            r == release_result(old(window)@, ResourceKind::Sound, self.key()),
            final(window)@ == after_unload(old(window)@, ResourceKind::Sound, self.key()),
            old(window)@.well_formed() ==> final(window)@.well_formed(),
    {
        window.release(ResourceKind::Sound, self.stream.buffer)
    }

    /// Gives an alias up, leaving the samples to their sound; `Ok(true)`
    /// means the native alias unload is due.
    pub fn unload_alias(self, window: &mut Window) -> (r: Result<bool, DeviceError>)
        ensures
            r == release_result(old(window)@, ResourceKind::SoundAlias, self.key()),
            final(window)@ == after_unload(old(window)@, ResourceKind::SoundAlias, self.key()),
            old(window)@.well_formed() ==> final(window)@.well_formed(),
    {
        window.release(ResourceKind::SoundAlias, self.stream.buffer)
    }

    /// The native sample count for copying `data` into the sound's buffer;
    /// the data stays the caller's.
    pub fn update<T>(&self, window: &Window, data: &[T]) -> (r: Result<i32, DeviceError>)
        ensures
            use_result(window@, ResourceKind::Sound, self.key()) matches Err(e) ==> r == Err::<
                i32,
                DeviceError,
            >(e),
            use_result(window@, ResourceKind::Sound, self.key()) is Ok ==> if data@.len()
                <= i32::MAX {
                r == Ok::<i32, DeviceError>(data@.len() as i32)
            } else {
                r == Err::<i32, DeviceError>(DeviceError::TooLong)
            },
    {
        match window.require_live(ResourceKind::Sound, self.stream.buffer) {
            Err(e) => Err(e),
            Ok(_) => {
                if data.len() <= i32::MAX as usize {
                    Ok(data.len() as i32)
                } else {
                    Err(DeviceError::TooLong)
                }
            },
        }
    }

    /// The sound, or the alias, is live in an open device.
    pub fn is_valid(&self, window: &Window) -> (r: bool)
        ensures
            r == (use_result(window@, ResourceKind::Sound, self.key()) is Ok || use_result(
                window@,
                ResourceKind::SoundAlias,
                self.key(),
            ) is Ok),
    {
        window.require_live(ResourceKind::Sound, self.stream.buffer).is_ok()
            || window.require_live(ResourceKind::SoundAlias, self.stream.buffer).is_ok()
    }
}

/// A bone of a model skeleton: its NUL-padded name and its parent index.
#[derive(Debug, Clone, Copy)]
pub struct BoneInfo {
    pub name: [u8; 32],
    pub parent: i32,
}

/// A font: glyph data and the texture atlas they are drawn from.
#[derive(Debug, PartialEq, Eq)]
pub struct Font {
    pub base_size: i32,
    pub glyph_count: i32,
    pub glyph_padding: i32,
    /// The atlas; it belongs to the font and goes with it.
    pub texture: Texture,
    /// Address of the native glyph rectangles.
    pub recs: u64,
    /// Address of the native glyph data.
    pub glyphs: u64,
}

impl Font {
    /// The registry id of this font: its atlas texture id.
    pub open spec fn key(&self) -> u64 {
        self.texture.id as u64
    }

    /// Takes charge of a font that a native load returned, recording its
    /// atlas, glyph array and rectangle array.
    pub fn load(window: &mut Window, raw: Font) -> (r: Result<Font, DeviceError>)
        ensures
            r == loaded(font_result(old(window)@, raw.key(), raw.glyphs, raw.recs), raw),
            final(window)@ == after_font(old(window)@, raw.key(), raw.glyphs, raw.recs),
            old(window)@.well_formed() ==> final(window)@.well_formed(),
    {
        match window.register_font(raw.texture.id as u64, raw.glyphs, raw.recs) {
            Ok(_) => Ok(raw),
            Err(e) => Err(e),
        }
    }

    /// Gives the font up; `Ok(true)` means the native unload is due.
    pub fn unload(self, window: &mut Window) -> (r: Result<bool, DeviceError>)
        ensures
            r == release_result(old(window)@, ResourceKind::Font, self.key()),
            final(window)@ == after_font_unload(old(window)@, self.key(), self.glyphs, self.recs),
            old(window)@.well_formed() ==> final(window)@.well_formed(),
    {
        window.release_font(self.texture.id as u64, self.glyphs, self.recs)
    }

    /// The font is live in an open device.
    pub fn is_valid(&self, window: &Window) -> (r: bool)
        ensures
            r == (use_result(window@, ResourceKind::Font, self.key()) is Ok),
    {
        window.require_live(ResourceKind::Font, self.texture.id as u64).is_ok()
    }
}

/// The fields of a native image held in CPU memory.
#[derive(Debug, PartialEq, Eq)]
pub struct Image {
    /// Address of the pixel data; 0 after a failed load.
    pub data: u64,
    pub width: i32,
    pub height: i32,
    pub mipmaps: i32,
    /// Native pixel format code.
    pub format: i32,
}

impl Image {
    /// The registry id of this image: its data address.
    pub open spec fn key(&self) -> u64 {
        self.data
    }

    /// Takes charge of an image that a native load or generator returned.
    pub fn load(window: &mut Window, raw: Image) -> (r: Result<Image, DeviceError>)
        ensures
            r == loaded(register_result(old(window)@, handle_of(ResourceKind::Image, raw.key())), raw),
            final(window)@ == after_register(old(window)@, handle_of(ResourceKind::Image, raw.key())),
            old(window)@.well_formed() ==> final(window)@.well_formed(),
    {
        match window.register(ResourceKind::Image, raw.data) {
            Ok(_) => Ok(raw),
            Err(e) => Err(e),
        }
    }

    /// Gives the image up; `Ok(true)` means the native unload is due.
    pub fn unload(self, window: &mut Window) -> (r: Result<bool, DeviceError>)
        ensures
            r == release_result(old(window)@, ResourceKind::Image, self.key()),
            final(window)@ == after_unload(old(window)@, ResourceKind::Image, self.key()),
            old(window)@.well_formed() ==> final(window)@.well_formed(),
    {
        window.release(ResourceKind::Image, self.data)
    }

    /// The image is live in an open device.
    pub fn is_valid(&self, window: &Window) -> (r: bool)
        ensures
            r == (use_result(window@, ResourceKind::Image, self.key()) is Ok),
    {
        window.require_live(ResourceKind::Image, self.data).is_ok()
    }
}

/// Audio samples held in CPU memory.
#[derive(Debug, PartialEq, Eq)]
pub struct Wave {
    pub frame_count: u32,
    pub sample_rate: u32,
    pub sample_size: u32,
    pub channels: u32,
    /// Address of the sample data; 0 after a failed load.
    pub data: u64,
}

impl Wave {
    /// The registry id of this wave: its data address.
    pub open spec fn key(&self) -> u64 {
        self.data
    }

    /// Takes charge of a wave that a native load returned.
    pub fn load(window: &mut Window, raw: Wave) -> (r: Result<Wave, DeviceError>)
        ensures
            r == loaded(register_result(old(window)@, handle_of(ResourceKind::Wave, raw.key())), raw),
            final(window)@ == after_register(old(window)@, handle_of(ResourceKind::Wave, raw.key())),
            old(window)@.well_formed() ==> final(window)@.well_formed(),
    {
        match window.register(ResourceKind::Wave, raw.data) {
            Ok(_) => Ok(raw),
            Err(e) => Err(e),
        }
    }

    /// Gives the wave up; `Ok(true)` means the native unload is due.
    pub fn unload(self, window: &mut Window) -> (r: Result<bool, DeviceError>)
        ensures
            r == release_result(old(window)@, ResourceKind::Wave, self.key()),
            final(window)@ == after_unload(old(window)@, ResourceKind::Wave, self.key()),
            old(window)@.well_formed() ==> final(window)@.well_formed(),
    {
        window.release(ResourceKind::Wave, self.data)
    }

    /// The wave is live in an open device.
    pub fn is_valid(&self, window: &Window) -> (r: bool)
        ensures
            r == (use_result(window@, ResourceKind::Wave, self.key()) is Ok),
    {
        window.require_live(ResourceKind::Wave, self.data).is_ok()
    }
}

/// A music stream, decoded from its file while it plays.
#[derive(Debug, PartialEq, Eq)]
pub struct Music {
    pub stream: AudioStream,
    pub frame_count: u32,
    pub looping: bool,
    /// Native decoder type.
    pub ctx_type: i32,
    /// Address of the native decoder state.
    pub ctx_data: u64,
}

impl Music {
    /// The registry id of this stream: its audio buffer address.
    pub open spec fn key(&self) -> u64 {
        self.stream.buffer
    }

    /// Takes charge of a music stream that a native load returned.
    pub fn load(window: &mut Window, raw: Music) -> (r: Result<Music, DeviceError>)
        ensures
            r == loaded(register_result(old(window)@, handle_of(ResourceKind::Music, raw.key())), raw),
            final(window)@ == after_register(old(window)@, handle_of(ResourceKind::Music, raw.key())),
            old(window)@.well_formed() ==> final(window)@.well_formed(),
    {
        match window.register(ResourceKind::Music, raw.stream.buffer) {
            Ok(_) => Ok(raw),
            Err(e) => Err(e),
        }
    }

    /// Gives the stream up; `Ok(true)` means the native unload is due.
    pub fn unload(self, window: &mut Window) -> (r: Result<bool, DeviceError>)
        ensures
            r == release_result(old(window)@, ResourceKind::Music, self.key()),
            final(window)@ == after_unload(old(window)@, ResourceKind::Music, self.key()),
            old(window)@.well_formed() ==> final(window)@.well_formed(),
    {
        window.release(ResourceKind::Music, self.stream.buffer)
    }

    /// The stream is live in an open device.
    pub fn is_valid(&self, window: &Window) -> (r: bool)
        ensures
            r == (use_result(window@, ResourceKind::Music, self.key()) is Ok),
    {
        window.require_live(ResourceKind::Music, self.stream.buffer).is_ok()
    }

    /// Checks that the stream may be played, paused, resumed, stopped,
    /// seeked or refilled.
    pub fn control(&self, window: &Window) -> (r: Result<(), DeviceError>)
        ensures
            r == use_result(window@, ResourceKind::Music, self.key()),
    {
        window.require_live(ResourceKind::Music, self.stream.buffer)
    }
}

} // verus!
