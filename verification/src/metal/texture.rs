//! A pixel buffer that is a Metal texture at the same time.

use crate::error::AppleError;
use crate::metal::pool::{require_made, POOL_ALLOCATION_THRESHOLD};
use vstd::prelude::*;

verus! {

/// How the pixels of a texture are stored. Both hold blue, green, red and alpha, eight bits
/// each; they differ in the color space.
#[derive(Clone, Copy, Debug, PartialEq, Eq, Structural)]
pub enum PixelFormat {
    Bgra8Unorm,
    Bgra8UnormSrgb,
}

impl PixelFormat {
    pub open spec fn spec_for(srgb: bool) -> PixelFormat {
        if srgb {
            PixelFormat::Bgra8UnormSrgb
        } else {
            PixelFormat::Bgra8Unorm
        }
    }

    /// The format for a texture whose colors are, or are not, in sRGB.
    pub fn for_srgb(srgb: bool) -> (format: Self)
        ensures
            format == Self::spec_for(srgb),
    {
        if srgb {
            PixelFormat::Bgra8UnormSrgb
        } else {
            PixelFormat::Bgra8Unorm
        }
    }
}

/// A texture, and the pixel buffer that it is a view of.
#[derive(Debug)]
pub struct SharedTexture<T, B> {
    texture: T,
    pixel_buffer: B,
}

impl<T, B> SharedTexture<T, B> {
    pub closed spec fn texture(&self) -> T {
        self.texture
    }

    pub closed spec fn buffer(&self) -> B {
        self.pixel_buffer
    }

    /// Takes a pixel buffer from the pool by `create_buffer`, which is told how many buffers
    /// there may be, and views it as a texture by `create_texture`, which is told the format,
    /// the width, the height and the plane.
    pub fn new<
        F: FnOnce(i32) -> Result<Option<B>, AppleError>,
        G: FnOnce(&B, PixelFormat, usize, usize, usize) -> Result<Option<T>, AppleError>,
    >(width: usize, height: usize, srgb: bool, create_buffer: F, create_texture: G) -> (result:
        Result<Self, AppleError>)
        requires
            call_requires(create_buffer, (POOL_ALLOCATION_THRESHOLD,)),
            forall|buffer: &B|
                call_requires(
                    create_texture,
                    (buffer, PixelFormat::spec_for(srgb), width, height, 0usize),
                ),
        ensures
            exists|made: Result<Option<B>, AppleError>| #[trigger]
                call_ensures(create_buffer, (POOL_ALLOCATION_THRESHOLD,), made) && match made {
                    Err(reason) => result matches Err(e) && e == reason,
                    Ok(None) => result matches Err(e) && e == AppleError::PixelBufferNull,
                    Ok(Some(buffer)) => exists|viewed: Result<Option<T>, AppleError>| #[trigger]
                        call_ensures(
                            create_texture,
                            (&buffer, PixelFormat::spec_for(srgb), width, height, 0usize),
                            viewed,
                        ) && match viewed {
                            Err(reason) => result matches Err(e) && e == reason,
                            Ok(None) => result matches Err(e) && e
                                == AppleError::MetalTextureGetFailed,
                            Ok(Some(texture)) => result matches Ok(shared) && shared.texture()
                                == texture && shared.buffer() == buffer,
                        },
                },
    {
        let made = create_buffer(POOL_ALLOCATION_THRESHOLD);
        match require_made(made, AppleError::PixelBufferNull) {
            Err(e) => Err(e),
            Ok(buffer) => {
                let viewed = create_texture(
                    &buffer,
                    PixelFormat::for_srgb(srgb),
                    width,
                    height,
                    0usize,
                );
                match require_made(viewed, AppleError::MetalTextureGetFailed) {
                    Err(e) => Err(e),
                    Ok(texture) => Ok(SharedTexture { texture, pixel_buffer: buffer }),
                }
            },
        }
    }

    pub fn metal_texture(&self) -> (texture: &T)
        ensures
            *texture == self.texture(),
    {
        &self.texture
    }

    pub fn pixel_buffer(&self) -> (buffer: &B)
        ensures
            *buffer == self.buffer(),
    {
        &self.pixel_buffer
    }
}

/// A texture is a view of a buffer from the pool, made with the given width and height, each in
/// its place, in the format for its color space; both can be had back. Where either is not made,
/// the error says which, or is the one that making it gave.
pub proof fn law_texture_views_a_buffer_of_the_pool<T, B, F, G>(
    width: usize,
    height: usize,
    srgb: bool,
    format: PixelFormat,
    create_buffer: F,
    create_texture: G,
    result: Result<SharedTexture<T, B>, AppleError>,
    texture: &T,
    buffer: &B,
) where
    F: FnOnce(i32) -> Result<Option<B>, AppleError>,
    G: FnOnce(&B, PixelFormat, usize, usize, usize) -> Result<Option<T>, AppleError>,

    requires
        format is Bgra8UnormSrgb <==> srgb,
        call_ensures(
            SharedTexture::<T, B>::new::<F, G>,
            (width, height, srgb, create_buffer, create_texture),
            result,
        ),
        result matches Ok(shared) ==> call_ensures(
            SharedTexture::<T, B>::metal_texture,
            (&shared,),
            texture,
        ) && call_ensures(SharedTexture::<T, B>::pixel_buffer, (&shared,), buffer),
    ensures
        call_requires(create_buffer, (4i32,)) && (forall|taken: &B|
            call_requires(create_texture, (taken, format, width, height, 0usize)))
            ==> call_requires(
            SharedTexture::<T, B>::new::<F, G>,
            (width, height, srgb, create_buffer, create_texture),
        ),
        exists|made: Result<Option<B>, AppleError>| #[trigger]
            call_ensures(create_buffer, (4i32,), made) && match made {
                Err(reason) => result matches Err(e) && e == reason,
                Ok(None) => result matches Err(e) && e is PixelBufferNull,
                Ok(Some(taken)) => exists|viewed: Result<Option<T>, AppleError>| #[trigger]
                    call_ensures(
                        create_texture,
                        (&taken, format, width, height, 0usize),
                        viewed,
                    ) && match viewed {
                        Err(reason) => result matches Err(e) && e == reason,
                        Ok(None) => result matches Err(e) && e is MetalTextureGetFailed,
                        Ok(Some(view)) => result is Ok && *texture == view && *buffer == taken,
                    },
            },
{
}

/// The format tells whether the colors are in sRGB.
pub proof fn law_format_tells_the_color_space(srgb: bool, format: PixelFormat)
    requires
        call_ensures(PixelFormat::for_srgb, (srgb,), format),
    ensures
        srgb <==> format is Bgra8UnormSrgb,
{
}

} // verus!
