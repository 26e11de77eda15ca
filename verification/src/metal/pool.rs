//! The pool of pixel buffers that the blit draws into.

use crate::error::AppleError;
use vstd::prelude::*;

verus! {

/// How many buffers the pool keeps: one on the render thread and one with the encoder.
pub const POOL_MIN_BUFFER_COUNT: i32 = 2;

/// After how many seconds without use a buffer beyond those is released.
pub const POOL_MAX_BUFFER_AGE_SECS: u32 = 1;

/// How many buffers there may be at all. Where they are all in use the frame is dropped.
pub const POOL_ALLOCATION_THRESHOLD: i32 = 4;

/// How the pixels of a pool's buffers are stored.
#[derive(Clone, Copy, Debug, PartialEq, Eq, Structural)]
pub enum PoolPixelFormat {
    /// Blue, green, red and alpha, eight bits each.
    Bgra32,
}

/// What a pool of pixel buffers is made from.
#[derive(Clone, Copy, Debug, PartialEq, Eq, Structural)]
pub struct PixelBufferPoolConfig {
    pub width: i32,
    pub height: i32,
    pub pixel_format: PoolPixelFormat,
    pub metal_compatible: bool,
    pub min_buffer_count: i32,
    pub max_buffer_age_secs: u32,
}

/// The number whose lower 32 bits are those of `n`, from the range of `i32`.
pub open spec fn as_signed(n: u32) -> int {
    if n <= i32::MAX {
        n as int
    } else {
        n - 0x1_0000_0000
    }
}

/// The pool for pictures of `width` by `height` pixels.
pub open spec fn is_config_for(config: PixelBufferPoolConfig, width: u32, height: u32) -> bool {
    &&& config.width == as_signed(width)
    &&& config.height == as_signed(height)
    &&& config.pixel_format == PoolPixelFormat::Bgra32
    &&& config.metal_compatible
    &&& config.min_buffer_count == POOL_MIN_BUFFER_COUNT
    &&& config.max_buffer_age_secs == POOL_MAX_BUFFER_AGE_SECS
}

/// What it comes to that something was to be made: what was made, `missing` if the maker said
/// that it made it but it is not there, or the maker's error.
pub open spec fn is_made<T>(
    result: Result<T, AppleError>,
    made: Result<Option<T>, AppleError>,
    missing: AppleError,
) -> bool {
    match made {
        Ok(Some(value)) => result matches Ok(got) && got == value,
        Ok(None) => result matches Err(e) && e == missing,
        Err(reason) => result matches Err(e) && e == reason,
    }
}

/// `made`, with `missing` where nothing is there.
pub fn require_made<T>(made: Result<Option<T>, AppleError>, missing: AppleError) -> (result: Result<
    T,
    AppleError,
>)
    ensures
        is_made(result, made, missing),
{
    match made {
        Ok(Some(value)) => Ok(value),
        Ok(None) => Err(missing),
        Err(e) => Err(e),
    }
}

fn to_signed(n: u32) -> (m: i32)
    ensures
        m == as_signed(n),
{
    proof {
        assert(n <= 0x7fff_ffff ==> (n as i32) as int == n as int) by (bit_vector);
        assert(n > 0x7fff_ffff ==> (n as i32) as int == n as int - 0x1_0000_0000) by (bit_vector);
    }
    n as i32
}

/// What the pool for pictures of `width` by `height` pixels is made from.
pub fn pool_config(width: u32, height: u32) -> (config: PixelBufferPoolConfig)
    ensures
        is_config_for(config, width, height),
{
    PixelBufferPoolConfig {
        width: to_signed(width),
        height: to_signed(height),
        pixel_format: PoolPixelFormat::Bgra32,
        metal_compatible: true,
        min_buffer_count: POOL_MIN_BUFFER_COUNT,
        max_buffer_age_secs: POOL_MAX_BUFFER_AGE_SECS,
    }
}

/// A pool for pictures of `width` by `height` pixels, made by `create`.
pub fn create_pixel_buffer_pool<P, F: FnOnce(PixelBufferPoolConfig) -> Result<
    Option<P>,
    AppleError,
>>(width: u32, height: u32, create: F) -> (result: Result<P, AppleError>)
    requires
        forall|config: PixelBufferPoolConfig|
            is_config_for(config, width, height) ==> call_requires(create, (config,)),
    ensures
        exists|config: PixelBufferPoolConfig, made: Result<Option<P>, AppleError>| {
            &&& is_config_for(config, width, height)
            &&& #[trigger] call_ensures(create, (config,), made)
            &&& is_made(result, made, AppleError::PixelBufferNull)
        },
{
    let config = pool_config(width, height);
    let made = create(config);
    require_made(made, AppleError::PixelBufferNull)
}

/// The pool is for the requested width and height, each in its place, as the 32 bits that stand
/// for them; its pixels are BGRA that Metal can draw into; and the rest is the same for every
/// size. Every size is accepted.
pub proof fn law_pool_is_for_the_requested_size(
    width: u32,
    height: u32,
    config: PixelBufferPoolConfig,
)
    requires
        call_ensures(pool_config, (width, height), config),
    ensures
        call_requires(pool_config, (width, height)),
        width <= i32::MAX ==> config.width == width,
        height <= i32::MAX ==> config.height == height,
        width > i32::MAX ==> config.width == width - 0x1_0000_0000,
        height > i32::MAX ==> config.height == height - 0x1_0000_0000,
        config.pixel_format is Bgra32,
        config.metal_compatible,
        config.min_buffer_count == 2,
        config.max_buffer_age_secs == 1,
{
}

/// Pools for two sizes differ in their size as the sizes do, and in nothing else; turning the
/// size on its side turns the pool on its side.
pub proof fn law_pool_turns_with_its_size(
    width: u32,
    height: u32,
    config: PixelBufferPoolConfig,
    turned: PixelBufferPoolConfig,
)
    requires
        call_ensures(pool_config, (width, height), config),
        call_ensures(pool_config, (height, width), turned),
    ensures
        turned.width == config.height,
        turned.height == config.width,
        config.width == config.height <==> width == height,
        turned == (PixelBufferPoolConfig { width: config.height, height: config.width, ..config }),
{
}

/// What was to be made is what comes out, where it was made; where it is said to be made and is
/// not there, `missing` does; and where making it failed, the error of that.
pub proof fn law_made_or_missing_or_failed<T>(
    made: Result<Option<T>, AppleError>,
    missing: AppleError,
    result: Result<T, AppleError>,
)
    requires
        call_ensures(require_made::<T>, (made, missing), result),
    ensures
        call_requires(require_made::<T>, (made, missing)),
        match made {
            Ok(Some(value)) => result matches Ok(given) && given == value,
            Ok(None) => result matches Err(e) && e == missing,
            Err(reason) => result matches Err(e) && e == reason,
        },
{
}

/// A pool is made once, from the configuration for its size; it is what comes out, or the error
/// of making it, or the error that there is none.
pub proof fn law_pool_is_made_for_its_size<P, F>(
    width: u32,
    height: u32,
    create: F,
    result: Result<P, AppleError>,
) where F: FnOnce(PixelBufferPoolConfig) -> Result<Option<P>, AppleError>
    requires
        width <= i32::MAX,
        height <= i32::MAX,
        call_ensures(create_pixel_buffer_pool::<P, F>, (width, height, create), result),
    ensures
        (forall|config: PixelBufferPoolConfig| call_requires(create, (config,))) ==> call_requires(
            create_pixel_buffer_pool::<P, F>,
            (width, height, create),
        ),
        exists|config: PixelBufferPoolConfig, made: Result<Option<P>, AppleError>| {
            &&& #[trigger] call_ensures(create, (config,), made)
            &&& config.width == width
            &&& config.height == height
            &&& config.pixel_format is Bgra32
            &&& config.metal_compatible
            &&& config.min_buffer_count == 2
            &&& config.max_buffer_age_secs == 1
            &&& match made {
                Ok(Some(pool)) => result matches Ok(given) && given == pool,
                Ok(None) => result matches Err(e) && e is PixelBufferNull,
                Err(reason) => result matches Err(e) && e == reason,
            }
        },
{
    let (config, made) = choose|
        config: PixelBufferPoolConfig,
        made: Result<Option<P>, AppleError>,
    | {
        &&& is_config_for(config, width, height)
        &&& #[trigger] call_ensures(create, (config,), made)
        &&& is_made(result, made, AppleError::PixelBufferNull)
    };
    assert(call_ensures(create, (config,), made));
}

} // verus!
