//! The image that the bar is rendered into before it reaches the surface.

use vstd::prelude::*;

verus! {

/// Why no image of a given size can be asked of the renderer.
#[derive(Clone, Copy, Debug, PartialEq, Eq, Structural)]
pub enum BufferError {
    /// The width is beyond the renderer's number range.
    WidthTooLarge,
    /// The height is beyond the renderer's number range.
    HeightTooLarge,
}

impl BufferError {
    /// The text shown for the error.
    pub fn message(&self) -> (text: &'static str)
        ensures
            *self == BufferError::WidthTooLarge ==> text@ == "buffer width does not fit Cairo"@,
            *self == BufferError::HeightTooLarge ==> text@ == "buffer height does not fit Cairo"@,
    {
        match self {
            BufferError::WidthTooLarge => "buffer width does not fit Cairo",
            BufferError::HeightTooLarge => "buffer height does not fit Cairo",
        }
    }
}

/// The size of an image in the renderer's signed numbers.
#[derive(Clone, Copy, Debug, PartialEq, Eq, Structural)]
pub struct ImageSize {
    pub width: i32,
    pub height: i32,
}

/// A back buffer: the window size that it was made for and the image that goes
/// with it.
#[derive(Clone, Copy, Debug, PartialEq, Eq, Structural)]
pub struct CairoBackBuffer {
    pub width: u32,
    pub height: u32,
    pub image: ImageSize,
}

/// The back buffer for a window size, or why there is none.
pub open spec fn buffer_for(width: u32, height: u32) -> Result<CairoBackBuffer, BufferError> {
    if width > i32::MAX {
        Err(BufferError::WidthTooLarge)
    } else if height > i32::MAX {
        Err(BufferError::HeightTooLarge)
    } else {
        Ok(
            CairoBackBuffer {
                width,
                height,
                image: ImageSize { width: width as i32, height: height as i32 },
            },
        )
    }
}

impl CairoBackBuffer {
    /// The image has the size that the buffer was made for.
    pub open spec fn wf(self) -> bool {
        self.image.width == self.width && self.image.height == self.height
    }

    /// Whether the buffer serves a window of the given size.
    pub open spec fn serves(self, width: u32, height: u32) -> bool {
        self.width == width && self.height == height
    }

    /// The buffer that has to take this one's place for a window of the given
    /// size: none where this one serves.
    pub open spec fn replacement(self, width: u32, height: u32) -> Result<
        Option<CairoBackBuffer>,
        BufferError,
    > {
        if self.serves(width, height) {
            Ok(None)
        } else {
            match buffer_for(width, height) {
                Ok(buffer) => Ok(Some(buffer)),
                Err(error) => Err(error),
            }
        }
    }

    /// The back buffer for a window of the given size.
    pub fn new(width: u32, height: u32) -> (r: Result<Self, BufferError>)
        ensures
            r == buffer_for(width, height),
            r is Ok <==> width <= i32::MAX && height <= i32::MAX,
            r matches Ok(buffer) ==> buffer.wf(),
    {
        if width > i32::MAX as u32 {
            return Err(BufferError::WidthTooLarge);
        }
        if height > i32::MAX as u32 {
            return Err(BufferError::HeightTooLarge);
        }
        Ok(
            CairoBackBuffer {
                width,
                height,
                image: ImageSize { width: width as i32, height: height as i32 },
            },
        )
    }

    /// Whether the buffer can stay for a window of the given size, and otherwise
    /// the buffer whose image has to be created in its place.
    pub fn ensure_size(&self, width: u32, height: u32) -> (r: Result<
        Option<CairoBackBuffer>,
        BufferError,
    >)
        ensures
            r == self.replacement(width, height),
    {
        if self.width == width && self.height == height {
            return Ok(None);
        }
        match CairoBackBuffer::new(width, height) {
            Ok(buffer) => Ok(Some(buffer)),
            Err(error) => Err(error),
        }
    }
}

/// Ensuring a size twice creates at most one image: a replacement serves the size
/// that it was made for.
pub proof fn law_replacement_serves(buffer: CairoBackBuffer, width: u32, height: u32)
    requires
        buffer.replacement(width, height) matches Ok(Some(_)),
    ensures
        buffer.replacement(width, height)->Ok_0->0.wf(),
        buffer.replacement(width, height)->Ok_0->0.serves(width, height),
        buffer.replacement(width, height)->Ok_0->0.replacement(width, height) == Ok::<
            Option<CairoBackBuffer>,
            BufferError,
        >(None),
{
}

/// A back buffer can be had exactly where both sides are at most 2147483647, has
/// the size that was asked for, and an image of that size; otherwise the width is
/// blamed first.
pub proof fn law_buffer_has_the_size_asked_for(width: u32, height: u32)
    ensures
        buffer_for(width, height) is Ok <==> width <= 0x7fff_ffff && height <= 0x7fff_ffff,
        buffer_for(width, height) matches Ok(buffer) ==> {
            &&& buffer.width == width
            &&& buffer.height == height
            &&& buffer.image.width == width
            &&& buffer.image.height == height
        },
        buffer_for(width, height) == Err::<CairoBackBuffer, BufferError>(
            BufferError::WidthTooLarge,
        ) <==> width > 0x7fff_ffff,
        buffer_for(width, height) == Err::<CairoBackBuffer, BufferError>(
            BufferError::HeightTooLarge,
        ) <==> width <= 0x7fff_ffff && height > 0x7fff_ffff,
{
}

/// A back buffer stays exactly where both sides are as asked for; in every other
/// case the buffer that a first request for that size gets takes its place.
pub proof fn law_buffer_is_replaced_on_any_change_of_size(
    buffer: CairoBackBuffer,
    width: u32,
    height: u32,
)
    ensures
        buffer.replacement(width, height) == Ok::<Option<CairoBackBuffer>, BufferError>(None)
            <==> buffer.width == width && buffer.height == height,
        buffer.width != width || buffer.height != height ==> match buffer_for(width, height) {
            Ok(fresh) => buffer.replacement(width, height) == Ok::<
                Option<CairoBackBuffer>,
                BufferError,
            >(Some(fresh)),
            Err(error) => buffer.replacement(width, height) == Err::<
                Option<CairoBackBuffer>,
                BufferError,
            >(error),
        },
{
}

} // verus!
