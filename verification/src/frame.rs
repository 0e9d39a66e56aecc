//! Copying a rendered image into the frame of a software surface.

use vstd::arithmetic::div_mod::lemma_fundamental_div_mod;
use vstd::arithmetic::div_mod::lemma_fundamental_div_mod_converse;
use vstd::prelude::*;

use crate::geometry::PhysicalSize;

verus! {

/// Why a rendered image could not be copied into a frame.
#[derive(Clone, Copy, Debug, PartialEq, Eq, Structural)]
pub enum FrameError {
    /// The renderer reported a negative distance between rows.
    NegativeStride,
    /// The frame has fewer pixels than the window.
    Undersized,
}

impl FrameError {
    /// The text shown for the error.
    pub fn message(&self) -> (text: &'static str)
        ensures
            *self == FrameError::NegativeStride ==> text@ == "out of range integral type conversion attempted"@,
            *self == FrameError::Undersized ==> text@ == "softbuffer returned an undersized frame"@,
    {
        match self {
            FrameError::NegativeStride => "out of range integral type conversion attempted",
            FrameError::Undersized => "softbuffer returned an undersized frame",
        }
    }
}

/// The 32-bit word whose bytes in memory start at `at`, read in the byte order of
/// the machine.
pub open spec fn native_word(bytes: Seq<u8>, at: int) -> u32 {
    match vstd::endian::endianness() {
        vstd::endian::Endian::Little => (bytes[at] + 0x100 * bytes[at + 1] + 0x1_0000 * bytes[at
            + 2] + 0x100_0000 * bytes[at + 3]) as u32,
        vstd::endian::Endian::Big => (bytes[at + 3] + 0x100 * bytes[at + 2] + 0x1_0000 * bytes[at
            + 1] + 0x100_0000 * bytes[at]) as u32,
    }
}

/// Consecutive 32-bit words in the byte order of the machine.
pub open spec fn native_words(bytes: Seq<u8>) -> Seq<u32> {
    Seq::new((bytes.len() / 4) as nat, |i: int| native_word(bytes, 4 * i))
}

/// The offset in an image of the pixel that belongs at position `i` of a frame
/// of the given width, where consecutive rows of the image are `stride` bytes
/// apart.
pub open spec fn pixel_offset(i: int, width: int, stride: int) -> int {
    (i / width) * stride + (i % width) * 4
}

/// `frame` with its first `rows` rows taken from the image `data`.
pub open spec fn blit(frame: Seq<u32>, data: Seq<u8>, width: int, rows: int, stride: int) -> Seq<
    u32,
> {
    Seq::new(
        frame.len(),
        |i: int|
            if i < rows * width {
                native_word(data, pixel_offset(i, width, stride))
            } else {
                frame[i]
            },
    )
}

/// The number of bytes of an image that its pixels reach.
pub open spec fn image_extent(size: PhysicalSize, stride: int) -> int {
    (size.height - 1) * stride + 4 * size.width
}

/// Reinterprets bytes as 32-bit words.
///
/// Calls `bytemuck::pod_collect_to_vec`, which copies the memory of its argument
/// into a vector of words and so does not care how the argument is aligned.
/// Claimed of it: for a whole number of words, each word has the same bytes in
/// memory as the argument at that place.
#[verifier::external_body]
fn collect_words(bytes: &[u8]) -> (words: Vec<u32>)
    requires
        bytes@.len() % 4 == 0,
    ensures
        words@ == native_words(bytes@),
{
    bytemuck::pod_collect_to_vec::<u8, u32>(bytes)
}

/// Overwrites consecutive pixels of a frame.
fn copy_words(target: &mut [u32], at: usize, words: &Vec<u32>)
    requires
        at + words@.len() <= old(target)@.len(),
    ensures
        final(target)@ == Seq::new(
            old(target)@.len(),
            |i: int|
                if at <= i < at + words@.len() {
                    words@[i - at]
                } else {
                    old(target)@[i]
                },
        ),
{
    let ghost before = target@;
    assert(target.len() == before.len());
    let mut k: usize = 0;
    while k < words.len()
        invariant
            k <= words@.len(),
            at + words@.len() <= before.len() <= usize::MAX,
            target@ == Seq::new(
                before.len(),
                |i: int|
                    if at <= i < at + k {
                        words@[i - at]
                    } else {
                        before[i]
                    },
            ),
        decreases words@.len() - k,
    {
        target[at + k] = words[k];
        k = k + 1;
    }
}

/// The stride of an image as a number of bytes.
pub fn frame_stride(stride: i32) -> (r: Result<usize, FrameError>)
    ensures
        stride >= 0 ==> r == Ok::<usize, FrameError>(stride as usize),
        stride < 0 ==> r == Err::<usize, FrameError>(FrameError::NegativeStride),
{
    if stride < 0 {
        Err(FrameError::NegativeStride)
    } else {
        Ok(stride as usize)
    }
}

proof fn lemma_row_pixels(row: int, width: int, stride: int, i: int)
    requires
        width > 0,
        row * width <= i < (row + 1) * width,
    ensures
        pixel_offset(i, width, stride) == row * stride + (i - row * width) * 4,
{
    assert((row + 1) * width == row * width + width) by (nonlinear_arith);
    lemma_fundamental_div_mod_converse(i, width, row, i - row * width);
}

proof fn lemma_contiguous_pixels(width: int, i: int)
    requires
        width > 0,
    ensures
        pixel_offset(i, width, width * 4) == 4 * i,
{
    lemma_fundamental_div_mod(i, width);
    let q = i / width;
    assert(q * (width * 4) == 4 * (width * q)) by (nonlinear_arith);
}

/// In a copied frame, the pixel in a given row and column is the one at that row
/// and column of the image.
pub proof fn law_pixel_keeps_its_place(
    frame: Seq<u32>,
    data: Seq<u8>,
    size: PhysicalSize,
    stride: int,
    row: int,
    column: int,
)
    requires
        size.pixels() <= frame.len(),
        0 <= row < size.height,
        0 <= column < size.width,
    ensures
        0 <= row * size.width + column < size.pixels(),
        blit(frame, data, size.width as int, size.height as int, stride)[row * size.width + column]
            == native_word(data, row * stride + 4 * column),
{
    let width = size.width as int;
    let height = size.height as int;
    assert(0 <= row * width && row * width + width <= height * width) by (nonlinear_arith)
        requires
            0 <= row,
            row + 1 <= height,
            width >= 0,
    ;
    assert(width * height == height * width) by (nonlinear_arith);
    assert((row + 1) * width == row * width + width) by (nonlinear_arith);
    lemma_row_pixels(row, width, stride, row * width + column);
}

/// An image without padding between its rows is copied word for word.
pub proof fn law_unpadded_image_is_copied_whole(
    frame: Seq<u32>,
    data: Seq<u8>,
    size: PhysicalSize,
)
    requires
        !size.is_empty(),
        frame.len() >= size.pixels(),
        data.len() >= 4 * size.pixels(),
    ensures
        blit(frame, data, size.width as int, size.height as int, 4 * size.width as int).take(
            size.pixels(),
        ) == native_words(data.take(4 * size.pixels())),
{
    let width = size.width as int;
    let height = size.height as int;
    let pixels = size.pixels();
    assert(pixels == height * width && pixels >= 0) by (nonlinear_arith)
        requires
            pixels == width * height,
            width >= 0,
            height >= 0,
    ;
    let whole = blit(frame, data, width, height, 4 * width);
    let words = native_words(data.take(4 * pixels));
    assert forall|i: int| 0 <= i < pixels implies whole[i] == #[trigger] words[i] by {
        lemma_contiguous_pixels(width, i);
    }
    assert(whole.take(pixels) =~= words);
}

/// Copying leaves the length of the frame and everything behind the window's
/// pixels as it was.
pub proof fn law_pixels_behind_the_window_stay(
    frame: Seq<u32>,
    data: Seq<u8>,
    size: PhysicalSize,
    stride: int,
)
    requires
        size.pixels() <= frame.len(),
    ensures
        blit(frame, data, size.width as int, size.height as int, stride).len() == frame.len(),
        blit(frame, data, size.width as int, size.height as int, stride).skip(size.pixels())
            == frame.skip(size.pixels()),
{
    let width = size.width as int;
    let height = size.height as int;
    assert(width * height == height * width && 0 <= width * height) by (nonlinear_arith)
        requires
            width >= 0,
            height >= 0,
    ;
    assert(blit(frame, data, width, height, stride).skip(size.pixels()) =~= frame.skip(
        size.pixels(),
    ));
}

/// Whether a frame can be handed to [`copy_frame`]: the window has a size, its
/// pixels can be counted, and the image reaches the last of them unless the frame
/// is too small anyway.
pub fn can_copy(data_len: usize, target_len: usize, size: PhysicalSize, stride: usize) -> (can: bool)
    ensures
        can == (!size.is_empty() && size.pixels() <= usize::MAX && (target_len >= size.pixels()
            ==> data_len >= image_extent(size, stride as int))),
{
    if size.is_empty() {
        return false;
    }
    let width: usize = size.width as usize;
    let height: usize = size.height as usize;
    let pixels: usize = match width.checked_mul(height) {
        Some(pixels) => pixels,
        None => {
            return false;
        },
    };
    if target_len < pixels {
        return true;
    }
    assert(0 <= (height - 1) * stride) by (nonlinear_arith)
        requires
            height >= 1,
            stride >= 0,
    ;
    match ((height - 1).checked_mul(stride), width.checked_mul(4)) {
        (Some(rows), Some(row)) => match rows.checked_add(row) {
            Some(extent) => extent <= data_len,
            None => false,
        },
        _ => false,
    }
}

/// Copies a rendered image into the frame of a surface, row by row; pixels of
/// the frame behind those of the window are left alone.
pub fn copy_frame(target: &mut [u32], data: &[u8], size: PhysicalSize, stride: usize) -> (r: Result<
    (),
    FrameError,
>)
    requires
        !size.is_empty(),
        size.pixels() <= usize::MAX,
        old(target)@.len() >= size.pixels() ==> data@.len() >= image_extent(size, stride as int),
    ensures
        r == (if old(target)@.len() < size.pixels() {
            Err::<(), FrameError>(FrameError::Undersized)
        } else {
            Ok::<(), FrameError>(())
        }),
        r is Err ==> final(target)@ == old(target)@,
        r is Ok ==> final(target)@ == blit(
            old(target)@,
            data@,
            size.width as int,
            size.height as int,
            stride as int,
        ),
{
    let width: usize = size.width as usize;
    let height: usize = size.height as usize;
    let ghost before = target@;
    let pixels: usize = width * height;
    if target.len() < pixels {
        return Err(FrameError::Undersized);
    }
    assert(0 <= (height - 1) * stride) by (nonlinear_arith)
        requires
            height >= 1,
            stride >= 0,
    ;
    assert(data.len() == data@.len());
    let row_bytes: usize = width * 4;
    if stride == row_bytes {
        assert((height - 1) * stride + stride == height * stride) by (nonlinear_arith);
        assert(height * stride == 4 * pixels) by (nonlinear_arith)
            requires
                stride == width * 4,
                pixels == width * height,
        ;
        let words = collect_words(&data[0..height * stride]);
        copy_words(target, 0, &words);
        proof {
            assert(words@.len() == pixels);
            assert(height * width == pixels) by (nonlinear_arith)
                requires
                    pixels == width * height,
            ;
            let whole = blit(before, data@, width as int, height as int, stride as int);
            assert forall|i: int| 0 <= i < before.len() implies target@[i] == #[trigger] whole[i] by {
                lemma_contiguous_pixels(width as int, i);
            }
            assert(target@ =~= whole);
        }
    } else {
        let mut row: usize = 0;
        assert(target@ =~= blit(before, data@, width as int, 0, stride as int));
        while row < height
            invariant
                row <= height,
                width > 0,
                width == size.width,
                height == size.height,
                row_bytes == width * 4,
                width * height <= before.len(),
                before.len() <= usize::MAX,
                image_extent(size, stride as int) <= data@.len() <= usize::MAX,
                target@ == blit(before, data@, width as int, row as int, stride as int),
            decreases height - row,
        {
            assert(row * stride <= (height - 1) * stride) by (nonlinear_arith)
                requires
                    row <= height - 1,
                    stride >= 0,
            ;
            assert(0 <= row * stride) by (nonlinear_arith)
                requires
                    row >= 0,
                    stride >= 0,
            ;
            assert(row * width + width <= width * height) by (nonlinear_arith)
                requires
                    row + 1 <= height,
                    width >= 0,
            ;
            assert(0 <= row * width) by (nonlinear_arith)
                requires
                    row >= 0,
                    width >= 0,
            ;
            let start: usize = row * stride;
            let words = collect_words(&data[start..start + row_bytes]);
            let ghost previous = target@;
            copy_words(target, row * width, &words);
            proof {
                assert((row + 1) * width == row * width + width) by (nonlinear_arith);
                let next = blit(before, data@, width as int, row + 1, stride as int);
                assert forall|i: int| 0 <= i < before.len() implies target@[i] == #[trigger] next[i] by {
                    if row * width <= i < (row + 1) * width {
                        lemma_row_pixels(row as int, width as int, stride as int, i);
                    }
                }
                assert(target@ =~= next);
            }
            row = row + 1;
        }
    }
    Ok(())
}

proof fn lemma_digits(b0: u8, b1: u8, b2: u8, b3: u8)
    ensures
        ({
            let word = b0 + 0x100 * b1 + 0x1_0000 * b2 + 0x100_0000 * b3;
            &&& 0 <= word <= u32::MAX
            &&& word % 0x100 == b0
            &&& (word / 0x100) % 0x100 == b1
            &&& (word / 0x1_0000) % 0x100 == b2
            &&& word / 0x100_0000 == b3
        }),
{
}

/// A word has, in the machine's order, exactly the four bytes that it was read
/// from.
pub proof fn law_word_keeps_its_bytes(bytes: Seq<u8>, at: int)
    ensures
        ({
            let word = native_word(bytes, at) as int;
            match vstd::endian::endianness() {
                vstd::endian::Endian::Little => {
                    &&& word % 0x100 == bytes[at]
                    &&& (word / 0x100) % 0x100 == bytes[at + 1]
                    &&& (word / 0x1_0000) % 0x100 == bytes[at + 2]
                    &&& word / 0x100_0000 == bytes[at + 3]
                },
                vstd::endian::Endian::Big => {
                    &&& word / 0x100_0000 == bytes[at]
                    &&& (word / 0x1_0000) % 0x100 == bytes[at + 1]
                    &&& (word / 0x100) % 0x100 == bytes[at + 2]
                    &&& word % 0x100 == bytes[at + 3]
                },
            }
        }),
{
    match vstd::endian::endianness() {
        vstd::endian::Endian::Little => lemma_digits(
            bytes[at],
            bytes[at + 1],
            bytes[at + 2],
            bytes[at + 3],
        ),
        vstd::endian::Endian::Big => lemma_digits(
            bytes[at + 3],
            bytes[at + 2],
            bytes[at + 1],
            bytes[at],
        ),
    }
}

/// Words are read from consecutive places four bytes apart.
pub proof fn law_words_are_consecutive(bytes: Seq<u8>, i: int)
    requires
        0 <= 4 * i,
        4 * i + 4 <= bytes.len(),
    ensures
        4 * native_words(bytes).len() <= bytes.len() < 4 * native_words(bytes).len() + 4,
        native_words(bytes)[i] == native_word(bytes, 4 * i),
{
}

/// The extent of an image is where the last byte of its last pixel ends: no pixel
/// reaches beyond it, and the last one reaches it.
pub proof fn law_extent_ends_with_the_last_pixel(
    size: PhysicalSize,
    stride: int,
    row: int,
    column: int,
)
    requires
        stride >= 0,
        0 <= row < size.height,
        0 <= column < size.width,
    ensures
        row * stride + 4 * column + 4 <= image_extent(size, stride),
        row == size.height - 1 && column == size.width - 1 ==> row * stride + 4 * column + 4
            == image_extent(size, stride),
{
    assert(row * stride <= (size.height - 1) * stride) by (nonlinear_arith)
        requires
            row <= size.height - 1,
            stride >= 0,
    ;
}

/// A window has nothing to draw on exactly when one of its sides is zero, and as
/// many pixels as rows times columns.
pub proof fn law_pixels_are_rows_times_columns(size: PhysicalSize)
    ensures
        size.is_empty() <==> size.width == 0 || size.height == 0,
        size.pixels() == size.width * size.height,
        size.is_empty() <==> size.pixels() == 0,
{
    let (width, height) = (size.width as int, size.height as int);
    assert(width * height == 0 <==> width == 0 || height == 0) by (nonlinear_arith);
}

/// Any call of [`frame_stride`] gives a stride back as it is, unless it is negative.
pub proof fn law_stride_is_kept_unless_negative(stride: i32, r: Result<usize, FrameError>)
    requires
        call_ensures(frame_stride, (stride,), r),
    ensures
        r is Ok <==> stride >= 0,
        r matches Ok(bytes) ==> bytes == stride,
        r matches Err(error) ==> error == FrameError::NegativeStride,
{
}

/// After any call of [`copy_frame`] on a frame with room for the window, each pixel
/// of the window shows the one in the same row and column of the image, and each
/// pixel behind the window is what it was.
pub proof fn law_copied_frame_shows_the_image(
    target: &mut [u32],
    data: &[u8],
    size: PhysicalSize,
    stride: usize,
    r: Result<(), FrameError>,
    row: int,
    column: int,
    behind: int,
)
    requires
        call_ensures(copy_frame, (target, data, size, stride), r),
        0 <= row < size.height,
        0 <= column < size.width,
        size.width * size.height <= old(target)@.len(),
    ensures
        r is Ok,
        final(target)@.len() == old(target)@.len(),
        final(target)@[row * size.width + column] == native_word(
            data@,
            row * stride + 4 * column,
        ),
        size.width * size.height <= behind < old(target)@.len() ==> final(target)@[behind] == old(
            target,
        )@[behind],
{
    let (width, height) = (size.width as int, size.height as int);
    assert(width * height == height * width) by (nonlinear_arith);
    law_pixel_keeps_its_place(old(target)@, data@, size, stride as int, row, column);
}

/// Any call of [`copy_frame`] fails exactly on a frame with fewer pixels than the
/// window, and then leaves it alone.
pub proof fn law_only_undersized_frames_are_refused(
    target: &mut [u32],
    data: &[u8],
    size: PhysicalSize,
    stride: usize,
    r: Result<(), FrameError>,
)
    requires
        call_ensures(copy_frame, (target, data, size, stride), r),
    ensures
        r is Err <==> old(target)@.len() < size.width * size.height,
        r matches Err(error) ==> error == FrameError::Undersized && final(target)@ == old(target)@,
{
}

/// A frame that [`can_copy`] admits may be handed to [`copy_frame`], and it admits
/// every frame for which each pixel of a window with a size lies within the image.
pub proof fn law_admitted_frames_can_be_copied(
    target: &mut [u32],
    data: &[u8],
    size: PhysicalSize,
    stride: usize,
    can: bool,
)
    requires
        call_ensures(can_copy, (data.len(), old(target).len(), size, stride), can),
    ensures
        can ==> call_requires(copy_frame, (target, data, size, stride)),
        can <==> {
            &&& size.width > 0
            &&& size.height > 0
            &&& size.width * size.height <= usize::MAX
            &&& old(target)@.len() >= size.width * size.height ==> (size.height - 1) * stride + 4
                * size.width <= data@.len()
        },
{
}

} // verus!
