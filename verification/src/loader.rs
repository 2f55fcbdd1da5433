//! The object-image loader.
//!
//! An image is a big-endian byte stream: two bytes of load origin, then
//! consecutive two-byte words placed at `origin, origin + 1, ...`.  Words
//! past the end of the address space are ignored — loading stops cleanly
//! there — and a lone trailing byte before the address space is full is a
//! load error.

use vstd::prelude::*;
use crate::memory::{Memory, MEMORY_SIZE};

verus! {

/// Why an object image was rejected.
#[derive(Clone, Copy, PartialEq, Eq, Structural, Debug)]
pub enum ImageError {
    /// The image ends before the two origin bytes.
    MissingOrigin,
    /// The image ends in the middle of a word.
    TruncatedWord,
}

/// The load origin carried by the first two bytes, big endian.
pub open spec fn image_origin(b: Seq<u8>) -> u16 {
    (b[0] * 256 + b[1]) as u16
}

/// The `i`-th data word of the image, big endian.
pub open spec fn image_word(b: Seq<u8>, i: int) -> u16 {
    (b[2 + 2 * i] * 256 + b[3 + 2 * i]) as u16
}

/// How many whole data words the byte stream carries.
pub open spec fn image_words(b: Seq<u8>) -> int {
    (b.len() - 2) / 2
}

/// How many words fit between the origin and the end of the address
/// space.
pub open spec fn image_capacity(b: Seq<u8>) -> int {
    MEMORY_SIZE - image_origin(b)
}

/// How many words the loader places: every word of the stream, or as
/// many as fit.
pub open spec fn image_load_count(b: Seq<u8>) -> int {
    if image_words(b) < image_capacity(b) {
        image_words(b)
    } else {
        image_capacity(b)
    }
}

/// A loadable image: it has its origin bytes, and it ends on a word
/// boundary unless it already fills the rest of the address space.
pub open spec fn image_ok(b: Seq<u8>) -> bool {
    &&& b.len() >= 2
    &&& (image_words(b) >= image_capacity(b) || (b.len() - 2) % 2 == 0)
}

/// Place an object image in memory.  On success the data words stand at
/// `origin, origin + 1, ...`, every other cell is untouched, and the
/// origin is returned; a rejected image leaves the memory unchanged.
pub fn read_image(memory: &mut Memory, image: &[u8]) -> (r: Result<u16, ImageError>)
    requires
        old(memory).wf(),
    ensures
        final(memory).wf(),
        final(memory)@.polled == old(memory)@.polled,
        image@.len() < 2 ==> r == Result::<u16, ImageError>::Err(ImageError::MissingOrigin)
            && final(memory)@ == old(memory)@,
        image@.len() >= 2 && !image_ok(image@) ==> r == Result::<u16, ImageError>::Err(
            ImageError::TruncatedWord,
        ) && final(memory)@ == old(memory)@,
        image_ok(image@) ==> {
            &&& r == Result::<u16, ImageError>::Ok(image_origin(image@))
            &&& forall|i: int|
                0 <= i < image_load_count(image@) ==> final(memory)@.cells[image_origin(image@)
                    + i] == image_word(image@, i)
            &&& forall|a: int|
                0 <= a < MEMORY_SIZE && !(image_origin(image@) <= a < image_origin(image@)
                    + image_load_count(image@)) ==> final(memory)@.cells[a] == old(
                    memory,
                )@.cells[a]
        },
{
    if image.len() < 2 {
        return Err(ImageError::MissingOrigin);
    }
    let origin: u16 = (image[0] as u16) * 256 + (image[1] as u16);
    let body_len: usize = image.len() - 2;
    let words: usize = body_len / 2;
    let capacity: usize = MEMORY_SIZE - origin as usize;
    if words < capacity && body_len % 2 == 1 {
        return Err(ImageError::TruncatedWord);
    }
    let count: usize = if words < capacity {
        words
    } else {
        capacity
    };
    let mut i: usize = 0;
    while i < count
        invariant
            memory.wf(),
            memory@.polled == old(memory)@.polled,
            origin == image_origin(image@),
            count == image_load_count(image@),
            image@.len() >= 2 + 2 * count,
            origin + count <= MEMORY_SIZE,
            i <= count,
            forall|j: int| 0 <= j < i ==> memory@.cells[origin + j] == image_word(image@, j),
            forall|a: int|
                0 <= a < MEMORY_SIZE && !(origin <= a < origin + i) ==> memory@.cells[a] == old(
                    memory,
                )@.cells[a],
        decreases count - i,
    {
        let word: u16 = (image[2 + 2 * i] as u16) * 256 + (image[3 + 2 * i] as u16);
        memory.write(origin + (i as u16), word);
        i = i + 1;
    }
    Ok(origin)
}

} // verus!
