//! The double-buffered frame: 160x144 pixels of two bits, sixteen to a
//! word, leftmost pixel in the lowest bits. The two buffers live in a
//! `double_buffer::DoubleBuffer`; this module states what its operations do
//! to the buffer that is shown and to the buffer that is drawn into.

use vstd::prelude::*;
use double_buffer::DoubleBuffer;

verus! {

/// Words in one frame: 160 * 144 pixels of two bits in words of 32.
pub const DISPLAY_BUFFER_SIZE: usize = 1440;

/// One frame.
pub type DisplayBuffer = [u32; DISPLAY_BUFFER_SIZE];

#[verifier::external_type_specification]
#[verifier::external_body]
#[verifier::reject_recursive_types(T)]
pub struct ExDoubleBuffer<T>(DoubleBuffer<T>);

/// The words of the buffer that readers see (the crate's "current" value).
pub uninterp spec fn shown_words(display: DoubleBuffer<DisplayBuffer>) -> Seq<u32>;

/// The words of the buffer that writers fill (the crate's "next" value).
pub uninterp spec fn drawn_words(display: DoubleBuffer<DisplayBuffer>) -> Seq<u32>;

/// `DoubleBuffer::new`: a pair whose current value is `shown` and whose
/// next value is `drawn`.
#[verifier::external_body]
pub(crate) fn new_display(shown: DisplayBuffer, drawn: DisplayBuffer) -> (display: DoubleBuffer<
    DisplayBuffer,
>)
    ensures
        shown_words(display) == shown@,
        drawn_words(display) == drawn@,
{
    DoubleBuffer::new(shown, drawn)
}

/// `DoubleBuffer::swap`: the two values change roles and keep their
/// contents.
#[verifier::external_body]
pub(crate) fn swap_display(display: &mut DoubleBuffer<DisplayBuffer>)
    ensures
        shown_words(*final(display)) == drawn_words(*old(display)),
        drawn_words(*final(display)) == shown_words(*old(display)),
{
    display.swap();
}

/// `Deref::deref` of the pair: a reference to the current value.
#[verifier::external_body]
pub(crate) fn shown_buffer(display: &DoubleBuffer<DisplayBuffer>) -> (buffer: &DisplayBuffer)
    ensures
        buffer@ == shown_words(*display),
{
    core::ops::Deref::deref(display)
}

/// `DerefMut::deref_mut` of the pair, read through: one word of the next
/// value. Nothing changes.
#[verifier::external_body]
pub(crate) fn drawn_word(display: &mut DoubleBuffer<DisplayBuffer>, index: usize) -> (word: u32)
    requires
        index < DISPLAY_BUFFER_SIZE,
    ensures
        drawn_words(*old(display)).len() == DISPLAY_BUFFER_SIZE,
        word == drawn_words(*old(display))[index as int],
        drawn_words(*final(display)) == drawn_words(*old(display)),
        shown_words(*final(display)) == shown_words(*old(display)),
{
    core::ops::DerefMut::deref_mut(display)[index]
}

/// `DerefMut::deref_mut` of the pair, written through: one word of the
/// next value is replaced, the current value stays.
#[verifier::external_body]
pub(crate) fn set_drawn_word(display: &mut DoubleBuffer<DisplayBuffer>, index: usize, word: u32)
    requires
        index < DISPLAY_BUFFER_SIZE,
    ensures
        drawn_words(*old(display)).len() == DISPLAY_BUFFER_SIZE,
        drawn_words(*final(display)) == drawn_words(*old(display)).update(index as int, word),
        shown_words(*final(display)) == shown_words(*old(display)),
{
    core::ops::DerefMut::deref_mut(display)[index] = word;
}

} // verus!
