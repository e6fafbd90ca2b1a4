//! Buffer capabilities for DMA transfers.
//!
//! A transfer needs a readable region on one side and a writable region on
//! the other, plus hooks that run before the engine is armed and after the
//! transfer is acknowledged (cache maintenance and the like on real
//! hardware). [`Source`] and [`Destination`] capture those capabilities;
//! [`Linear`] is the plain contiguous buffer that provides both.

use vstd::prelude::*;

use crate::dma::channel::TransferRegion;

verus! {

/// The fixed-size unit a DMA engine moves in one step. Identical on both
/// sides of a transfer.
pub trait Element: Copy {

}

impl Element for u8 {

}

impl Element for u16 {

}

impl Element for u32 {

}

impl Element for u64 {

}

/// A buffer a DMA engine can read from.
///
/// The preparation and completion hooks act on the underlying memory and
/// hardware (cache maintenance, barriers); they never change the handle's
/// value, and their contracts say so.
pub trait Source<E: Element>: Sized {
    /// The element count of the readable region this source yields.
    spec fn source_len(&self) -> usize;

    /// Yield the readable region for the engine.
    fn source(&self) -> (r: TransferRegion)
        ensures
            r.len == self.source_len(),
    ;

    /// Run just before the engine is armed.
    fn prepare_source(&mut self)
        ensures
            *final(self) == *old(self),
    ;

    /// Run when a completed transfer is acknowledged.
    fn complete_source(&mut self)
        ensures
            *final(self) == *old(self),
    ;
}

/// A buffer a DMA engine can write into. The mirror image of [`Source`].
pub trait Destination<E: Element>: Sized {
    /// The element count of the writable region this destination yields.
    spec fn destination_len(&self) -> usize;

    /// Yield the writable region for the engine.
    fn destination(&self) -> (r: TransferRegion)
        ensures
            r.len == self.destination_len(),
    ;

    /// Run just before the engine is armed.
    fn prepare_destination(&mut self)
        ensures
            *final(self) == *old(self),
    ;

    /// Run when a completed transfer is acknowledged.
    fn complete_destination(&mut self)
        ensures
            *final(self) == *old(self),
    ;
}

/// A contiguous buffer with an adjustable transfer length.
///
/// The first `transfer_len` elements take part in a transfer; the rest of the
/// buffer is spare capacity. A `Linear` serves as either side of a copy.
#[derive(Clone, Debug, PartialEq, Eq)]
pub struct Linear<E: Element> {
    elements: Vec<E>,
    transfer_len: usize,
}

impl<E: Element> Linear<E> {
    /// True of every `Linear` this module hands out: the transfer length
    /// never exceeds the buffer's capacity.
    pub open spec fn wf(&self) -> bool {
        self.transfer_len_spec() <= self.elements_spec().len()
    }

    /// The elements the buffer holds.
    pub closed spec fn elements_spec(&self) -> Seq<E> {
        self.elements@
    }

    /// The element count taking part in a transfer.
    pub closed spec fn transfer_len_spec(&self) -> usize {
        self.transfer_len
    }

    /// Wrap a buffer; every element takes part in transfers until
    /// [`Linear::set_transfer_len`] shortens the window.
    pub fn new(elements: Vec<E>) -> (r: Self)
        ensures
            r.wf(),
            r.elements_spec() == elements@,
            r.transfer_len_spec() == elements@.len(),
    {
        let transfer_len: usize = elements.len();
        Linear { elements, transfer_len }
    }

    /// Shorten or restore the window of elements that takes part in a
    /// transfer.
    pub fn set_transfer_len(&mut self, len: usize)
        requires
            len <= old(self).elements_spec().len(),
        ensures
            final(self).transfer_len_spec() == len,
            final(self).elements_spec() == old(self).elements_spec(),
            final(self).wf(),
    {
        self.transfer_len = len;
    }

    /// Read the buffer's elements.
    pub fn as_elements(&self) -> (r: &Vec<E>)
        ensures
            r@ == self.elements_spec(),
    {
        &self.elements
    }

    /// Overwrite one element of the buffer.
    pub fn set_element(&mut self, index: usize, value: E)
        requires
            index < old(self).elements_spec().len(),
        ensures
            final(self).elements_spec() == old(self).elements_spec().update(index as int, value),
            final(self).transfer_len_spec() == old(self).transfer_len_spec(),
            old(self).wf() ==> final(self).wf(),
    {
        self.elements.set(index, value);
    }
}

impl<E: Element> Source<E> for Linear<E> {
    open spec fn source_len(&self) -> usize {
        self.transfer_len_spec()
    }

    fn source(&self) -> TransferRegion {
        TransferRegion { len: self.transfer_len }
    }

    fn prepare_source(&mut self) {
    }

    fn complete_source(&mut self) {
    }
}

impl<E: Element> Destination<E> for Linear<E> {
    open spec fn destination_len(&self) -> usize {
        self.transfer_len_spec()
    }

    fn destination(&self) -> TransferRegion {
        TransferRegion { len: self.transfer_len }
    }

    fn prepare_destination(&mut self) {
    }

    fn complete_destination(&mut self) {
    }
}

} // verus!
