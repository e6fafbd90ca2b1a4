//! DMA-powered memory copy.
//!
//! A [`Memcpy`] wraps one [`Channel`] and drives one-shot memory-to-memory
//! transfers over it. It is a polling-based state machine: `transfer` arms
//! and starts the hardware and returns at once, the caller polls
//! `is_complete`, and `complete` or `cancel` ends the cycle and hands the
//! buffer pair back. While a transfer is outstanding the controller owns both
//! buffers, so no other code can touch memory the engine may be using.
//!
//! Every public operation is specified against a transition function on
//! [`MemcpyModel`], the controller's ghost state; the laws of the state
//! machine are proved about those transitions at the end of this module.

use vstd::prelude::*;

use core::marker::PhantomData;
use crate::dma::buffer::{Destination, Element, Source};
use crate::dma::channel::{started, Channel, ErrorStatus, TransferError};

verus! {

/// A type that can perform memory-to-memory DMA transfers.
///
/// Methods that start transfers return immediately; the caller polls for
/// completion. The memory-copy interface never enables interrupts.
///
/// `E` is the element type moved; `S` and `D` are the buffer types on the
/// two sides of the copy, for instance two [`crate::dma::Linear`] buffers.
pub struct Memcpy<E, S, D> {
    channel: Channel,
    buffers: Option<(S, D)>,
    _element: PhantomData<E>,
}

/// The controller's ghost state: the channel it owns and the buffer pair it
/// holds while a transfer is outstanding.
pub struct MemcpyModel<S, D> {
    /// The owned hardware channel.
    pub channel: Channel,
    /// The owned buffer pair, or `None` when no transfer is outstanding.
    pub buffers: Option<(S, D)>,
}

impl<E, S, D> View for Memcpy<E, S, D> {
    type V = MemcpyModel<S, D>;

    closed spec fn view(&self) -> MemcpyModel<S, D> {
        MemcpyModel { channel: self.channel, buffers: self.buffers }
    }
}

/// The smaller of two element counts: how many elements a transfer over one
/// region of each length moves.
pub open spec fn min_len(source_len: usize, destination_len: usize) -> usize {
    if source_len <= destination_len {
        source_len
    } else {
        destination_len
    }
}

/// What submitting a transfer does: the new controller state and the call's
/// result, from the old state, the two buffers, and their region lengths.
///
/// An enabled channel rejects the pair untouched. Otherwise the channel is
/// programmed with both regions, sized to the shorter one for a single
/// iteration, enabled and started; if the channel then reports an error, the
/// captured status is returned with both buffers and the error flag is
/// cleared, and otherwise the controller takes ownership of the pair.
pub open spec fn transfer_transition<S, D>(
    m: MemcpyModel<S, D>,
    source: S,
    destination: D,
    source_len: usize,
    destination_len: usize,
) -> (MemcpyModel<S, D>, Result<(), (S, D, TransferError<void::Void>)>) {
    if m.channel.enabled {
        (m, Err((source, destination, TransferError::ScheduledTransfer)))
    } else {
        let armed = started(
            Channel {
                source_len: source_len,
                destination_len: destination_len,
                minor_loop_elements: min_len(source_len, destination_len),
                transfer_iterations: 1u16,
                enabled: true,
                ..m.channel
            },
        );
        if armed.error {
            (
                MemcpyModel { channel: Channel { error: false, ..armed }, buffers: m.buffers },
                Err(
                    (
                        source,
                        destination,
                        TransferError::Setup(ErrorStatus { raw: armed.error_status }),
                    ),
                ),
            )
        } else {
            (MemcpyModel { channel: armed, buffers: Some((source, destination)) }, Ok(()))
        }
    }
}

/// What acknowledging completion does. With the completion flag set, the
/// flag is cleared, the channel is disabled, and the owned pair (if any) is
/// handed back; with the flag clear, the call cancels instead.
pub open spec fn complete_transition<S, D>(m: MemcpyModel<S, D>) -> (
    MemcpyModel<S, D>,
    Option<(S, D)>,
) {
    if m.channel.complete {
        (
            MemcpyModel {
                channel: Channel { complete: false, enabled: false, ..m.channel },
                buffers: None,
            },
            m.buffers,
        )
    } else {
        cancel_transition(m)
    }
}

/// What cancelling does: the channel is disabled, unconditionally, and
/// whatever pair was owned is handed back.
pub open spec fn cancel_transition<S, D>(m: MemcpyModel<S, D>) -> (
    MemcpyModel<S, D>,
    Option<(S, D)>,
) {
    (
        MemcpyModel { channel: Channel { enabled: false, ..m.channel }, buffers: None },
        m.buffers,
    )
}

/// Relies on `core::sync::atomic::compiler_fence`: a release fence, so that
/// buffer preparation and address programming cannot be reordered past the
/// arm-and-start sequence that follows. It changes no observable value.
#[verifier::external_body]
fn release_fence() {
    core::sync::atomic::compiler_fence(core::sync::atomic::Ordering::Release);
}

impl<E: Element, S: Source<E>, D: Destination<E>> Memcpy<E, S, D> {
    /// Create a type that can perform memory-to-memory DMA transfers.
    ///
    /// The controller polls for completion, so both interrupts are switched
    /// off, any hardware trigger is cleared, and the channel keeps its enable
    /// bit across completion.
    pub fn new(channel: Channel) -> (r: Self)
        ensures
            r@ == (MemcpyModel {
                channel: Channel {
                    interrupt_on_completion: false,
                    interrupt_on_half: false,
                    hardware_trigger: None::<u32>,
                    disable_on_completion: false,
                    ..channel
                },
                buffers: None::<(S, D)>,
            }),
    {
        let mut channel = channel;
        channel.set_interrupt_on_completion(false);
        channel.set_interrupt_on_half(false);
        channel.set_trigger_from_hardware(None);
        channel.set_disable_on_completion(false);
        Memcpy { channel, buffers: None, _element: PhantomData }
    }

    /// Take the underlying DMA channel, and destroy the `Memcpy`.
    ///
    /// Any owned buffer pair is dropped with the controller: teardown neither
    /// cancels an outstanding transfer nor hands the pair back, so a caller
    /// that still needs the buffers calls [`Memcpy::cancel`] or
    /// [`Memcpy::complete`] first.
    pub fn take(self) -> (r: Channel)
        ensures
            r == self@.channel,
    {
        self.channel
    }

    /// Transfer data from the `source` buffer to the `destination` buffer.
    ///
    /// If `transfer()` returns `Ok(())`, the transfer is in progress and the
    /// controller owns both buffers; use [`Memcpy::is_complete`] to check on
    /// the transfer status. On any error both buffers come back to the
    /// caller.
    ///
    /// The number of elements transferred is the minimum size of the two
    /// buffers.
    pub fn transfer(&mut self, source: S, destination: D) -> (r: Result<
        (),
        (S, D, TransferError<void::Void>),
    >)
        ensures
            ({
                let (post, result) = transfer_transition(
                    old(self)@,
                    source,
                    destination,
                    source.source_len(),
                    destination.destination_len(),
                );
                &&& final(self)@ == post
                &&& r == result
            }),
    {
        let mut source = source;
        let mut destination = destination;
        if self.channel.is_enabled() {
            return Err((source, destination, TransferError::ScheduledTransfer));
        }
        let src = source.source();
        let dst = destination.destination();

        self.channel.set_source_transfer(src);
        self.channel.set_destination_transfer(dst);

        source.prepare_source();
        destination.prepare_destination();

        let length = if src.len() <= dst.len() {
            src.len()
        } else {
            dst.len()
        };

        self.channel.set_minor_loop_elements(length);
        self.channel.set_transfer_iterations(1);

        release_fence();
        self.channel.set_enable(true);
        self.channel.start();
        if self.channel.is_error() {
            let es = ErrorStatus::new(self.channel.error_status());
            self.channel.clear_error();
            Err((source, destination, TransferError::Setup(es)))
        } else {
            self.buffers = Some((source, destination));
            Ok(())
        }
    }

    /// Returns `true` if the transfer is complete, or `false` if the
    /// transfer is not complete.
    ///
    /// Once `is_complete()` returns `true`, finish the transfer by calling
    /// [`Memcpy::complete`].
    pub fn is_complete(&self) -> (r: bool)
        ensures
            r == self@.channel.complete,
    {
        self.channel.is_complete()
    }

    /// Clear the completion indication for the DMA transfer and return the
    /// buffer pair, if one is owned.
    ///
    /// The completion flag must be cleared before another transfer can be
    /// acknowledged. If `complete()` is called before the transfer is
    /// complete, the transfer is cancelled instead; see [`Memcpy::cancel`].
    pub fn complete(&mut self) -> (r: Option<(S, D)>)
        ensures
            ({
                let (post, result) = complete_transition(old(self)@);
                &&& final(self)@ == post
                &&& r == result
            }),
    {
        if self.is_complete() {
            self.channel.clear_complete();
            self.channel.set_enable(false);
            match self.buffers.take() {
                Some((source, destination)) => {
                    let mut source = source;
                    let mut destination = destination;
                    source.complete_source();
                    destination.complete_destination();
                    Some((source, destination))
                },
                None => None,
            }
        } else {
            self.cancel()
        }
    }

    /// Cancel an active transfer, returning the two buffers used for the
    /// transfer.
    ///
    /// If the transfer is cancelled, the contents of the destination buffer
    /// are not defined: the engine may have written any part of it.
    /// `cancel()` does nothing if there is no outstanding transfer, and it
    /// may be used to retrieve any buffers stored in the `Memcpy`.
    pub fn cancel(&mut self) -> (r: Option<(S, D)>)
        ensures
            ({
                let (post, result) = cancel_transition(old(self)@);
                &&& final(self)@ == post
                &&& r == result
            }),
    {
        self.channel.set_enable(false);
        self.buffers.take()
    }

    /// Returns `true` if there is an active transfer.
    ///
    /// The transfer may not be active if it is complete, if it never
    /// started, or if it was preempted by another use of the same hardware
    /// channel; do not assume this tracks one-to-one with a transfer being
    /// outstanding.
    pub fn is_active(&self) -> (r: bool)
        ensures
            r == self@.channel.active,
    {
        self.channel.is_active()
    }
}

/// Submitting to a controller whose channel is idle — not enabled, no error
/// flag pending, no engine fault waiting — always succeeds: the controller
/// takes ownership of the pair, and the channel thereafter reports an active
/// or an already-complete transfer with no further calls.
pub proof fn lemma_transfer_from_idle_starts<S, D>(
    m: MemcpyModel<S, D>,
    source: S,
    destination: D,
    source_len: usize,
    destination_len: usize,
)
    requires
        !m.channel.enabled,
        !m.channel.error,
        m.channel.fault_on_start is None,
    ensures
        ({
            let (post, result) = transfer_transition(m, source, destination, source_len, destination_len);
            &&& result is Ok
            &&& post.channel.active || post.channel.complete
            &&& post.buffers == Some((source, destination))
        }),
{
}

/// Submitting while a previous transfer is still outstanding (the channel is
/// enabled) fails with the admission-conflict error, hands back exactly the
/// buffer values passed in, and changes nothing.
pub proof fn lemma_transfer_while_outstanding_rejected<S, D>(
    m: MemcpyModel<S, D>,
    source: S,
    destination: D,
    source_len: usize,
    destination_len: usize,
)
    requires
        m.channel.enabled,
    ensures
        ({
            let (post, result) = transfer_transition(m, source, destination, source_len, destination_len);
            &&& post == m
            &&& result == Err::<(), (S, D, TransferError<void::Void>)>(
                (source, destination, TransferError::ScheduledTransfer),
            )
        }),
{
}

/// Whenever a submission is admitted, the channel is programmed to move
/// exactly `min(source_len, destination_len)` elements, in a single
/// iteration.
pub proof fn lemma_transfer_length_is_min<S, D>(
    m: MemcpyModel<S, D>,
    source: S,
    destination: D,
    source_len: usize,
    destination_len: usize,
)
    requires
        !m.channel.enabled,
    ensures
        ({
            let (post, result) = transfer_transition(m, source, destination, source_len, destination_len);
            &&& post.channel.minor_loop_elements == min_len(source_len, destination_len)
            &&& post.channel.transfer_iterations == 1
        }),
{
}

/// Acknowledging completion before the channel reports it behaves exactly
/// like cancelling: the same next state, the same returned pair.
pub proof fn lemma_complete_before_ready_is_cancel<S, D>(m: MemcpyModel<S, D>)
    requires
        !m.channel.complete,
    ensures
        complete_transition(m) == cancel_transition(m),
{
}

/// Cancelling with no outstanding transfer returns nothing, and cancelling
/// is idempotent: a second cancel changes nothing and returns nothing,
/// however many times it is repeated.
pub proof fn lemma_cancel_idempotent<S, D>(m: MemcpyModel<S, D>)
    ensures
        ({
            let (once, first) = cancel_transition(m);
            let (twice, second) = cancel_transition(once);
            &&& m.buffers is None ==> first is None
            &&& twice == once
            &&& second is None
        }),
{
}

/// After completion or cancellation the owned-buffer slot is empty and the
/// channel is disabled, so a new submission is admitted again: on an
/// otherwise healthy channel it succeeds outright.
pub proof fn lemma_complete_frees_controller<S, D>(
    m: MemcpyModel<S, D>,
    source: S,
    destination: D,
    source_len: usize,
    destination_len: usize,
)
    ensures
        ({
            let (post, _) = complete_transition(m);
            &&& post.buffers is None
            &&& !post.channel.enabled
            &&& !post.channel.error && post.channel.fault_on_start is None
                ==> transfer_transition(post, source, destination, source_len, destination_len).1 is Ok
        }),
{
}

/// A submission that trips an engine fault reports the captured status in
/// the setup-failure error, clears the hardware error flag, consumes the
/// fault, and leaves the controller owning exactly what it owned before.
pub proof fn lemma_setup_fault_reported<S, D>(
    m: MemcpyModel<S, D>,
    source: S,
    destination: D,
    source_len: usize,
    destination_len: usize,
    status: u32,
)
    requires
        !m.channel.enabled,
        m.channel.fault_on_start == Some(status),
    ensures
        ({
            let (post, result) = transfer_transition(m, source, destination, source_len, destination_len);
            &&& result == Err::<(), (S, D, TransferError<void::Void>)>(
                (source, destination, TransferError::Setup(ErrorStatus { raw: status })),
            )
            &&& post.buffers == m.buffers
            &&& !post.channel.error
            &&& post.channel.error_status == status
            &&& post.channel.fault_on_start is None
        }),
{
}

} // verus!
