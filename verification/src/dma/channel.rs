//! A plain-value model of one hardware DMA channel.
//!
//! The real channel is a block of memory-mapped registers driven by an engine
//! that runs outside the CPU. This module models the register state the
//! drivers read and write as ordinary fields, so that everything built on the
//! channel can be specified and proved. Two fields stand in for the engine
//! itself, which the model cannot run: [`Channel::completes_immediately`]
//! chooses whether a started transfer finishes at once or stays in flight, and
//! [`Channel::fault_on_start`] injects the bus error a real engine could
//! report when it is started.

use vstd::prelude::*;

verus! {

/// A readable or writable memory region handed to the DMA engine, described
/// by its element count.
///
/// On real hardware a region also carries a start address; the address is raw
/// memory outside this model, so only the count the transfer logic depends on
/// is recorded.
#[derive(Clone, Copy, Debug, PartialEq, Eq)]
pub struct TransferRegion {
    /// Number of elements in the region.
    pub len: usize,
}

impl TransferRegion {
    /// The number of elements in the region.
    pub fn len(&self) -> (r: usize)
        ensures
            r == self.len,
    {
        self.len
    }
}

/// A snapshot of the channel's error-status register, captured when the
/// channel reported an error.
#[derive(Clone, Copy, Debug, PartialEq, Eq)]
pub struct ErrorStatus {
    /// The raw error-status register value.
    pub raw: u32,
}

impl ErrorStatus {
    /// Wrap a raw error-status register value.
    pub fn new(raw: u32) -> (r: Self)
        ensures
            r.raw == raw,
    {
        ErrorStatus { raw }
    }
}

/// The `void::Void` type: the peripheral error of a transfer that involves no
/// peripheral. It has no values, so a `TransferError::Peripheral` carrying it can
/// never be built.
#[verifier::external_type_specification]
#[verifier::external_body]
pub struct ExVoid(void::Void);

/// What can go wrong when a transfer is submitted.
///
/// `P` is the error type of the peripheral driving the transfer; a pure
/// memory-to-memory copy has no peripheral, so it uses the uninhabited
/// [`void::Void`] there.
#[derive(Debug)]
pub enum TransferError<P> {
    /// A transfer is already scheduled on this channel and has not been
    /// acknowledged; the new submission was rejected untouched.
    ScheduledTransfer,
    /// The hardware reported an error right after the channel was started;
    /// the captured status is attached.
    Setup(ErrorStatus),
    /// The peripheral driving the transfer failed.
    Peripheral(P),
}

/// One hardware DMA channel, as the drivers in this crate observe it.
///
/// All fields are public: they are the modelled register file, and tests set
/// them up the way a board would. A controller that owns a channel still
/// hides them for the duration of its ownership.
#[derive(Clone, Copy, Debug, PartialEq, Eq)]
pub struct Channel {
    /// Channel request enable (`ERQ`): a transfer is scheduled or running.
    pub enabled: bool,
    /// The engine is actively moving data.
    pub active: bool,
    /// The completion flag (`INT`/`DONE`): the last transfer finished.
    pub complete: bool,
    /// The error flag: the engine reported an error.
    pub error: bool,
    /// The latched error-status register.
    pub error_status: u32,
    /// Element count of the programmed source region.
    pub source_len: usize,
    /// Element count of the programmed destination region.
    pub destination_len: usize,
    /// Elements moved per minor loop.
    pub minor_loop_elements: usize,
    /// Major-loop iteration count.
    pub transfer_iterations: u16,
    /// Raise an interrupt when a transfer completes.
    pub interrupt_on_completion: bool,
    /// Raise an interrupt at the transfer's halfway point.
    pub interrupt_on_half: bool,
    /// Hardware trigger routed to this channel, if any, named by its mux
    /// source number.
    pub hardware_trigger: Option<u32>,
    /// Clear `enabled` automatically when a transfer completes.
    pub disable_on_completion: bool,
    /// Model knob for the engine's speed: when true, a started transfer
    /// finishes during `start`; when false it stays in flight until the
    /// channel is disabled.
    pub completes_immediately: bool,
    /// Model knob for fault injection: the error status the engine will
    /// report at the next `start`, consumed by that `start`.
    pub fault_on_start: Option<u32>,
}

/// The state a started channel settles into: a pending fault is latched into
/// the error registers, and otherwise an enabled engine either finishes the
/// transfer at once or goes active, as the model knob chooses.
pub open spec fn started(c: Channel) -> Channel {
    match c.fault_on_start {
        Some(status) => Channel { error: true, error_status: status, fault_on_start: None, ..c },
        None => {
            if c.enabled {
                if c.completes_immediately {
                    Channel { active: false, complete: true, ..c }
                } else {
                    Channel { active: true, ..c }
                }
            } else {
                c
            }
        },
    }
}

impl Channel {
    /// A channel as it comes out of reset: disabled, idle, no flags set, no
    /// trigger routed, and an engine that completes transfers immediately.
    pub fn new() -> (r: Self)
        ensures
            r == (Channel {
                enabled: false,
                active: false,
                complete: false,
                error: false,
                error_status: 0u32,
                source_len: 0usize,
                destination_len: 0usize,
                minor_loop_elements: 0usize,
                transfer_iterations: 0u16,
                interrupt_on_completion: false,
                interrupt_on_half: false,
                hardware_trigger: None::<u32>,
                disable_on_completion: false,
                completes_immediately: true,
                fault_on_start: None::<u32>,
            }),
    {
        Channel {
            enabled: false,
            active: false,
            complete: false,
            error: false,
            error_status: 0,
            source_len: 0,
            destination_len: 0,
            minor_loop_elements: 0,
            transfer_iterations: 0,
            interrupt_on_completion: false,
            interrupt_on_half: false,
            hardware_trigger: None,
            disable_on_completion: false,
            completes_immediately: true,
            fault_on_start: None,
        }
    }

    /// Choose whether the channel raises an interrupt on completion.
    pub fn set_interrupt_on_completion(&mut self, on: bool)
        ensures
            *final(self) == (Channel { interrupt_on_completion: on, ..*old(self) }),
    {
        self.interrupt_on_completion = on;
    }

    /// Choose whether the channel raises an interrupt halfway through a
    /// transfer.
    pub fn set_interrupt_on_half(&mut self, on: bool)
        ensures
            *final(self) == (Channel { interrupt_on_half: on, ..*old(self) }),
    {
        self.interrupt_on_half = on;
    }

    /// Route a hardware trigger to the channel, or clear the routing.
    pub fn set_trigger_from_hardware(&mut self, trigger: Option<u32>)
        ensures
            *final(self) == (Channel { hardware_trigger: trigger, ..*old(self) }),
    {
        self.hardware_trigger = trigger;
    }

    /// Choose whether the channel disables itself when a transfer completes.
    pub fn set_disable_on_completion(&mut self, on: bool)
        ensures
            *final(self) == (Channel { disable_on_completion: on, ..*old(self) }),
    {
        self.disable_on_completion = on;
    }

    /// True while a transfer is scheduled or running.
    pub fn is_enabled(&self) -> (r: bool)
        ensures
            r == self.enabled,
    {
        self.enabled
    }

    /// True while the engine is actively moving data.
    pub fn is_active(&self) -> (r: bool)
        ensures
            r == self.active,
    {
        self.active
    }

    /// True once the last transfer has finished.
    pub fn is_complete(&self) -> (r: bool)
        ensures
            r == self.complete,
    {
        self.complete
    }

    /// True if the engine has reported an error.
    pub fn is_error(&self) -> (r: bool)
        ensures
            r == self.error,
    {
        self.error
    }

    /// Program the source side of the transfer.
    pub fn set_source_transfer(&mut self, region: TransferRegion)
        ensures
            *final(self) == (Channel { source_len: region.len, ..*old(self) }),
    {
        self.source_len = region.len;
    }

    /// Program the destination side of the transfer.
    pub fn set_destination_transfer(&mut self, region: TransferRegion)
        ensures
            *final(self) == (Channel { destination_len: region.len, ..*old(self) }),
    {
        self.destination_len = region.len;
    }

    /// Program how many elements one minor loop moves.
    pub fn set_minor_loop_elements(&mut self, len: usize)
        ensures
            *final(self) == (Channel { minor_loop_elements: len, ..*old(self) }),
    {
        self.minor_loop_elements = len;
    }

    /// Program how many times the minor loop repeats.
    pub fn set_transfer_iterations(&mut self, iterations: u16)
        ensures
            *final(self) == (Channel { transfer_iterations: iterations, ..*old(self) }),
    {
        self.transfer_iterations = iterations;
    }

    /// Set or clear the channel's request enable.
    pub fn set_enable(&mut self, enable: bool)
        ensures
            *final(self) == (Channel { enabled: enable, ..*old(self) }),
    {
        self.enabled = enable;
    }

    /// Start the channel: the modelled engine reacts as [`started`] says.
    pub fn start(&mut self)
        ensures
            *final(self) == started(*old(self)),
    {
        match self.fault_on_start {
            Some(status) => {
                self.error = true;
                self.error_status = status;
                self.fault_on_start = None;
            },
            None => {
                if self.enabled {
                    if self.completes_immediately {
                        self.active = false;
                        self.complete = true;
                    } else {
                        self.active = true;
                    }
                }
            },
        }
    }

    /// Read the latched error-status register.
    pub fn error_status(&self) -> (r: u32)
        ensures
            r == self.error_status,
    {
        self.error_status
    }

    /// Acknowledge an error: clear the error flag. The latched status stays
    /// readable until the next error overwrites it.
    pub fn clear_error(&mut self)
        ensures
            *final(self) == (Channel { error: false, ..*old(self) }),
    {
        self.error = false;
    }

    /// Acknowledge completion: clear the completion flag.
    pub fn clear_complete(&mut self)
        ensures
            *final(self) == (Channel { complete: false, ..*old(self) }),
    {
        self.complete = false;
    }
}

} // verus!
