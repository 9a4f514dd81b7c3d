use vstd::prelude::*;

use crate::error::Error;
use crate::layout::LANES;

verus! {

/// Marker for the transmit direction.
#[derive(Debug, Clone, Copy)]
pub struct Tx;

/// Marker for the receive direction.
#[derive(Debug, Clone, Copy)]
pub struct Rx;

/// One lane's in-phase and quadrature samples for one buffer transfer.
#[derive(Debug, PartialEq, Eq, PartialOrd, Ord)]
pub struct Signal {
    pub i_channel: Vec<i16>,
    pub q_channel: Vec<i16>,
}

/// Lifecycle of a transceiver's sample buffer.
#[derive(Debug, Clone, Copy, PartialEq, Eq, Structural)]
pub enum BufferState {
    /// No buffer: every streaming call is refused.
    NoBuffer,
    /// A buffer is allocated and fully usable.
    BufferReady,
}

impl BufferState {
    /// The state after an attempt to create a buffer, by whether it succeeded.
    pub open spec fn after_create(self, created: bool) -> BufferState {
        if created {
            BufferState::BufferReady
        } else {
            self
        }
    }

    /// The state after the buffer is destroyed.
    pub open spec fn after_destroy(self) -> BufferState {
        BufferState::NoBuffer
    }

    /// Whether streaming calls may reach the hardware in this state.
    pub open spec fn admits_streaming(self) -> bool {
        self is BufferReady
    }
}

/// One direction of the chip: two lanes of type `L`, the lanes' enable
/// state as last commanded, and at most one sample buffer of type `B`.
///
/// The buffer is reachable only through the streaming gates below, which
/// refuse every call while no buffer exists. Mutation goes through `&mut`, so
/// one caller drives a transceiver at a time; sharing one across threads needs
/// a lock supplied by the caller.
#[derive(Debug)]
pub struct Transceiver<T, L, B> {
    direction: T,
    lanes: [L; 2],
    enabled: [bool; 2],
    buffer: Option<B>,
}

impl<T, L, B> Transceiver<T, L, B> {
    /// The lanes, addressed 0 and 1.
    pub closed spec fn lanes_spec(&self) -> Seq<L> {
        self.lanes@
    }

    /// The enable state of each lane, as last commanded.
    pub closed spec fn enabled_spec(&self) -> Seq<bool> {
        self.enabled@
    }

    /// The buffer, if one exists.
    pub closed spec fn buffer_spec(&self) -> Option<B> {
        self.buffer
    }

    /// The buffer lifecycle state.
    pub open spec fn state(&self) -> BufferState {
        if self.buffer_spec() is Some {
            BufferState::BufferReady
        } else {
            BufferState::NoBuffer
        }
    }
}

impl<T, L, B> Transceiver<T, L, B> {
    /// A transceiver over two lanes, with no buffer and both lanes disabled.
    pub fn new(direction: T, lanes: [L; 2]) -> (r: Self)
        ensures
            r.lanes_spec() == lanes@,
            r.enabled_spec() == seq![false, false],
            r.buffer_spec() is None,
    {
        let r = Transceiver { direction, lanes, enabled: [false, false], buffer: None };
        assert(r.enabled@ =~= seq![false, false]);
        r
    }

    /// Lane `chan_id`. There are two lanes; any other index is a caller error.
    pub fn lane(&self, chan_id: usize) -> (r: &L)
        requires
            chan_id < LANES,
        ensures
            *r == self.lanes_spec()[chan_id as int],
    {
        &self.lanes[chan_id]
    }

    /// Whether lane `chan_id` was last commanded on.
    pub fn is_enabled(&self, chan_id: usize) -> (r: bool)
        requires
            chan_id < LANES,
        ensures
            r == self.enabled_spec()[chan_id as int],
    {
        self.enabled[chan_id]
    }

    /// Records that lane `chan_id` is commanded on; idempotent.
    pub fn enable(&mut self, chan_id: usize)
        requires
            chan_id < LANES,
        ensures
            final(self).enabled_spec() == old(self).enabled_spec().update(chan_id as int, true),
            final(self).lanes_spec() == old(self).lanes_spec(),
            final(self).buffer_spec() == old(self).buffer_spec(),
    {
        self.enabled[chan_id] = true;
    }

    /// Records that lane `chan_id` is commanded off; idempotent.
    pub fn disable(&mut self, chan_id: usize)
        requires
            chan_id < LANES,
        ensures
            final(self).enabled_spec() == old(self).enabled_spec().update(chan_id as int, false),
            final(self).lanes_spec() == old(self).lanes_spec(),
            final(self).buffer_spec() == old(self).buffer_spec(),
    {
        self.enabled[chan_id] = false;
    }

    /// Whether a buffer exists.
    pub fn has_buffer(&self) -> (r: bool)
        ensures
            r == self.state().admits_streaming(),
    {
        self.buffer.is_some()
    }

    /// Takes the outcome of allocating a buffer: a new buffer is installed
    /// (an earlier one is released); a failed allocation changes nothing and
    /// its error is returned unchanged.
    pub fn create_buffer(&mut self, allocated: Result<B, Error>) -> (r: Result<(), Error>)
        ensures
            match allocated {
                Ok(b) => r is Ok && final(self).buffer_spec() == Some(b),
                Err(e) => r == Err::<(), Error>(e) && final(self).buffer_spec()
                    == old(self).buffer_spec(),
            },
            final(self).state() == old(self).state().after_create(r is Ok),
            final(self).lanes_spec() == old(self).lanes_spec(),
            final(self).enabled_spec() == old(self).enabled_spec(),
    {
        match allocated {
            Ok(b) => {
                self.buffer = Some(b);
                Ok(())
            },
            Err(e) => Err(e),
        }
    }

    /// Releases the buffer, if any.
    pub fn destroy_buffer(&mut self)
        ensures
            final(self).buffer_spec() is None,
            final(self).state() == old(self).state().after_destroy(),
            final(self).lanes_spec() == old(self).lanes_spec(),
            final(self).enabled_spec() == old(self).enabled_spec(),
    {
        self.buffer = None;
    }

    /// Teardown: releases the buffer first, then records both lanes off,
    /// whatever the buffer state was. The caller disables both lanes' hardware.
    pub fn teardown(&mut self)
        ensures
            final(self).buffer_spec() is None,
            final(self).enabled_spec() == seq![false, false],
            final(self).lanes_spec() == old(self).lanes_spec(),
    {
        self.destroy_buffer();
        self.disable(0);
        self.disable(1);
        assert(self.enabled_spec() =~= seq![false, false]);
    }
}

impl<L, B> Transceiver<Rx, L, B> {
    /// The buffer to refill from hardware; refused while no buffer exists.
    pub fn refill_target(&mut self) -> (r: Result<&mut B, Error>)
        ensures
            old(self).buffer_spec() is None ==> (r matches Err(Error::NoRxBuff) && *final(self) == *old(self)),
            old(self).buffer_spec() is Some ==> (r matches Ok(rb) && Some(*rb) == old(self).buffer_spec()
                && final(self).buffer_spec() == Some(*final(rb))
                && final(self).lanes_spec() == old(self).lanes_spec()
                && final(self).enabled_spec() == old(self).enabled_spec()),
    {
        match &mut self.buffer {
            Some(b) => Ok(b),
            None => Err(Error::NoRxBuff),
        }
    }
}

impl<L, B> Transceiver<Rx, L, B> {
    /// The lane to decode and the buffer to decode it from; refused while no
    /// buffer exists, for either lane.
    pub fn read_source(&self, chan_id: usize) -> (r: Result<(&L, &B), Error>)
        requires
            chan_id < LANES,
        ensures
            self.buffer_spec() is None ==> r matches Err(Error::NoRxBuff),
            self.buffer_spec() matches Some(b) ==> (r matches Ok((l, rb)) && *l
                == self.lanes_spec()[chan_id as int] && *rb == b),
    {
        match &self.buffer {
            Some(b) => Ok((&self.lanes[chan_id], b)),
            None => Err(Error::NoRxBuff),
        }
    }
}

impl<L, B> Transceiver<Tx, L, B> {
    /// The buffer to push to hardware; refused while no buffer exists.
    pub fn push_target(&self) -> (r: Result<&B, Error>)
        ensures
            self.buffer_spec() is None ==> r matches Err(Error::NoTxBuff),
            self.buffer_spec() matches Some(b) ==> (r matches Ok(rb) && *rb == b),
    {
        match &self.buffer {
            Some(b) => Ok(b),
            None => Err(Error::NoTxBuff),
        }
    }

    /// The lane to encode and the buffer to stage its samples in; refused
    /// while no buffer exists, for either lane.
    pub fn write_target(&self, chan_id: usize) -> (r: Result<(&L, &B), Error>)
        requires
            chan_id < LANES,
        ensures
            self.buffer_spec() is None ==> r matches Err(Error::NoTxBuff),
            self.buffer_spec() matches Some(b) ==> (r matches Ok((l, rb)) && *l
                == self.lanes_spec()[chan_id as int] && *rb == b),
    {
        match &self.buffer {
            Some(b) => Ok((&self.lanes[chan_id], b)),
            None => Err(Error::NoTxBuff),
        }
    }
}

/// Creating a buffer and then destroying it returns the transceiver to the
/// no-buffer state, whether or not the creation succeeded, so streaming calls
/// are refused again afterwards.
pub proof fn lemma_destroy_refuses_streaming(s: BufferState, created: bool)
    ensures
        s.after_create(created).after_destroy() == BufferState::NoBuffer,
        !s.after_create(created).after_destroy().admits_streaming(),
{
}

} // verus!
