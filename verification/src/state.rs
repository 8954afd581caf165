use vstd::prelude::*;
use crate::dispatch::Dispatch;
use crate::sequencer::{after_send, ChannelSequencer, NUM_CHANNELS};

verus! {

/// What the driver remembers about the hub between frames.
pub struct DeviceState {
    reset_complete: bool,
    product_id_verified: bool,
    sequencer: ChannelSequencer,
}

/// The mathematical content of a `DeviceState`.
pub struct DeviceStateView {
    /// The hub has announced that a reset has completed.
    pub reset_complete: bool,
    /// The hub has answered a product id request.
    pub product_id_verified: bool,
    /// The number of the last frame sent on each channel.
    pub per_channel_sequence: Seq<u8>,
}

impl DeviceStateView {
    /// The state before any frame has been sent or received.
    pub open spec fn initial() -> DeviceStateView {
        DeviceStateView {
            reset_complete: false,
            product_id_verified: false,
            per_channel_sequence: Seq::new(NUM_CHANNELS as nat, |i: int| 0u8),
        }
    }

    /// The state after a frame that was routed as `dispatch` has been taken in.
    pub open spec fn after(self, dispatch: Dispatch) -> DeviceStateView {
        match dispatch {
            Dispatch::ResetComplete => DeviceStateView { reset_complete: true, ..self },
            Dispatch::ProductId => DeviceStateView { product_id_verified: true, ..self },
            _ => self,
        }
    }

    /// The state after a frame has been sent on `channel`.
    pub open spec fn after_send(self, channel: u8) -> DeviceStateView {
        DeviceStateView {
            per_channel_sequence: after_send(self.per_channel_sequence, channel as int),
            ..self
        }
    }

    /// The state with the product id marked as verified.
    pub open spec fn verified(self) -> DeviceStateView {
        DeviceStateView { product_id_verified: true, ..self }
    }
}

impl View for DeviceState {
    type V = DeviceStateView;

    closed spec fn view(&self) -> DeviceStateView {
        DeviceStateView {
            reset_complete: self.reset_complete,
            product_id_verified: self.product_id_verified,
            per_channel_sequence: self.sequencer@,
        }
    }
}

impl DeviceState {
    /// The state of a freshly made driver: no flag set, every counter zero.
    pub fn new() -> (state: Self)
        ensures
            state@ == DeviceStateView::initial(),
    {
        DeviceState {
            reset_complete: false,
            product_id_verified: false,
            sequencer: ChannelSequencer::new(),
        }
    }

    /// There is one counter for each channel.
    pub proof fn lemma_channels(&self)
        ensures
            self@.per_channel_sequence.len() == NUM_CHANNELS,
    {
        self.sequencer.lemma_len();
    }

    /// Whether the hub has announced that a reset has completed.
    pub fn reset_complete(&self) -> (flag: bool)
        ensures
            flag == self@.reset_complete,
    {
        self.reset_complete
    }

    /// Whether the hub has answered a product id request.
    pub fn product_id_verified(&self) -> (flag: bool)
        ensures
            flag == self@.product_id_verified,
    {
        self.product_id_verified
    }

    /// The number of the last frame sent on `channel`.
    pub fn sequence_number(&self, channel: u8) -> (sequence: u8)
        requires
            channel < NUM_CHANNELS,
        ensures
            sequence == self@.per_channel_sequence[channel as int],
    {
        self.sequencer.current(channel)
    }

    /// Takes in a frame that was routed as `dispatch`.
    pub fn record(&mut self, dispatch: Dispatch)
        ensures
            final(self)@ == old(self)@.after(dispatch),
    {
        match dispatch {
            Dispatch::ResetComplete => {
                self.reset_complete = true;
            },
            Dispatch::ProductId => {
                self.product_id_verified = true;
            },
            _ => {},
        }
    }

    /// Marks the product id as verified.
    pub fn mark_product_id_verified(&mut self)
        ensures
            final(self)@ == old(self)@.verified(),
    {
        self.product_id_verified = true;
    }

    /// Advances the counter of `channel` for an outgoing frame and answers
    /// with the number that the frame carries.
    pub fn next_sequence(&mut self, channel: u8) -> (sequence: u8)
        requires
            channel < NUM_CHANNELS,
        ensures
            final(self)@ == old(self)@.after_send(channel),
            sequence == final(self)@.per_channel_sequence[channel as int],
    {
        proof {
            self.sequencer.lemma_len();
        }
        self.sequencer.next(channel)
    }
}

/// Taking in the same frame a second time changes nothing.
pub proof fn lemma_dispatch_idempotent(state: DeviceStateView, dispatch: Dispatch)
    ensures
        state.after(dispatch).after(dispatch) == state.after(dispatch),
{
}

/// No frame clears a flag, and no frame moves a sequence counter.
pub proof fn lemma_flags_monotonic(state: DeviceStateView, dispatch: Dispatch)
    ensures
        state.reset_complete ==> state.after(dispatch).reset_complete,
        state.product_id_verified ==> state.after(dispatch).product_id_verified,
        state.after(dispatch).per_channel_sequence == state.per_channel_sequence,
{
}

/// Sending a frame sets or clears no flag.
pub proof fn lemma_send_keeps_flags(state: DeviceStateView, channel: u8)
    ensures
        state.after_send(channel).reset_complete == state.reset_complete,
        state.after_send(channel).product_id_verified == state.product_id_verified,
{
}

} // verus!
