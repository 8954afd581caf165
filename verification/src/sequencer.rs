use vstd::prelude::*;

verus! {

/// Number of channels that the hub multiplexes over one transport.
pub const NUM_CHANNELS: usize = 6;

/// One eight-bit counter per channel, counting the frames sent on it.
pub struct ChannelSequencer {
    counters: [u8; 6],
}

/// The counter that follows `value`: one more, and zero after 255.
pub open spec fn following(value: u8) -> u8 {
    ((value + 1) % 256) as u8
}

/// The counters after one frame has been sent on `channel`.
pub open spec fn after_send(counters: Seq<u8>, channel: int) -> Seq<u8> {
    counters.update(channel, following(counters[channel]))
}

/// The counters after `n` frames have been sent on `channel`.
pub open spec fn after_sends(counters: Seq<u8>, channel: int, n: nat) -> Seq<u8>
    decreases n,
{
    if n == 0 {
        counters
    } else {
        after_send(after_sends(counters, channel, (n - 1) as nat), channel)
    }
}

impl View for ChannelSequencer {
    type V = Seq<u8>;

    closed spec fn view(&self) -> Seq<u8> {
        self.counters@
    }
}

impl ChannelSequencer {
    /// A sequencer with every counter at zero.
    pub fn new() -> (s: Self)
        ensures
            s@ == Seq::new(NUM_CHANNELS as nat, |i: int| 0u8),
    {
        let s = ChannelSequencer { counters: [0; 6] };
        assert(s@ =~= Seq::new(NUM_CHANNELS as nat, |i: int| 0u8));
        s
    }

    /// There are always exactly six counters.
    pub proof fn lemma_len(&self)
        ensures
            self@.len() == NUM_CHANNELS,
    {
    }

    /// Advances the counter of `channel` and answers with its new value.
    pub fn next(&mut self, channel: u8) -> (sequence: u8)
        requires
            channel < NUM_CHANNELS,
        ensures
            final(self)@ == after_send(old(self)@, channel as int),
            sequence == following(old(self)@[channel as int]),
            sequence == final(self)@[channel as int],
    {
        let sequence: u8 = self.counters[channel as usize].wrapping_add(1);
        self.counters[channel as usize] = sequence;
        sequence
    }

    /// The number that the last frame sent on `channel` carried.
    pub fn current(&self, channel: u8) -> (sequence: u8)
        requires
            channel < NUM_CHANNELS,
        ensures
            sequence == self@[channel as int],
    {
        self.counters[channel as usize]
    }
}

/// After `n` frames on one channel its counter has advanced by `n` modulo
/// 256, whatever the other counters hold, and no other counter has moved.
pub proof fn lemma_consecutive_sends(counters: Seq<u8>, channel: int, n: nat)
    requires
        0 <= channel < counters.len(),
    ensures
        after_sends(counters, channel, n).len() == counters.len(),
        after_sends(counters, channel, n)[channel] == (counters[channel] + n) % 256,
        forall|other: int|
            0 <= other < counters.len() && other != channel ==> after_sends(counters, channel, n)[other]
                == counters[other],
    decreases n,
{
    if n > 0 {
        lemma_consecutive_sends(counters, channel, (n - 1) as nat);
        let before = after_sends(counters, channel, (n - 1) as nat);
        let a = counters[channel] as int;
        assert(((a + (n - 1)) % 256 + 1) % 256 == (a + n) % 256) by (nonlinear_arith)
            requires
                a >= 0,
                n >= 1,
        ;
    }
}

} // verus!
