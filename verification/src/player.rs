//! The player: the write queue shared between a protocol session and the
//! emulation worker, together with its pacing state.
//!
//! A queued write is a `SidWrite`; on the ring it travels packed into one
//! `u32` word.  The pacing fields mirror the queue: `cycles_in_buffer` always
//! equals the sum of the `cycles` of every queued write, and `queue_started`
//! latches once enough data has accumulated for the worker to start
//! draining.

use vstd::prelude::*;

use crate::ring::{ring_clear, ring_items, ring_len, ring_slots, ring_try_pop, ring_try_push,
    ring_with_capacity};

verus! {

/// Capacity requested for the write ring; the ring keeps one slot free.
pub const SID_WRITES_BUFFER_SIZE: usize = 65536;

/// Number of writes the ring can actually hold at once.
pub const WRITE_QUEUE_SLOTS: usize = 65535;

/// Above this many queued cycles (about three seconds of PAL clocks) the
/// queue reports back-pressure.
pub const MAX_CYCLES_IN_BUFFER: u32 = 63 * 312 * 50 * 3;

/// Queued cycles beyond which the worker may start draining.
pub const MIN_CYCLES_TO_DRAIN_QUEUE: u32 = 500_000;

/// Queued writes beyond which the worker may start draining.
pub const MIN_WRITES_TO_DRAIN_QUEUE: usize = 300;

/// One SID register write: advance the chip by `cycles`, then store `data`
/// into register `reg` (upper three bits of `reg` select the chip).
#[derive(Copy, Clone, PartialEq, Eq, Structural, Debug)]
pub struct SidWrite {
    pub reg: u8,
    pub data: u8,
    pub cycles: u16,
}

/// Commands a session forwards to the emulation worker over its control
/// channel.
#[derive(Copy, Clone, PartialEq, Eq, Structural, Debug)]
pub enum PlayerCommand {
    SetClock,
    SetModel,
    SetSidCount,
    SetPosition,
    SetSamplingMethod,
    EnableDigiboost,
    DisableDigiboost,
    SetFilterBias6581,
    SetSamplingFrequency,
    Reset,
    Read,
}

/// The write encoded in one packed ring word.
pub open spec fn spec_unpack_write(v: u32) -> SidWrite {
    SidWrite { reg: (v >> 24) as u8, data: ((v >> 16) & 0xff) as u8, cycles: (v & 0xffff) as u16 }
}

/// Pack a write into one ring word.
pub fn pack_write(w: SidWrite) -> (r: u32)
    ensures
        spec_unpack_write(r) == w,
{
    let r: u32 = ((w.reg as u32) << 24) | ((w.data as u32) << 16) | (w.cycles as u32);
    proof {
        let a = w.reg as u32;
        let b = w.data as u32;
        let c = w.cycles as u32;
        assert((((a << 24) | (b << 16) | c) >> 24) == a && ((((a << 24) | (b << 16) | c) >> 16)
            & 0xff) == b && (((a << 24) | (b << 16) | c) & 0xffff) == c) by (bit_vector)
            requires
                a < 256,
                b < 256,
                c < 0x10000,
        ;
    }
    r
}

/// Unpack one ring word back into the write it encodes.
pub fn unpack_write(v: u32) -> (w: SidWrite)
    ensures
        w == spec_unpack_write(v),
{
    SidWrite { reg: (v >> 24) as u8, data: ((v >> 16) & 0xff) as u8, cycles: (v & 0xffff) as u16 }
}

/// Total cycle count carried by a sequence of writes.
pub open spec fn sum_cycles(ws: Seq<SidWrite>) -> int
    decreases ws.len(),
{
    if ws.len() == 0 {
        0
    } else {
        ws[0].cycles + sum_cycles(ws.drop_first())
    }
}

/// The cycle sum of a concatenation is the sum of the parts' sums.
pub proof fn lemma_sum_cycles_concat(a: Seq<SidWrite>, b: Seq<SidWrite>)
    ensures
        sum_cycles(a + b) == sum_cycles(a) + sum_cycles(b),
    decreases a.len(),
{
    if a.len() == 0 {
        assert(a + b =~= b);
    } else {
        assert((a + b).drop_first() =~= a.drop_first() + b);
        lemma_sum_cycles_concat(a.drop_first(), b);
    }
}

/// Appending one write adds exactly its cycles to the sum.
pub proof fn lemma_sum_cycles_push(ws: Seq<SidWrite>, w: SidWrite)
    ensures
        sum_cycles(ws.push(w)) == sum_cycles(ws) + w.cycles,
{
    assert(ws.push(w) =~= ws + seq![w]);
    lemma_sum_cycles_concat(ws, seq![w]);
    assert(sum_cycles(seq![w]) == w.cycles + sum_cycles(seq![w].drop_first()));
    assert(seq![w].drop_first() =~= Seq::<SidWrite>::empty());
}

/// The cycle sum is bounded by one `u16` worth of cycles per write.
pub proof fn lemma_sum_cycles_bound(ws: Seq<SidWrite>)
    ensures
        0 <= sum_cycles(ws) <= ws.len() * 0xffff,
    decreases ws.len(),
{
    if ws.len() > 0 {
        lemma_sum_cycles_bound(ws.drop_first());
    }
}

/// Law: in every well-formed player the pacing counter is exactly the sum
/// of the cycles of the queued writes; every player operation here keeps
/// it so.
pub proof fn lemma_cycles_counter_exact(p: &Player)
    requires
        p.wf(),
    ensures
        p@.cycles == sum_cycles(p@.writes),
{
}

/// Ghost image of a player: the queued writes and the pacing flags.
pub struct PlayerView {
    pub writes: Seq<SidWrite>,
    pub cycles: int,
    pub queue_started: bool,
    pub aborted: bool,
}

impl PlayerView {
    /// The state after offering one write to the queue: appended when a slot
    /// is free (the counter follows), dropped when the ring is full.
    pub open spec fn enqueued(self, w: SidWrite) -> PlayerView {
        if self.writes.len() < WRITE_QUEUE_SLOTS {
            PlayerView { writes: self.writes.push(w), cycles: self.cycles + w.cycles, ..self }
        } else {
            self
        }
    }

    /// The state after the queue is cleared: no writes, no pending cycles,
    /// draining stopped.
    pub open spec fn cleared(self) -> PlayerView {
        PlayerView {
            writes: Seq::<SidWrite>::empty(),
            cycles: 0,
            queue_started: false,
            aborted: self.aborted,
        }
    }

    /// Back-pressure: more than half the ring used, or several seconds of
    /// cycles pending.
    pub open spec fn has_max_data(self) -> bool {
        self.writes.len() > SID_WRITES_BUFFER_SIZE as int / 2 || self.cycles
            > MAX_CYCLES_IN_BUFFER as int
    }

    /// Enough data buffered for the worker to start draining.
    pub open spec fn has_min_data(self) -> bool {
        self.cycles > MIN_CYCLES_TO_DRAIN_QUEUE as int || self.writes.len()
            > MIN_WRITES_TO_DRAIN_QUEUE as int
    }
}

/// Write queue plus pacing state, shared by a session (producer side) and
/// the emulation worker (consumer side).
pub struct Player {
    pub queue: atomicring::AtomicRingBuffer<u32>,
    pub cycles_in_buffer: u32,
    pub queue_started: bool,
    pub aborted: bool,
}

impl View for Player {
    type V = PlayerView;

    open spec fn view(&self) -> PlayerView {
        PlayerView {
            writes: ring_items(self.queue).map(|i: int, v: u32| spec_unpack_write(v)),
            cycles: self.cycles_in_buffer as int,
            queue_started: self.queue_started,
            aborted: self.aborted,
        }
    }
}

impl Player {
    /// Well-formedness: the ring has its fixed capacity and the cycle
    /// counter equals the sum of the cycles of every queued write.
    pub open spec fn wf(&self) -> bool {
        &&& ring_slots(self.queue) == WRITE_QUEUE_SLOTS
        &&& self@.writes.len() <= WRITE_QUEUE_SLOTS
        &&& self@.cycles == sum_cycles(self@.writes)
    }

    /// A fresh player: empty queue, draining not started, not aborted.
    pub fn new() -> (p: Player)
        ensures
            p.wf(),
            p@.writes == Seq::<SidWrite>::empty(),
            p@.cycles == 0,
            !p@.queue_started,
            !p@.aborted,
    {
        proof {
            assert(65536usize & 65535usize == 0) by (bit_vector);
        }
        let queue = ring_with_capacity(SID_WRITES_BUFFER_SIZE);
        let p = Player { queue, cycles_in_buffer: 0, queue_started: false, aborted: false };
        proof {
            assert(p@.writes =~= Seq::<SidWrite>::empty());
        }
        p
    }

    /// Number of writes waiting in the queue.
    pub fn queue_len(&self) -> (r: usize)
        ensures
            r == self@.writes.len(),
    {
        ring_len(&self.queue)
    }

    /// Back-pressure test.  As a side effect a full queue also starts the
    /// drain, so a client that overruns the jitter buffer hears its data.
    pub fn has_max_data_in_buffer(&mut self) -> (r: bool)
        requires
            old(self).wf(),
        ensures
            final(self).wf(),
            r == old(self)@.has_max_data(),
            final(self)@.writes == old(self)@.writes,
            final(self)@.cycles == old(self)@.cycles,
            final(self)@.aborted == old(self)@.aborted,
            final(self)@.queue_started == (old(self)@.queue_started || r),
    {
        let cycles = self.cycles_in_buffer;
        let len = ring_len(&self.queue);
        let enough_data = len > SID_WRITES_BUFFER_SIZE / 2 || cycles > MAX_CYCLES_IN_BUFFER;
        if enough_data {
            self.start_draining();
        }
        enough_data
    }

    /// Enough buffered data for the worker to start draining.
    pub fn has_min_data_in_buffer(&self) -> (r: bool)
        ensures
            r == self@.has_min_data(),
    {
        self.cycles_in_buffer > MIN_CYCLES_TO_DRAIN_QUEUE || ring_len(&self.queue)
            > MIN_WRITES_TO_DRAIN_QUEUE
    }

    /// Permit the worker to drain the queue.
    pub fn start_draining(&mut self)
        requires
            old(self).wf(),
        ensures
            final(self).wf(),
            final(self)@ == (PlayerView { queue_started: true, ..old(self)@ }),
    {
        self.queue_started = true;
    }

    /// Queue one register write.  When the ring is full the write is
    /// dropped and the pacing counter is left alone.
    pub fn write_to_sid(&mut self, reg: u8, data: u8, cycles: u16)
        requires
            old(self).wf(),
        ensures
            final(self).wf(),
            final(self)@ == old(self)@.enqueued(SidWrite { reg, data, cycles }),
    {
        let w = SidWrite { reg, data, cycles };
        let packed = pack_write(w);
        let ghost old_items = ring_items(self.queue);
        let ghost old_writes = self@.writes;
        let pushed = ring_try_push(&mut self.queue, packed);
        if pushed {
            proof {
                assert(ring_items(self.queue).map(|i: int, v: u32| spec_unpack_write(v))
                    =~= old_writes.push(w));
                lemma_sum_cycles_push(old_writes, w);
                lemma_sum_cycles_bound(old_writes);
            }
            self.cycles_in_buffer = self.cycles_in_buffer + (cycles as u32);
        }
    }

    /// Queue the cycle-burning write that precedes a synchronous read, mark
    /// the drain started, and hand back the read command for the worker.
    pub fn read_from_sid(&mut self, reg: u8, cycles: u16) -> (cmd: (PlayerCommand, Option<i32>))
        requires
            old(self).wf(),
        ensures
            final(self).wf(),
            final(self)@ == (PlayerView { queue_started: true, ..old(self)@ }).enqueued(
                SidWrite { reg: (((reg & 0xe0) + 0x1e) as u8), data: 0, cycles },
            ),
            cmd == (PlayerCommand::Read, Some(reg as i32)),
    {
        self.queue_started = true;
        self.dummy_write(reg, cycles);
        (PlayerCommand::Read, Some(reg as i32))
    }

    /// Drop everything queued and tell the worker to discard buffered sound.
    pub fn flush(&mut self)
        requires
            old(self).wf(),
        ensures
            final(self).wf(),
            final(self)@ == (PlayerView {
                writes: Seq::<SidWrite>::empty(),
                cycles: 0,
                queue_started: false,
                aborted: true,
            }),
    {
        self.clear_queue();
        self.aborted = true;
    }

    /// The command asking the worker to reset the chips.
    pub fn reset(&self) -> (cmd: (PlayerCommand, Option<i32>))
        ensures
            cmd == (PlayerCommand::Reset, None::<i32>),
    {
        (PlayerCommand::Reset, None)
    }

    /// The command switching digi-boost on or off.
    pub fn enable_digiboost(&self, enabled: bool) -> (cmd: (PlayerCommand, Option<i32>))
        ensures
            enabled ==> cmd == (PlayerCommand::EnableDigiboost, None::<i32>),
            !enabled ==> cmd == (PlayerCommand::DisableDigiboost, None::<i32>),
    {
        if enabled {
            (PlayerCommand::EnableDigiboost, None)
        } else {
            (PlayerCommand::DisableDigiboost, None)
        }
    }

    /// The command carrying a 6581 filter bias, in integer hundredths.
    pub fn set_filter_bias_6581(&self, filter_bias: Option<i32>) -> (cmd: (
        PlayerCommand,
        Option<i32>,
    ))
        ensures
            cmd == (PlayerCommand::SetFilterBias6581, filter_bias),
    {
        (PlayerCommand::SetFilterBias6581, filter_bias)
    }

    /// The command selecting a chip model; the high byte of `model` is the
    /// chip index, the low byte the model.
    pub fn set_model(&self, model: i32) -> (cmd: (PlayerCommand, Option<i32>))
        ensures
            cmd == (PlayerCommand::SetModel, Some(model)),
    {
        (PlayerCommand::SetModel, Some(model))
    }

    /// The command selecting the SID clock.
    pub fn set_clock(&self, clock: i32) -> (cmd: (PlayerCommand, Option<i32>))
        ensures
            cmd == (PlayerCommand::SetClock, Some(clock)),
    {
        (PlayerCommand::SetClock, Some(clock))
    }

    /// Change the chip count: the queue is cleared first, so no stale write
    /// can reach a chip index that no longer exists.  The caller must also
    /// restart the renderer before delivering the returned command.
    pub fn set_sid_count(&mut self, count: i32) -> (cmd: (PlayerCommand, Option<i32>))
        requires
            old(self).wf(),
        ensures
            final(self).wf(),
            final(self)@ == old(self)@.cleared(),
            cmd == (PlayerCommand::SetSidCount, Some(count)),
    {
        self.clear_queue();
        (PlayerCommand::SetSidCount, Some(count))
    }

    /// The command carrying a panning position; the high byte of `position`
    /// is the chip index, the low byte the signed position.
    pub fn set_position(&self, position: i32) -> (cmd: (PlayerCommand, Option<i32>))
        ensures
            cmd == (PlayerCommand::SetPosition, Some(position)),
    {
        (PlayerCommand::SetPosition, Some(position))
    }

    /// The command selecting the sampling method.
    pub fn set_sampling_method(&self, sampling_method: i32) -> (cmd: (PlayerCommand, Option<i32>))
        ensures
            cmd == (PlayerCommand::SetSamplingMethod, Some(sampling_method)),
    {
        (PlayerCommand::SetSamplingMethod, Some(sampling_method))
    }

    /// Forget everything queued before the audio device changes under the
    /// worker.  The caller reopens the device and retunes the chips.
    pub fn set_audio_device(&mut self)
        requires
            old(self).wf(),
        ensures
            final(self).wf(),
            final(self)@ == old(self)@.cleared(),
    {
        self.clear_queue();
    }

    /// Worker side: note and reset the abort latch in one step.
    pub fn take_aborted(&mut self) -> (r: bool)
        requires
            old(self).wf(),
        ensures
            final(self).wf(),
            r == old(self)@.aborted,
            final(self)@ == (PlayerView { aborted: false, ..old(self)@ }),
    {
        let r = self.aborted;
        self.aborted = false;
        r
    }

    /// Worker side: take one tick's worth of writes off the queue, oldest
    /// first, stopping once their cycles reach `budget` (or the queue runs
    /// dry), and settle the pacing counter.
    pub fn collect_writes_for_tick(&mut self, budget: u32) -> (batch: Vec<SidWrite>)
        requires
            old(self).wf(),
        ensures
            final(self).wf(),
            old(self)@.writes == batch@ + final(self)@.writes,
            final(self)@.queue_started == old(self)@.queue_started,
            final(self)@.aborted == old(self)@.aborted,
            forall|j: int| 0 <= j < batch@.len() ==> sum_cycles(batch@.take(j)) < budget,
            batch@.len() < old(self)@.writes.len() ==> sum_cycles(batch@) >= budget,
    {
        let ghost orig = self@.writes;
        let ghost cycles0 = self.cycles_in_buffer;
        let ghost started0 = self.queue_started;
        let ghost aborted0 = self.aborted;
        let mut batch: Vec<SidWrite> = Vec::new();
        let mut total: u32 = 0;
        let mut drained = false;
        proof {
            assert(batch@ + self@.writes =~= orig);
            lemma_sum_cycles_bound(orig);
        }
        while !drained && total < budget
            invariant
                ring_slots(self.queue) == WRITE_QUEUE_SLOTS,
                self@.writes.len() <= WRITE_QUEUE_SLOTS,
                self.cycles_in_buffer == cycles0,
                self.queue_started == started0,
                self.aborted == aborted0,
                orig == batch@ + self@.writes,
                total == sum_cycles(batch@),
                sum_cycles(orig) <= WRITE_QUEUE_SLOTS as int * 0xffff,
                cycles0 == sum_cycles(orig),
                forall|j: int| 0 <= j < batch@.len() ==> sum_cycles(batch@.take(j)) < budget,
                drained ==> self@.writes.len() == 0,
            decreases (if drained {
                0int
            } else {
                1int
            }), self@.writes.len(),
        {
            let ghost writes_before = self@.writes;
            let ghost batch_before = batch@;
            let popped = ring_try_pop(&mut self.queue);
            match popped {
                Some(packed) => {
                    let w = unpack_write(packed);
                    proof {
                        assert(self@.writes =~= writes_before.drop_first());
                        assert(w == writes_before[0]);
                        assert(batch_before.push(w) + self@.writes =~= batch_before
                            + writes_before);
                        lemma_sum_cycles_push(batch_before, w);
                        lemma_sum_cycles_concat(batch_before.push(w), self@.writes);
                        lemma_sum_cycles_bound(self@.writes);
                    }
                    total = total + (w.cycles as u32);
                    batch.push(w);
                    proof {
                        assert forall|j: int| 0 <= j < batch@.len() implies sum_cycles(
                            batch@.take(j),
                        ) < budget by {
                            if j < batch@.len() - 1 {
                                assert(batch@.take(j) =~= batch_before.take(j));
                            } else {
                                assert(batch@.take(j) =~= batch_before);
                            }
                        }
                    }
                }
                None => {
                    drained = true;
                }
            }
        }
        if total > 0 {
            let cycles = self.cycles_in_buffer;
            if cycles > total {
                self.cycles_in_buffer = cycles - total;
            } else {
                self.cycles_in_buffer = 0;
            }
        }
        proof {
            lemma_sum_cycles_concat(batch@, self@.writes);
            lemma_sum_cycles_bound(batch@);
            lemma_sum_cycles_bound(self@.writes);
        }
        batch
    }

    fn clear_queue(&mut self)
        requires
            old(self).wf(),
        ensures
            final(self).wf(),
            final(self)@ == old(self)@.cleared(),
    {
        self.cycles_in_buffer = 0;
        ring_clear(&mut self.queue);
        self.queue_started = false;
        proof {
            assert(self@.writes =~= Seq::<SidWrite>::empty());
        }
    }

    fn dummy_write(&mut self, reg: u8, cycles: u16)
        requires
            old(self).wf(),
        ensures
            final(self).wf(),
            final(self)@ == old(self)@.enqueued(
                SidWrite { reg: (((reg & 0xe0) + 0x1e) as u8), data: 0, cycles },
            ),
    {
        proof {
            assert(reg & 0xe0 <= 0xe0) by (bit_vector);
        }
        self.write_to_sid((reg & 0xe0) + 0x1e, 0, cycles);
    }
}

} // verus!
