//! Per-connection protocol session: decodes one frame at a time, drives the
//! player, and says exactly which bytes go back to the client.
//!
//! A frame is `[cmd, sid_number, length_hi, length_lo, payload...]`.  The
//! caller reads frames off the socket and writes the response bytes; every
//! decision in between is made here.

use vstd::prelude::*;

use crate::player::{Player, PlayerCommand, PlayerView, SidWrite, WRITE_QUEUE_SLOTS};
use crate::protocol::{Command, CommandResponse, NUMBER_OF_DEVICES, PROTOCOL_VERSION,
    SID_WRITE_SIZE, spec_command_from_u8};

verus! {

/// Declared payload length of a frame: big-endian 16-bit at bytes 2 and 3.
pub open spec fn frame_dlen(data: Seq<u8>) -> int {
    data[2] * 256 + data[3]
}

/// Number of whole writes encoded after the header.
pub open spec fn frame_write_count(data: Seq<u8>) -> int {
    (data.len() - 4) / 4
}

/// The `k`-th write encoded in a frame: two cycle bytes, register, value.
pub open spec fn frame_write(data: Seq<u8>, k: int) -> SidWrite {
    SidWrite {
        reg: data[4 + 4 * k + 2],
        data: data[4 + 4 * k + 3],
        cycles: (data[4 + 4 * k] * 256 + data[4 + 4 * k + 1]) as u16,
    }
}

/// The first `n` writes encoded in a frame, in wire order.
pub open spec fn frame_writes_prefix(data: Seq<u8>, n: int) -> Seq<SidWrite>
    decreases n,
{
    if n <= 0 {
        Seq::<SidWrite>::empty()
    } else {
        frame_writes_prefix(data, n - 1).push(frame_write(data, n - 1))
    }
}

/// All writes encoded in a frame.
pub open spec fn frame_writes(data: Seq<u8>) -> Seq<SidWrite> {
    frame_writes_prefix(data, frame_write_count(data))
}

/// Whether three bytes (cycles and register of a synchronous read) follow
/// the whole writes.
pub open spec fn has_trailing_read(data: Seq<u8>) -> bool {
    (data.len() - 4) % 4 == 3
}

/// Register named by the trailing read.
pub open spec fn trailing_read_reg(data: Seq<u8>) -> u8 {
    data[data.len() - 1]
}

/// Cycles to burn before the trailing read.
pub open spec fn trailing_read_cycles(data: Seq<u8>) -> u16 {
    (data[data.len() - 3] * 256 + data[data.len() - 2]) as u16
}

/// The cycle-burning register a read or delay on `reg`'s chip writes to.
pub open spec fn dummy_reg(reg: u8) -> u8 {
    (((reg & 0xe0) + 0x1e)) as u8
}

/// The player state a `Flush` leaves behind, whatever came before: nothing
/// queued, drain stopped, worker told to drop buffered sound.
pub open spec fn flushed() -> PlayerView {
    PlayerView {
        writes: Seq::<SidWrite>::empty(),
        cycles: 0,
        queue_started: false,
        aborted: true,
    }
}

/// The cycle-burning register a delay on chip `sid_number` writes to; the
/// arithmetic wraps as the byte does.
pub open spec fn delay_reg(sid_number: u8) -> u8 {
    ((0x1e + (sid_number as int) * 0x20) % 256) as u8
}

/// The ASCII name reported by `GetConfigInfo`, NUL-terminated.
pub open spec fn spec_config_info_name(is_8580: bool) -> Seq<u8> {
    if is_8580 {
        seq![
            0x72u8, 0x65, 0x53, 0x49, 0x44, 0x20, 0x44, 0x65, 0x76, 0x69, 0x63, 0x65, 0x20, 0x28,
            0x38, 0x35, 0x38, 0x30, 0x29, 0x00,
        ]
    } else {
        seq![
            0x72u8, 0x65, 0x53, 0x49, 0x44, 0x20, 0x44, 0x65, 0x76, 0x69, 0x63, 0x65, 0x20, 0x28,
            0x36, 0x35, 0x38, 0x31, 0x29, 0x00,
        ]
    }
}

/// The player state after a sequence of writes is offered to the queue in
/// order.
pub open spec fn enqueue_all(v: PlayerView, ws: Seq<SidWrite>) -> PlayerView
    decreases ws.len(),
{
    if ws.len() == 0 {
        v
    } else {
        enqueue_all(v.enqueued(ws[0]), ws.drop_first())
    }
}

/// Offering writes one more at the end extends the fold by one step.
pub proof fn lemma_enqueue_all_snoc(v: PlayerView, ws: Seq<SidWrite>, w: SidWrite)
    ensures
        enqueue_all(v, ws.push(w)) == enqueue_all(v, ws).enqueued(w),
    decreases ws.len(),
{
    if ws.len() == 0 {
        assert(ws.push(w)[0] == w);
        assert(ws.push(w).drop_first() =~= Seq::<SidWrite>::empty());
        assert(enqueue_all(v.enqueued(w), Seq::<SidWrite>::empty()) == v.enqueued(w));
        assert(enqueue_all(v, ws) == v);
    } else {
        assert(ws.push(w)[0] == ws[0]);
        assert(ws.push(w).drop_first() =~= ws.drop_first().push(w));
        lemma_enqueue_all_snoc(v.enqueued(ws[0]), ws.drop_first(), w);
    }
}

/// Enqueuing never touches the drain latch or the abort latch.
pub proof fn lemma_enqueue_all_flags(v: PlayerView, ws: Seq<SidWrite>)
    ensures
        enqueue_all(v, ws).queue_started == v.queue_started,
        enqueue_all(v, ws).aborted == v.aborted,
    decreases ws.len(),
{
    if ws.len() > 0 {
        lemma_enqueue_all_flags(v.enqueued(ws[0]), ws.drop_first());
    }
}

/// No write is dropped while the ring has room: offering a sequence of
/// writes to a queue that can hold them appends them all, in order.
pub proof fn lemma_enqueue_all_no_drop(v: PlayerView, ws: Seq<SidWrite>)
    requires
        v.writes.len() + ws.len() <= WRITE_QUEUE_SLOTS,
    ensures
        enqueue_all(v, ws).writes == v.writes + ws,
    decreases ws.len(),
{
    if ws.len() == 0 {
        assert(v.writes + ws =~= v.writes);
    } else {
        lemma_enqueue_all_no_drop(v.enqueued(ws[0]), ws.drop_first());
        assert(v.writes.push(ws[0]) + ws.drop_first() =~= v.writes + ws);
    }
}

/// The writes addressed to one chip (the top three register bits), in
/// queue order.
pub open spec fn writes_for_sid(ws: Seq<SidWrite>, chip: int) -> Seq<SidWrite> {
    ws.filter(|w: SidWrite| (w.reg >> 5) as int == chip)
}

/// Law: the queue keeps per-chip order.  While the ring has room, the
/// writes a client submits are appended whole and in order, so the writes
/// addressed to any one chip extend that chip's delivery sequence in
/// exactly the submission order; the worker pops the queue front-first
/// (`Player::collect_writes_for_tick`), which preserves it.
pub proof fn lemma_write_order_per_sid(v: PlayerView, ws: Seq<SidWrite>, chip: int)
    requires
        v.writes.len() + ws.len() <= WRITE_QUEUE_SLOTS,
    ensures
        enqueue_all(v, ws).writes == v.writes + ws,
        writes_for_sid(enqueue_all(v, ws).writes, chip) == writes_for_sid(v.writes, chip)
            + writes_for_sid(ws, chip),
{
    lemma_enqueue_all_no_drop(v, ws);
    Seq::filter_distributes_over_add(v.writes, ws, |w: SidWrite| (w.reg >> 5) as int == chip);
}

/// Law: `Flush` is idempotent.  The state a flush leaves behind does not
/// depend on what came before (see the `Flush` clause of
/// `process_command`, which also always answers `OK`), so the state after
/// two flushes equals the state after one.
pub proof fn lemma_flush_idempotent(after_one: PlayerView, after_two: PlayerView)
    requires
        after_one == flushed(),
        after_two == flushed(),
    ensures
        after_two == after_one,
{
}

/// State after a frame's writes are queued: every encoded write in order,
/// then the drain latch set when the minimum threshold is reached.
pub open spec fn after_writes(v: PlayerView, data: Seq<u8>) -> PlayerView {
    let v1 = enqueue_all(v, frame_writes(data));
    if v1.has_min_data() {
        PlayerView { queue_started: true, ..v1 }
    } else {
        v1
    }
}

/// State after the whole write-and-read payload of a frame is processed:
/// the writes, then for a trailing read the drain latch and the
/// cycle-burning write that precedes the read.
pub open spec fn after_process_writes(v: PlayerView, data: Seq<u8>) -> PlayerView {
    let v2 = after_writes(v, data);
    if has_trailing_read(data) {
        (PlayerView { queue_started: true, ..v2 }).enqueued(
            SidWrite { reg: dummy_reg(trailing_read_reg(data)), data: 0, cycles: trailing_read_cycles(data) },
        )
    } else {
        v2
    }
}

/// What the caller must do after one frame is processed.
///
/// `response` is sent back as-is; when `await_read` is set the byte the
/// worker returns for the queued read command is appended first.  Every
/// command in `commands` is forwarded to the worker in order, and each
/// `Read` among them is answered with one byte the caller must receive
/// (and discard unless `await_read` asked for it).  `close` shuts the
/// connection down both ways; `restart_renderer` recreates the emulation
/// worker before the commands are delivered.
pub struct FrameOutcome {
    pub response: Vec<u8>,
    pub await_read: bool,
    pub close: bool,
    pub commands: Vec<(PlayerCommand, Option<i32>)>,
    pub restart_renderer: bool,
}

impl FrameOutcome {
    /// A bare reply: the given bytes, nothing forwarded, connection kept.
    pub open spec fn plain_reply(self, bytes: Seq<u8>) -> bool {
        &&& self.response@ == bytes
        &&& !self.await_read
        &&& !self.close
        &&& self.commands@.len() == 0
        &&& !self.restart_renderer
    }
}

/// One protocol session's state: the player it feeds.
pub struct SidDeviceServerThread {
    pub player: Player,
}

impl SidDeviceServerThread {
    /// The session is usable: its player is.
    pub open spec fn wf(&self) -> bool {
        self.player.wf()
    }

    /// A fresh session around a fresh player, plus the two commands that
    /// hand the worker the configured digi-boost and filter-bias settings.
    pub fn new(digiboost_enabled: bool, filter_bias_6581: Option<i32>) -> (r: (
        SidDeviceServerThread,
        Vec<(PlayerCommand, Option<i32>)>,
    ))
        ensures
            r.0.wf(),
            r.0.player@.writes.len() == 0,
            r.0.player@.cycles == 0,
            !r.0.player@.queue_started,
            !r.0.player@.aborted,
            r.1@ == seq![
                (
                    if digiboost_enabled {
                        PlayerCommand::EnableDigiboost
                    } else {
                        PlayerCommand::DisableDigiboost
                    },
                    None::<i32>,
                ),
                (PlayerCommand::SetFilterBias6581, filter_bias_6581),
            ],
    {
        let player = Player::new();
        let mut commands: Vec<(PlayerCommand, Option<i32>)> = Vec::new();
        let digi = player.enable_digiboost(digiboost_enabled);
        commands.push(digi);
        let bias = player.set_filter_bias_6581(filter_bias_6581);
        commands.push(bias);
        (SidDeviceServerThread { player }, commands)
    }

    /// Queue every write encoded after the frame header, start the drain
    /// when the minimum threshold is met, and for a trailing read hand back
    /// the command that fetches the register value.
    fn process_writes(&mut self, data: &Vec<u8>) -> (rcmd: Option<(PlayerCommand, Option<i32>)>)
        requires
            old(self).wf(),
            4 <= data@.len() <= 4096,
        ensures
            final(self).wf(),
            final(self).player@ == after_process_writes(old(self).player@, data@),
            has_trailing_read(data@) ==> rcmd == Some(
                (PlayerCommand::Read, Some(trailing_read_reg(data@) as i32)),
            ),
            !has_trailing_read(data@) ==> rcmd is None,
    {
        let ghost view0 = self.player@;
        let count: usize = (data.len() - 4) / SID_WRITE_SIZE;
        let mut n: usize = 0;
        proof {
            assert(frame_writes_prefix(data@, 0) =~= Seq::<SidWrite>::empty());
        }
        while n < count
            invariant
                self.player.wf(),
                4 <= data@.len() <= 4096,
                count == frame_write_count(data@),
                count * 4 <= data@.len() - 4,
                n <= count,
                self.player@ == enqueue_all(view0, frame_writes_prefix(data@, n as int)),
            decreases count - n,
        {
            let base = 4 + n * 4;
            let cycles = (data[base] as u16) * 256 + (data[base + 1] as u16);
            let reg = data[base + 2];
            let val = data[base + 3];
            proof {
                lemma_enqueue_all_snoc(
                    view0,
                    frame_writes_prefix(data@, n as int),
                    frame_write(data@, n as int),
                );
            }
            self.player.write_to_sid(reg, val, cycles);
            n = n + 1;
        }
        if self.player.has_min_data_in_buffer() {
            self.player.start_draining();
        }
        if data.len() == count * SID_WRITE_SIZE + 7 {
            let base = 4 + count * 4;
            let cycles = (data[base] as u16) * 256 + (data[base + 1] as u16);
            let reg = data[base + 2];
            let cmd = self.player.read_from_sid(reg, cycles);
            Some(cmd)
        } else {
            None
        }
    }

    /// Handle one frame: decode the header, validate it, drive the player,
    /// and say which bytes answer it.  `has_error` is the process-wide audio
    /// fault flag as the caller last saw it.
    #[verifier::rlimit(60)]
    pub fn process_command(&mut self, data: &Vec<u8>, has_error: bool) -> (r: FrameOutcome)
        requires
            old(self).wf(),
            4 <= data@.len() <= 4096,
        ensures
            final(self).wf(),
            // the drain latch is monotonic: only Flush and TrySetSidCount
            // (and, off the wire, an audio-device change) may clear it
            (old(self).player@.queue_started && spec_command_from_u8(data@[0]) != Command::Flush
                && spec_command_from_u8(data@[0]) != Command::TrySetSidCount) ==> final(self).player@.queue_started,
            // unknown commands: one error byte, nothing else happens
            spec_command_from_u8(data@[0]) == Command::Unknown ==> final(self).player@ == old(self).player@ && r.plain_reply(seq![2u8]),
            // declared length longer than what arrived: one error byte
            (spec_command_from_u8(data@[0]) != Command::Unknown && spec_command_from_u8(data@[0])
                != Command::Flush && frame_dlen(data@) > data@.len() - 4) ==> final(self).player@
                == old(self).player@ && r.plain_reply(seq![2u8]),
            // Flush always succeeds and always lands in the same state
            spec_command_from_u8(data@[0]) == Command::Flush ==> final(self).player@ == flushed()
                && r.plain_reply(seq![0u8]),
            ({
                let cmd = spec_command_from_u8(data@[0]);
                let in_len = frame_dlen(data@) <= data@.len() - 4;
                let sidn = data@[1];
                &&& (cmd == Command::GetVersion && in_len) ==> final(self).player@ == old(self).player@ && r.plain_reply(seq![4u8, PROTOCOL_VERSION])
                &&& (cmd == Command::GetConfigCount && in_len) ==> final(self).player@ == old(self).player@ && r.plain_reply(seq![5u8, NUMBER_OF_DEVICES])
                &&& (cmd == Command::GetConfigInfo && in_len) ==> final(self).player@ == old(self).player@ && r.plain_reply(
                    seq![6u8, (sidn & 1)] + spec_config_info_name(sidn != 0),
                )
            }),
            ({
                let cmd = spec_command_from_u8(data@[0]);
                let in_len = frame_dlen(data@) <= data@.len() - 4;
                let dlen = frame_dlen(data@);
                let old_v = old(self).player@;
                (cmd == Command::TryWrite && in_len) ==> {
                    if has_error {
                        final(self).player@ == old_v && r.close && r.response@.len() == 0
                            && !r.await_read && r.commands@.len() == 0 && !r.restart_renderer
                    } else if dlen % 4 != 0 {
                        final(self).player@ == old_v && r.plain_reply(seq![2u8])
                    } else if !old_v.has_max_data() {
                        &&& final(self).player@ == (if dlen >= 4 {
                            after_process_writes(old_v, data@)
                        } else {
                            old_v
                        })
                        &&& r.response@ == seq![0u8]
                        &&& !r.close
                        &&& !r.await_read
                        &&& !r.restart_renderer
                        &&& r.commands@ == (if dlen >= 4 && has_trailing_read(data@) {
                            seq![
                                (PlayerCommand::Read, Some(trailing_read_reg(data@) as i32)),
                            ]
                        } else {
                            Seq::<(PlayerCommand, Option<i32>)>::empty()
                        })
                    } else {
                        final(self).player@ == (PlayerView { queue_started: true, ..old_v })
                            && r.plain_reply(seq![1u8])
                    }
                }
            }),
            ({
                let cmd = spec_command_from_u8(data@[0]);
                let in_len = frame_dlen(data@) <= data@.len() - 4;
                let dlen = frame_dlen(data@);
                let old_v = old(self).player@;
                (cmd == Command::TryRead && in_len) ==> {
                    if has_error {
                        final(self).player@ == old_v && r.close && r.response@.len() == 0
                            && !r.await_read && r.commands@.len() == 0 && !r.restart_renderer
                    } else if dlen < 3 || (dlen - 3) % 4 != 0 {
                        final(self).player@ == old_v && r.plain_reply(seq![2u8])
                    } else if !old_v.has_max_data() {
                        &&& final(self).player@ == after_process_writes(old_v, data@)
                        &&& !r.close
                        &&& !r.restart_renderer
                        &&& (if has_trailing_read(data@) {
                            r.response@ == seq![3u8] && r.await_read && r.commands@ == seq![
                                (PlayerCommand::Read, Some(trailing_read_reg(data@) as i32)),
                            ]
                        } else {
                            r.response@ == seq![3u8, 0u8] && !r.await_read && r.commands@.len()
                                == 0
                        })
                    } else {
                        final(self).player@ == (PlayerView { queue_started: true, ..old_v })
                            && r.plain_reply(seq![1u8])
                    }
                }
            }),
            ({
                let cmd = spec_command_from_u8(data@[0]);
                let in_len = frame_dlen(data@) <= data@.len() - 4;
                let dlen = frame_dlen(data@);
                let old_v = old(self).player@;
                (cmd == Command::TryDelay && in_len) ==> {
                    if has_error {
                        final(self).player@ == old_v && r.close && r.response@.len() == 0
                            && !r.await_read && r.commands@.len() == 0 && !r.restart_renderer
                    } else if dlen < 2 {
                        final(self).player@ == old_v && r.plain_reply(seq![2u8])
                    } else if !old_v.has_max_data() {
                        let w = SidWrite {
                            reg: delay_reg(data@[1]),
                            data: 0,
                            cycles: (data@[4] * 256 + data@[5]) as u16,
                        };
                        let v1 = old_v.enqueued(w);
                        final(self).player@ == (if v1.has_min_data() {
                            PlayerView { queue_started: true, ..v1 }
                        } else {
                            v1
                        }) && r.plain_reply(seq![0u8])
                    } else {
                        final(self).player@ == (PlayerView { queue_started: true, ..old_v })
                            && r.plain_reply(seq![1u8])
                    }
                }
            }),
            ({
                let cmd = spec_command_from_u8(data@[0]);
                let in_len = frame_dlen(data@) <= data@.len() - 4;
                let dlen = frame_dlen(data@);
                let old_v = old(self).player@;
                (cmd == Command::TryReset && in_len) ==> {
                    if dlen != 1 {
                        final(self).player@ == old_v && r.plain_reply(seq![2u8])
                    } else if !old_v.has_max_data() {
                        &&& final(self).player@ == old_v
                        &&& r.response@ == seq![0u8]
                        &&& !r.close
                        &&& !r.await_read
                        &&& !r.restart_renderer
                        &&& r.commands@ == seq![(PlayerCommand::Reset, None::<i32>)]
                    } else {
                        final(self).player@ == (PlayerView { queue_started: true, ..old_v })
                            && r.plain_reply(seq![1u8])
                    }
                }
            }),
            ({
                let cmd = spec_command_from_u8(data@[0]);
                let in_len = frame_dlen(data@) <= data@.len() - 4;
                let sidn = data@[1];
                let old_v = old(self).player@;
                (cmd == Command::TrySetSidCount && in_len) ==> {
                    if 1 <= sidn <= 8 {
                        &&& final(self).player@ == old_v.cleared()
                        &&& r.response@ == seq![0u8]
                        &&& !r.close
                        &&& !r.await_read
                        &&& r.restart_renderer
                        &&& r.commands@ == seq![
                            (PlayerCommand::SetSidCount, Some(sidn as i32)),
                        ]
                    } else {
                        final(self).player@ == old_v && r.plain_reply(seq![2u8])
                    }
                }
            }),
            ({
                let cmd = spec_command_from_u8(data@[0]);
                let in_len = frame_dlen(data@) <= data@.len() - 4;
                let dlen = frame_dlen(data@);
                let sidn = data@[1];
                let old_v = old(self).player@;
                &&& (cmd == Command::TrySetSidModel && in_len) ==> (if dlen == 1 {
                    final(self).player@ == old_v && r.response@ == seq![0u8] && !r.close
                        && !r.await_read && !r.restart_renderer && r.commands@ == seq![
                        (
                            PlayerCommand::SetModel,
                            Some(((sidn as i32) << 8) | (data@[4] as i32)),
                        ),
                    ]
                } else {
                    final(self).player@ == old_v && r.plain_reply(seq![2u8])
                })
                &&& (cmd == Command::TrySetClock && in_len) ==> (if dlen == 1 {
                    final(self).player@ == old_v && r.response@ == seq![0u8] && !r.close
                        && !r.await_read && !r.restart_renderer && r.commands@ == seq![
                        (PlayerCommand::SetClock, Some(data@[4] as i32)),
                    ]
                } else {
                    final(self).player@ == old_v && r.plain_reply(seq![2u8])
                })
                &&& (cmd == Command::SetSidPosition && in_len) ==> (if dlen == 1 {
                    final(self).player@ == old_v && r.response@ == seq![0u8] && !r.close
                        && !r.await_read && !r.restart_renderer && r.commands@ == seq![
                        (
                            PlayerCommand::SetPosition,
                            Some(((sidn as i32) << 8) | (data@[4] as i32)),
                        ),
                    ]
                } else {
                    final(self).player@ == old_v && r.plain_reply(seq![2u8])
                })
                &&& (cmd == Command::TrySetSampling && in_len) ==> (if dlen == 1 {
                    final(self).player@ == old_v && r.response@ == seq![0u8] && !r.close
                        && !r.await_read && !r.restart_renderer && r.commands@ == seq![
                        (PlayerCommand::SetSamplingMethod, Some(data@[4] as i32)),
                    ]
                } else {
                    final(self).player@ == old_v && r.plain_reply(seq![2u8])
                })
            }),
            // the remaining known commands are acknowledged and ignored
            ({
                let cmd = spec_command_from_u8(data@[0]);
                let in_len = frame_dlen(data@) <= data@.len() - 4;
                ((cmd == Command::Mute || cmd == Command::SetSidLevel || cmd == Command::SetDelay
                    || cmd == Command::SetFadeIn || cmd == Command::SetFadeOut || cmd
                    == Command::SetPsidHeader) && in_len) ==> final(self).player@ == old(self).player@ && r.plain_reply(seq![0u8])
            }),
    {
        let ghost old_v = self.player@;
        let command = Command::from_u8(data[0]);
        if matches!(command, Command::Unknown) {
            return byte_reply(CommandResponse::Error.code());
        }
        let sid_number = data[1];
        let data_length: usize = (data[2] as usize) * 256 + (data[3] as usize);

        if data_length > data.len() - 4 && !matches!(command, Command::Flush) {
            return byte_reply(CommandResponse::Error.code());
        }

        match command {
            Command::TryWrite => {
                if has_error {
                    close_outcome()
                } else if data_length % 4 != 0 {
                    byte_reply(CommandResponse::Error.code())
                } else if !self.player.has_max_data_in_buffer() {
                    let mut commands: Vec<(PlayerCommand, Option<i32>)> = Vec::new();
                    if data_length >= 4 {
                        let rcmd = self.process_writes(data);
                        if let Some(c) = rcmd {
                            commands.push(c);
                        }
                        proof {
                            lemma_enqueue_all_flags(old_v, frame_writes(data@));
                        }
                    }
                    let response: Vec<u8> = vec![CommandResponse::Okay.code()];
                    proof {
                        assert(response@ =~= seq![0u8]);
                    }
                    FrameOutcome {
                        response,
                        await_read: false,
                        close: false,
                        commands,
                        restart_renderer: false,
                    }
                } else {
                    byte_reply(CommandResponse::Busy.code())
                }
            }
            Command::TryRead => {
                if has_error {
                    close_outcome()
                } else if data_length < 3 || (data_length - 3) % 4 != 0 {
                    byte_reply(CommandResponse::Error.code())
                } else if !self.player.has_max_data_in_buffer() {
                    let mut commands: Vec<(PlayerCommand, Option<i32>)> = Vec::new();
                    let rcmd = self.process_writes(data);
                    proof {
                        lemma_enqueue_all_flags(old_v, frame_writes(data@));
                    }
                    let mut response: Vec<u8> = vec![CommandResponse::Read.code()];
                    let await_read = match rcmd {
                        Some(c) => {
                            commands.push(c);
                            true
                        },
                        None => {
                            response.push(0);
                            false
                        },
                    };
                    FrameOutcome {
                        response,
                        await_read,
                        close: false,
                        commands,
                        restart_renderer: false,
                    }
                } else {
                    byte_reply(CommandResponse::Busy.code())
                }
            }
            Command::TryDelay => {
                if has_error {
                    close_outcome()
                } else if data_length < 2 {
                    byte_reply(CommandResponse::Error.code())
                } else if !self.player.has_max_data_in_buffer() {
                    let cycles = (data[4] as u16) * 256 + (data[5] as u16);
                    let reg16: u16 = 0x1e + (sid_number as u16) * 0x20;
                    self.player.write_to_sid((reg16 % 256) as u8, 0, cycles);
                    if self.player.has_min_data_in_buffer() {
                        self.player.start_draining();
                    }
                    byte_reply(CommandResponse::Okay.code())
                } else {
                    byte_reply(CommandResponse::Busy.code())
                }
            }
            Command::TryReset => {
                if data_length == 1 {
                    if !self.player.has_max_data_in_buffer() {
                        let cmd = self.player.reset();
                        command_reply(CommandResponse::Okay.code(), cmd, false)
                    } else {
                        byte_reply(CommandResponse::Busy.code())
                    }
                } else {
                    byte_reply(CommandResponse::Error.code())
                }
            }
            Command::GetVersion => {
                byte2_reply(CommandResponse::Version.code(), PROTOCOL_VERSION)
            }
            Command::GetConfigCount => {
                byte2_reply(CommandResponse::Count.code(), NUMBER_OF_DEVICES)
            }
            Command::GetConfigInfo => {
                FrameOutcome {
                    response: config_info_response(sid_number),
                    await_read: false,
                    close: false,
                    commands: Vec::new(),
                    restart_renderer: false,
                }
            }
            Command::Flush => {
                self.player.flush();
                byte_reply(CommandResponse::Okay.code())
            }
            Command::TrySetSidCount => {
                if sid_number > 0 && sid_number <= 8 {
                    let cmd = self.player.set_sid_count(sid_number as i32);
                    command_reply(CommandResponse::Okay.code(), cmd, true)
                } else {
                    byte_reply(CommandResponse::Error.code())
                }
            }
            Command::TrySetSidModel => {
                if data_length == 1 {
                    let sid_model = data[4];
                    let cmd = self.player.set_model(
                        ((sid_number as i32) << 8) | (sid_model as i32),
                    );
                    command_reply(CommandResponse::Okay.code(), cmd, false)
                } else {
                    byte_reply(CommandResponse::Error.code())
                }
            }
            Command::TrySetClock => {
                if data_length == 1 {
                    let sid_clock = data[4];
                    let cmd = self.player.set_clock(sid_clock as i32);
                    command_reply(CommandResponse::Okay.code(), cmd, false)
                } else {
                    byte_reply(CommandResponse::Error.code())
                }
            }
            Command::SetSidPosition => {
                if data_length == 1 {
                    let position = data[4];
                    let cmd = self.player.set_position(
                        ((sid_number as i32) << 8) | (position as i32),
                    );
                    command_reply(CommandResponse::Okay.code(), cmd, false)
                } else {
                    byte_reply(CommandResponse::Error.code())
                }
            }
            Command::TrySetSampling => {
                if data_length == 1 {
                    let sampling_method = data[4];
                    let cmd = self.player.set_sampling_method(sampling_method as i32);
                    command_reply(CommandResponse::Okay.code(), cmd, false)
                } else {
                    byte_reply(CommandResponse::Error.code())
                }
            }
            _ => {
                // the remaining commands are acknowledged and ignored
                byte_reply(CommandResponse::Okay.code())
            }
        }
    }
}


/// A one-byte reply that changes nothing else.
fn byte_reply(b: u8) -> (r: FrameOutcome)
    ensures
        r.plain_reply(seq![b]),
{
    let response: Vec<u8> = vec![b];
    proof {
        assert(response@ =~= seq![b]);
    }
    FrameOutcome {
        response,
        await_read: false,
        close: false,
        commands: Vec::new(),
        restart_renderer: false,
    }
}

/// A two-byte reply that changes nothing else.
fn byte2_reply(b0: u8, b1: u8) -> (r: FrameOutcome)
    ensures
        r.plain_reply(seq![b0, b1]),
{
    let response: Vec<u8> = vec![b0, b1];
    proof {
        assert(response@ =~= seq![b0, b1]);
    }
    FrameOutcome {
        response,
        await_read: false,
        close: false,
        commands: Vec::new(),
        restart_renderer: false,
    }
}

/// The outcome that tears the connection down without answering.
fn close_outcome() -> (r: FrameOutcome)
    ensures
        r.close,
        r.response@.len() == 0,
        !r.await_read,
        r.commands@.len() == 0,
        !r.restart_renderer,
{
    FrameOutcome {
        response: Vec::new(),
        await_read: false,
        close: true,
        commands: Vec::new(),
        restart_renderer: false,
    }
}

/// An acknowledged reply that also forwards one worker command.
fn command_reply(b: u8, cmd: (PlayerCommand, Option<i32>), restart_renderer: bool) -> (r:
    FrameOutcome)
    ensures
        r.response@ == seq![b],
        !r.await_read,
        !r.close,
        r.commands@ == seq![cmd],
        r.restart_renderer == restart_renderer,
{
    let response: Vec<u8> = vec![b];
    let mut commands: Vec<(PlayerCommand, Option<i32>)> = Vec::new();
    commands.push(cmd);
    proof {
        assert(response@ =~= seq![b]);
        assert(commands@ =~= seq![cmd]);
    }
    FrameOutcome { response, await_read: false, close: false, commands, restart_renderer }
}

/// The host a server binds depending on whether outside machines may
/// connect.
pub fn server_host(allow_external_connections: bool) -> (r: &'static str)
    ensures
        allow_external_connections ==> r@ == "0.0.0.0"@,
        !allow_external_connections ==> r@ == "127.0.0.1"@,
{
    if allow_external_connections {
        "0.0.0.0"
    } else {
        "127.0.0.1"
    }
}

/// The message shown when binding the server port fails.  A port conflict
/// gets the fixed explanation; any other failure surfaces the system's own
/// words (the caller passes those through).
pub fn bind_error_message(addr_in_use: bool, permission_denied: bool) -> (r: Option<&'static str>)
    ensures
        (addr_in_use || permission_denied) <==> r is Some,
        r matches Some(m) ==> m@
            == "Another SID device seems to be already running on port 6581. Please close it and try again."@,
{
    if addr_in_use || permission_denied {
        Some(
            "Another SID device seems to be already running on port 6581. Please close it and try again.",
        )
    } else {
        None
    }
}

/// Full `GetConfigInfo` response: info code, the model bit, and the
/// NUL-terminated device name.
fn config_info_response(sid_number: u8) -> (r: Vec<u8>)
    ensures
        r@ == seq![6u8, (sid_number & 1)] + spec_config_info_name(sid_number != 0),
{
    let r: Vec<u8> = if sid_number == 0 {
        vec![
            6u8, sid_number & 1, 0x72, 0x65, 0x53, 0x49, 0x44, 0x20, 0x44, 0x65, 0x76, 0x69, 0x63,
            0x65, 0x20, 0x28, 0x36, 0x35, 0x38, 0x31, 0x29, 0x00,
        ]
    } else {
        vec![
            6u8, sid_number & 1, 0x72, 0x65, 0x53, 0x49, 0x44, 0x20, 0x44, 0x65, 0x76, 0x69, 0x63,
            0x65, 0x20, 0x28, 0x38, 0x35, 0x38, 0x30, 0x29, 0x00,
        ]
    };
    proof {
        assert(r@ =~= seq![6u8, (sid_number & 1)] + spec_config_info_name(sid_number != 0));
    }
    r
}

} // verus!
