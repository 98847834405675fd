//! The per-call packet-framing state machine behind a stream reader's
//! packet-read call: seek the magic word, assemble the 32-byte header
//! region, decode and validate it, assemble the payload region, emit the
//! packet. Timeouts and validation failures are normal framing outcomes,
//! reported as "no packet this call"; every loop around this machine is
//! bounded by the global call budget. The embedding program owns the
//! transport: on `Poll` it pulls fresh bytes into the FIFO (sleeping briefly
//! when the link is idle) and steps again, passing the current time and its
//! cancellation token.

use crate::assembler::drain_amount;
use crate::assembler::fill_wf;
use crate::assembler::policy_accepts;
use crate::assembler::FillState;
use crate::assembler::FillStep;
use crate::assembler::StallPolicy;
use crate::sync::scan_fifo;
use crate::sync::sync_run;
use crate::types::decode_header;
use crate::types::header_valid;
use crate::types::header_wf;
use crate::types::le32_at;
use crate::types::valid_lengths;
use crate::types::Header;
use crate::types::RadarPacket;
use std::collections::VecDeque;
use vstd::prelude::*;

verus! {

/// The sensor's expected inter-frame interval, in milliseconds.
pub const FRAME_PERIOD_MS: u64 = 100;

/// The bound on one whole packet-read call, in milliseconds.
pub const GLOBAL_TIMEOUT_MS: u64 = 150;

/// The deadline for assembling the 32-byte header region, in milliseconds.
pub const HEADER_TIMEOUT_MS: u64 = 25;

/// 65% of the frame period: a resynchronization attempt this soon after the
/// previous successful frame is deferred rather than raced.
pub const PACING_WAIT_MS: u64 = 65;

/// Whether a resynchronization attempt at `now_ms` should be deferred: the
/// previous successful magic-word match at `last_frame_ms` is more recent
/// than 65% of the frame period, so the sensor cannot have produced the next
/// frame yet. The caller then sleeps briefly and reports "no packet" rather
/// than spinning.
pub fn pacing_defer(last_frame_ms: Option<u64>, now_ms: u64) -> (r: bool)
    requires
        (last_frame_ms matches Some(t) ==> now_ms >= t),
    ensures
        r == (match last_frame_ms {
            Some(t) => now_ms - t < PACING_WAIT_MS,
            None => false,
        }),
{
    match last_frame_ms {
        Some(t) => now_ms - t < PACING_WAIT_MS,
        None => false,
    }
}

/// The deadline for assembling a payload region: 50 ms plus 10 ms for every
/// 100 payload bytes, capped by the remaining global budget.
pub open spec fn spec_body_timeout(payload_len: int, remaining_ms: int) -> int {
    let adaptive = 50 + (payload_len / 100) * 10;
    if remaining_ms <= adaptive {
        remaining_ms
    } else {
        adaptive
    }
}

/// Compute the payload deadline. Payloads are bounded by the validated
/// maximum total packet length.
pub fn body_timeout_ms(payload_len: usize, remaining_ms: u64) -> (r: u64)
    requires
        payload_len <= 4096,
    ensures
        r as int == spec_body_timeout(payload_len as int, remaining_ms as int),
{
    let adaptive: u64 = 50 + ((payload_len as u64) / 100) * 10;
    if remaining_ms <= adaptive {
        remaining_ms
    } else {
        adaptive
    }
}

/// Where a packet-read call stands.
pub enum Phase {
    /// Scanning for the magic word, `matched` bytes already matched.
    SeekMagic { matched: usize },
    /// The magic word was consumed; the 32-byte header region is filling.
    ReadHeader { fill: FillState },
    /// The header passed validation; the payload region is filling.
    ReadBody { header: Header, fill: FillState },
    /// The call has ended, with or without a packet.
    Done,
}

/// The outcome of one engine step.
pub enum EngineStep {
    /// Pull fresh transport bytes into the FIFO (or wait briefly) and step
    /// again.
    Poll,
    /// No packet this call: magic word not found, assembly incomplete,
    /// header invalid, or out of time. A normal outcome, not an error.
    NoPacket,
    /// A packet was assembled.
    Packet(RadarPacket),
    /// The caller's cancellation token was observed; the call is abandoned.
    Cancelled,
}

/// One packet-read call in progress.
pub struct PacketEngine {
    /// Where the call stands.
    pub phase: Phase,
    /// When the call began, on the caller's monotonic clock.
    pub start_ms: u64,
    /// The stall policy handed to every fill of this call.
    pub policy: StallPolicy,
}

/// The engine's phase invariant: partial matches stay short of the magic
/// word's length, fill regions match their phase, and a body fill belongs to
/// a validated header.
pub open spec fn engine_wf(e: PacketEngine) -> bool {
    match e.phase {
        Phase::SeekMagic { matched } => matched < 8,
        Phase::ReadHeader { fill } => fill_wf(fill) && fill.goal == 32 && fill.policy == e.policy,
        Phase::ReadBody { header, fill } => {
            &&& fill_wf(fill)
            &&& header_wf(header)
            &&& header_valid(header)
            &&& fill.goal + 40 == header.total_packet_len
            &&& fill.policy == e.policy
        },
        Phase::Done => true,
    }
}

/// The engine may be stepped at `now_ms`: the caller's clock has not run
/// backwards past any recorded timestamp.
pub open spec fn engine_ready(e: PacketEngine, now_ms: u64) -> bool {
    &&& now_ms >= e.start_ms
    &&& (match e.phase {
        Phase::ReadHeader { fill } => now_ms >= fill.last_progress_ms && now_ms
            >= fill.last_data_ms,
        Phase::ReadBody { header, fill } => now_ms >= fill.last_progress_ms && now_ms
            >= fill.last_data_ms,
        _ => true,
    })
}

/// The region contents after one drain of the FIFO into a fill.
pub open spec fn drained_region(f: FillState, fifo: Seq<u8>) -> Seq<u8> {
    f.region@ + fifo.subrange(
        0,
        drain_amount(f.region@.len() as int, f.goal as int, fifo.len() as int),
    )
}

/// The FIFO contents after one drain into a fill.
pub open spec fn fifo_after_drain(f: FillState, fifo: Seq<u8>) -> Seq<u8> {
    fifo.subrange(
        drain_amount(f.region@.len() as int, f.goal as int, fifo.len() as int),
        fifo.len() as int,
    )
}

/// `s` zero-padded to `goal` bytes.
pub open spec fn zero_padded(s: Seq<u8>, goal: int) -> Seq<u8> {
    s + Seq::new((goal - s.len()) as nat, |i: int| 0u8)
}

/// Whether a fill step at `now_ms` completes its region: the drain fills it,
/// or the stalled fill meets the policy and is accepted.
pub open spec fn fill_completes(f: FillState, fifo: Seq<u8>, now_ms: u64) -> bool {
    let drained = drained_region(f, fifo);
    let lp: int = if drained.len() > f.region@.len() {
        now_ms as int
    } else {
        f.last_progress_ms as int
    };
    drained.len() == f.goal || policy_accepts(
        f.policy,
        drained.len() as int,
        f.goal as int,
        now_ms - lp,
        now_ms - f.last_data_ms,
    )
}

/// Whether an incomplete fill has passed its hard deadline at `now_ms`.
pub open spec fn fill_deadline_passed(f: FillState, now_ms: u64) -> bool {
    now_ms - f.start_ms > f.timeout_ms
}

impl PacketEngine {
    /// Begin a packet-read call at `now_ms`.
    pub fn new(now_ms: u64, policy: StallPolicy) -> (r: PacketEngine)
        ensures
            engine_wf(r),
            engine_ready(r, now_ms),
            r.phase == (Phase::SeekMagic { matched: 0 }),
            r.start_ms == now_ms,
            r.policy == policy,
    {
        PacketEngine { phase: Phase::SeekMagic { matched: 0 }, start_ms: now_ms, policy }
    }

    /// Record that the transport delivered fresh bytes at `now_ms`: the
    /// active fill's recent-activity window restarts, so a stall is not
    /// declared while data still flows.
    pub fn note_data(&mut self, now_ms: u64)
        requires
            engine_wf(*old(self)),
            engine_ready(*old(self), now_ms),
        ensures
            engine_wf(*final(self)),
            engine_ready(*final(self), now_ms),
            final(self).start_ms == old(self).start_ms,
            final(self).policy == old(self).policy,
            (match old(self).phase {
                Phase::ReadHeader { fill } => (final(self).phase matches Phase::ReadHeader {
                    fill: f2,
                } && f2 == (FillState { last_data_ms: now_ms, ..fill })),
                Phase::ReadBody { header, fill } => (final(self).phase matches Phase::ReadBody {
                    header: h2,
                    fill: f2,
                } && h2 == header && f2 == (FillState { last_data_ms: now_ms, ..fill })),
                _ => final(self).phase == old(self).phase,
            }),
    {
        let mut ph = Phase::Done;
        core::mem::swap(&mut ph, &mut self.phase);
        match ph {
            Phase::ReadHeader { mut fill } => {
                fill.note_data(now_ms);
                self.phase = Phase::ReadHeader { fill };
            },
            Phase::ReadBody { header, mut fill } => {
                fill.note_data(now_ms);
                self.phase = Phase::ReadBody { header, fill };
            },
            other => {
                self.phase = other;
            },
        }
    }

    /// One step of the call at `now_ms`. Scans, fills, decodes, validates
    /// and emits as far as the FIFO allows; `Poll` asks the caller for more
    /// transport bytes. A set cancellation token abandons the call
    /// untouched. Timeouts and validation failures end the call with
    /// `NoPacket`; an invalid header also clears the FIFO so the next call
    /// resynchronizes cleanly.
    pub fn step(&mut self, fifo: &mut VecDeque<u8>, now_ms: u64, cancelled: bool) -> (r:
        EngineStep)
        requires
            engine_wf(*old(self)),
            engine_ready(*old(self), now_ms),
        ensures
            engine_wf(*final(self)),
            engine_ready(*final(self), now_ms),
            final(self).start_ms == old(self).start_ms,
            final(self).policy == old(self).policy,
            (cancelled ==> (r matches EngineStep::Cancelled) && *final(self) == *old(self) && final(fifo)@ == old(fifo)@),
            (!cancelled ==> match old(self).phase {
                Phase::SeekMagic { matched } => {
                    let run = sync_run(old(fifo)@, matched as int);
                    let over_global = now_ms - old(self).start_ms > GLOBAL_TIMEOUT_MS;
                    let over_period = now_ms - old(self).start_ms >= FRAME_PERIOD_MS;
                    &&& final(fifo)@ == old(fifo)@.subrange(run.1, old(fifo)@.len() as int)
                    &&& (run.0 && !over_global ==> (r matches EngineStep::Poll) && (final(self).phase matches Phase::ReadHeader { fill } && fill.region@ == Seq::<u8>::empty()
                        && fill.goal == 32 && fill.start_ms == now_ms && fill.timeout_ms
                        == HEADER_TIMEOUT_MS && fill.last_progress_ms == now_ms
                        && fill.last_data_ms == now_ms))
                    &&& (run.0 && over_global ==> (r matches EngineStep::NoPacket) && (final(self).phase matches Phase::Done))
                    &&& (!run.0 && !over_period ==> (r matches EngineStep::Poll) && (final(self).phase matches Phase::SeekMagic { matched: m2 } && m2 as int == run.2))
                    &&& (!run.0 && over_period ==> (r matches EngineStep::NoPacket) && (final(self).phase matches Phase::Done))
                },
                Phase::ReadHeader { fill } => {
                    let after = fifo_after_drain(fill, old(fifo)@);
                    let creg = zero_padded(drained_region(fill, old(fifo)@), 32);
                    let completes = fill_completes(fill, old(fifo)@, now_ms);
                    let valid = valid_lengths(le32_at(creg, 1), le32_at(creg, 5), le32_at(creg, 6));
                    let over_global = now_ms - old(self).start_ms > GLOBAL_TIMEOUT_MS;
                    &&& (completes && over_global ==> (r matches EngineStep::NoPacket) && (final(self).phase matches Phase::Done) && final(fifo)@ == after)
                    &&& (completes && !over_global && !valid ==> (r matches EngineStep::NoPacket)
                        && (final(self).phase matches Phase::Done) && final(fifo)@
                        == Seq::<u8>::empty())
                    &&& (completes && !over_global && valid ==> (r matches EngineStep::Poll) && (
                    final(self).phase matches Phase::ReadBody { header: h, fill: f2 } && {
                        &&& h.version == le32_at(creg, 0)
                        &&& h.total_packet_len == le32_at(creg, 1)
                        &&& h.platform == le32_at(creg, 2)
                        &&& h.frame_number == le32_at(creg, 3)
                        &&& h.time_cpu_cycles == le32_at(creg, 4)
                        &&& h.num_detected_obj == le32_at(creg, 5)
                        &&& h.num_tlv == le32_at(creg, 6)
                        &&& f2.region@ == Seq::<u8>::empty()
                        &&& f2.goal + 40 == h.total_packet_len
                        &&& f2.start_ms == now_ms
                        &&& f2.timeout_ms as int == spec_body_timeout(
                            f2.goal as int,
                            GLOBAL_TIMEOUT_MS - (now_ms - old(self).start_ms),
                        )
                    }) && final(fifo)@ == after)
                    &&& (!completes && fill_deadline_passed(fill, now_ms) ==> (
                    r matches EngineStep::NoPacket) && (final(self).phase matches Phase::Done)
                        && final(fifo)@ == after)
                    &&& (!completes && !fill_deadline_passed(fill, now_ms) ==> (
                    r matches EngineStep::Poll) && (
                    final(self).phase matches Phase::ReadHeader { fill: f2 } && {
                        &&& f2.region@ == drained_region(fill, old(fifo)@)
                        &&& f2.goal == 32
                        &&& f2.start_ms == fill.start_ms
                        &&& f2.timeout_ms == fill.timeout_ms
                        &&& f2.last_data_ms == fill.last_data_ms
                    }) && final(fifo)@ == after)
                },
                Phase::ReadBody { header, fill } => {
                    let after = fifo_after_drain(fill, old(fifo)@);
                    let creg = zero_padded(drained_region(fill, old(fifo)@), fill.goal as int);
                    let completes = fill_completes(fill, old(fifo)@, now_ms);
                    &&& (completes ==> (r matches EngineStep::Packet(p) && p.header == header
                        && header_valid(p.header) && header_wf(p.header) && p.data@ == creg
                        && p.data@.len() + 40 == header.total_packet_len) && (
                    final(self).phase matches Phase::Done) && final(fifo)@ == after)
                    &&& (!completes && fill_deadline_passed(fill, now_ms) ==> (
                    r matches EngineStep::NoPacket) && (final(self).phase matches Phase::Done)
                        && final(fifo)@ == after)
                    &&& (!completes && !fill_deadline_passed(fill, now_ms) ==> (
                    r matches EngineStep::Poll) && (
                    final(self).phase matches Phase::ReadBody { header: h2, fill: f2 } && {
                        &&& h2 == header
                        &&& f2.region@ == drained_region(fill, old(fifo)@)
                        &&& f2.goal == fill.goal
                        &&& f2.start_ms == fill.start_ms
                        &&& f2.timeout_ms == fill.timeout_ms
                        &&& f2.last_data_ms == fill.last_data_ms
                    }) && final(fifo)@ == after)
                },
                Phase::Done => (r matches EngineStep::NoPacket) && (
                final(self).phase matches Phase::Done) && final(fifo)@ == old(fifo)@,
            }),
    {
        if cancelled {
            return EngineStep::Cancelled;
        }
        let mut ph = Phase::Done;
        core::mem::swap(&mut ph, &mut self.phase);
        match ph {
            Phase::SeekMagic { matched } => {
                let (found, m2) = scan_fifo(fifo, matched);
                if found {
                    if now_ms - self.start_ms > GLOBAL_TIMEOUT_MS {
                        EngineStep::NoPacket
                    } else {
                        self.phase = Phase::ReadHeader {
                            fill: FillState::new(32, now_ms, HEADER_TIMEOUT_MS, self.policy),
                        };
                        EngineStep::Poll
                    }
                } else {
                    if now_ms - self.start_ms >= FRAME_PERIOD_MS {
                        EngineStep::NoPacket
                    } else {
                        self.phase = Phase::SeekMagic { matched: m2 };
                        EngineStep::Poll
                    }
                }
            },
            Phase::ReadHeader { mut fill } => {
                let fs = fill.step(fifo, now_ms);
                match fs {
                    FillStep::Filled | FillStep::FilledPartial => {
                        proof {
                            assert(fill.region@ =~= zero_padded(
                                drained_region(old(self).phase->ReadHeader_fill, old(fifo)@),
                                32,
                            ));
                        }
                        if now_ms - self.start_ms > GLOBAL_TIMEOUT_MS {
                            EngineStep::NoPacket
                        } else {
                            let h = decode_header(&fill.region);
                            if h.validate() {
                                let payload_len = (h.total_packet_len as usize) - 40;
                                let remaining = GLOBAL_TIMEOUT_MS - (now_ms - self.start_ms);
                                let t = body_timeout_ms(payload_len, remaining);
                                self.phase = Phase::ReadBody {
                                    header: h,
                                    fill: FillState::new(payload_len, now_ms, t, self.policy),
                                };
                                EngineStep::Poll
                            } else {
                                fifo.clear();
                                EngineStep::NoPacket
                            }
                        }
                    },
                    FillStep::TimedOut => EngineStep::NoPacket,
                    FillStep::Poll => {
                        self.phase = Phase::ReadHeader { fill };
                        EngineStep::Poll
                    },
                }
            },
            Phase::ReadBody { header, mut fill } => {
                let fs = fill.step(fifo, now_ms);
                match fs {
                    FillStep::Filled | FillStep::FilledPartial => {
                        proof {
                            assert(fill.region@ =~= zero_padded(
                                drained_region(old(self).phase->ReadBody_fill, old(fifo)@),
                                old(self).phase->ReadBody_fill.goal as int,
                            ));
                        }
                        EngineStep::Packet(RadarPacket { header, data: fill.region })
                    },
                    FillStep::TimedOut => EngineStep::NoPacket,
                    FillStep::Poll => {
                        self.phase = Phase::ReadBody { header, fill };
                        EngineStep::Poll
                    },
                }
            },
            Phase::Done => EngineStep::NoPacket,
        }
    }
}

} // verus!
