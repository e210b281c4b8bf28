//! Promoting a byte-stream transport to the full bus contract.
//!
//! Any [`SimpleDisplayBus`] gets blanket implementations of [`DisplayBus`],
//! [`BusBytesIo`] and [`BusHardwareFill`]. A command with parameters becomes
//! two back-to-back stream writes; the software solid fill batches pixels
//! through a small fixed internal buffer of 16 bytes.

use vstd::prelude::*;

use crate::DisplayError;
use crate::area::Area;
use crate::bus::{
    BusBytesIo, BusHardwareFill, BusTx, DisplayBus, ErrorType, Metadata, SimpleDisplayBus,
    SimpleOp, data_step, lemma_map_values_push, lemma_prefix_push, lemma_prefix_refl,
    lemma_repeat_bytes_add, lemma_repeat_bytes_len, lemma_repeat_is_repeat_of,
    lemma_txs_of_stream_push, make_repeat, payload_total, repeat_bytes, txs_of_stream,
};
use crate::color::SolidColor;

verus! {

impl<T: SimpleDisplayBus> DisplayBus for T {
    open spec fn log(&self) -> Seq<BusTx> {
        txs_of_stream(self.stream())
    }

    open spec fn spec_cmd_ok(cmd: Seq<u8>) -> bool {
        T::spec_cmd_ok(cmd)
    }

    open spec fn spec_reset_supported() -> bool {
        T::spec_reset_supported()
    }

    fn write_cmd(&mut self, cmd: &[u8]) -> (r: Result<(), Self::Error>) {
        let ghost pre = self.stream();
        let r = self.write_cmds(cmd);
        proof {
            if r is Ok {
                lemma_txs_of_stream_push(pre, SimpleOp::Cmds { cmd: cmd@ });
            } else {
                lemma_prefix_refl(txs_of_stream(pre));
            }
        }
        r
    }

    fn write_cmd_with_params(&mut self, cmd: &[u8], params: &[u8]) -> (r: Result<
        (),
        Self::Error,
    >) {
        let ghost pre = self.stream();
        let ghost log0 = txs_of_stream(pre);
        match self.write_cmds(cmd) {
            Ok(()) => {},
            Err(e) => {
                proof {
                    lemma_prefix_refl(log0);
                }
                return Err(e);
            },
        }
        proof {
            lemma_txs_of_stream_push(pre, SimpleOp::Cmds { cmd: cmd@ });
        }
        let ghost mid = self.stream();
        let r = self.write_data(params);
        proof {
            if r is Ok {
                lemma_txs_of_stream_push(mid, SimpleOp::Data { data: params@ });
                assert(txs_of_stream(self.stream()) == data_step(
                    log0.push(BusTx::Cmd { cmd: cmd@ }),
                    params@,
                ));
                assert(log0.push(BusTx::Cmd { cmd: cmd@ }).update(
                    log0.len() as int,
                    BusTx::CmdWithParams { cmd: cmd@, params: params@ },
                ) =~= log0.push(BusTx::CmdWithParams { cmd: cmd@, params: params@ }));
            } else {
                lemma_prefix_refl(log0);
                lemma_prefix_push(log0, log0, BusTx::Cmd { cmd: cmd@ });
            }
        }
        r
    }

    fn write_pixels(&mut self, cmd: &[u8], data: &[u8], metadata: Metadata) -> (r: Result<
        (),
        DisplayError<Self::Error>,
    >) {
        let ghost pre = self.stream();
        let ghost log0 = txs_of_stream(pre);
        match self.write_cmds(cmd) {
            Ok(()) => {},
            Err(e) => {
                proof {
                    lemma_prefix_refl(log0);
                }
                return Err(DisplayError::BusError(e));
            },
        }
        proof {
            lemma_txs_of_stream_push(pre, SimpleOp::Cmds { cmd: cmd@ });
        }
        let ghost mid = self.stream();
        match self.write_data(data) {
            Ok(()) => {},
            Err(e) => {
                proof {
                    lemma_prefix_refl(log0);
                    lemma_prefix_push(log0, log0, BusTx::Cmd { cmd: cmd@ });
                }
                return Err(DisplayError::BusError(e));
            },
        }
        proof {
            lemma_txs_of_stream_push(mid, SimpleOp::Data { data: data@ });
            assert(log0.push(BusTx::Cmd { cmd: cmd@ }).update(
                log0.len() as int,
                BusTx::CmdWithParams { cmd: cmd@, params: data@ },
            ) =~= log0.push(BusTx::CmdWithParams { cmd: cmd@, params: data@ }));
            lemma_prefix_refl(log0);
            lemma_prefix_push(log0, log0, BusTx::CmdWithParams { cmd: cmd@, params: data@ });
        }
        Ok(())
    }

    fn set_reset(&mut self, reset: bool) -> (r: Result<(), DisplayError<Self::Error>>) {
        let ghost pre = self.stream();
        let r = SimpleDisplayBus::set_reset(self, reset);
        proof {
            if r is Ok {
                lemma_txs_of_stream_push(pre, SimpleOp::Reset { level: reset });
            }
        }
        r
    }
}

impl<T: SimpleDisplayBus> BusBytesIo for T {
    fn write_cmd_bytes(&mut self, cmd: &[u8]) -> (r: Result<(), Self::Error>) {
        let ghost pre = self.stream();
        let r = self.write_cmds(cmd);
        proof {
            if r is Ok {
                lemma_txs_of_stream_push(pre, SimpleOp::Cmds { cmd: cmd@ });
            }
        }
        r
    }

    fn write_data_bytes(&mut self, data: &[u8]) -> (r: Result<(), Self::Error>) {
        let ghost pre = self.stream();
        let r = self.write_data(data);
        proof {
            if r is Ok {
                lemma_txs_of_stream_push(pre, SimpleOp::Data { data: data@ });
            }
        }
        r
    }
}

/// The data bursts of a fill plan: one byte-stream write per run, each
/// holding that run's worth of color repetitions.
pub open spec fn burst_ops(color: Seq<u8>, plan: Seq<int>) -> Seq<SimpleOp> {
    plan.map_values(|n: int| SimpleOp::Data { data: repeat_bytes(color, n as nat) })
}

/// Software solid fill over a byte-stream transport: the command once, then
/// pixel runs through a small fixed internal buffer of 16 bytes, each run of
/// at most `16 / pixel_size` pixels.
///
/// The stream-level clause gives the exact wire structure — the command
/// write, then one data burst per run of the flat split of the area's pixel
/// count; the log-level clause gives the merged transaction the bursts
/// amount to.
#[verifier::loop_isolation(false)]
pub fn fill_solid_stream<T: SimpleDisplayBus>(bus: &mut T, cmd: &[u8], color: SolidColor, area: Area) -> (r: Result<
    (),
    DisplayError<T::Error>,
>)
    requires
        T::spec_cmd_ok(cmd@),
        area.w >= 1,
        area.h >= 1,
    ensures
        r is Ok ==> final(bus).stream() == old(bus).stream().push(SimpleOp::Cmds { cmd: cmd@ })
            + burst_ops(
            color.spec_wire_bytes(),
            crate::bus::batch_fill::flat_plan(
                area.spec_total_pixels() as int,
                16int / color.spec_wire_bytes().len() as int,
            ),
        ),
        r is Ok ==> txs_of_stream(final(bus).stream()) == txs_of_stream(old(bus).stream()).push(
            BusTx::CmdWithParams {
                cmd: cmd@,
                params: repeat_bytes(color.spec_wire_bytes(), area.spec_total_pixels()),
            },
        ),
        txs_of_stream(old(bus).stream()).is_prefix_of(txs_of_stream(final(bus).stream())),
        r matches Err(e) ==> e is BusError,
{
    let cb = color.wire_bytes();
    let ps = cb.len();
    let ghost pre = bus.stream();
    let ghost log0 = txs_of_stream(pre);
    match bus.write_cmds(cmd) {
        Ok(()) => {},
        Err(e) => {
            proof {
                lemma_prefix_refl(log0);
            }
            return Err(DisplayError::BusError(e));
        },
    }
    proof {
        lemma_txs_of_stream_push(pre, SimpleOp::Cmds { cmd: cmd@ });
    }
    let total = area.total_pixels();
    let pixels_per_chunk = 16usize / ps;
    let ghost fplan = crate::bus::batch_fill::flat_plan(total as int, pixels_per_chunk as int);
    let ghost mut done: Seq<int> = Seq::empty();
    proof {
        assert(pixels_per_chunk >= 1) by (nonlinear_arith)
            requires
                pixels_per_chunk == 16int / ps as int,
                1 <= ps <= 3,
        ;
        assert(total >= 1) by (nonlinear_arith)
            requires
                total == area.w as int * area.h as int,
                area.w >= 1,
                area.h >= 1,
        ;
        assert(bus.stream() =~= pre.push(SimpleOp::Cmds { cmd: cmd@ }) + burst_ops(cb@, done));
        assert(fplan == done + crate::bus::batch_fill::flat_plan(
            total as int,
            pixels_per_chunk as int,
        )) by {
            assert(done + fplan =~= fplan);
        };
    }
    let mut remaining: usize = total;
    while remaining > 0
        invariant
            remaining <= total,
            bus.stream() == pre.push(SimpleOp::Cmds { cmd: cmd@ }) + burst_ops(cb@, done),
            fplan == done + crate::bus::batch_fill::flat_plan(
                remaining as int,
                pixels_per_chunk as int,
            ),
            remaining < total ==> txs_of_stream(bus.stream()) == log0.push(
                BusTx::CmdWithParams {
                    cmd: cmd@,
                    params: repeat_bytes(cb@, (total - remaining) as nat),
                },
            ),
            remaining == total ==> txs_of_stream(bus.stream()) == log0.push(
                BusTx::Cmd { cmd: cmd@ },
            ),
        decreases remaining,
    {
        let current: usize = if remaining < pixels_per_chunk {
            remaining
        } else {
            pixels_per_chunk
        };
        proof {
            assert(current * ps as int <= 16) by (nonlinear_arith)
                requires
                    current <= pixels_per_chunk,
                    pixels_per_chunk == 16int / ps as int,
                    1 <= ps,
            ;
        }
        let data = make_repeat(cb.as_slice(), current);
        let ghost mid = bus.stream();
        let ghost sent: nat = (total - remaining) as nat;
        let ghost rest = crate::bus::batch_fill::flat_plan(
            remaining as int - current as int,
            pixels_per_chunk as int,
        );
        proof {
            assert(crate::bus::batch_fill::flat_plan(remaining as int, pixels_per_chunk as int)
                == seq![current as int] + rest) by {
                if remaining as int <= pixels_per_chunk as int {
                    assert(rest =~= Seq::<int>::empty());
                    assert(seq![current as int] + rest =~= seq![current as int]);
                }
            };
        }
        match bus.write_data(data.as_slice()) {
            Ok(()) => {},
            Err(e) => {
                proof {
                    lemma_prefix_refl(log0);
                    if remaining < total {
                        lemma_prefix_push(
                            log0,
                            log0,
                            BusTx::CmdWithParams { cmd: cmd@, params: repeat_bytes(cb@, sent) },
                        );
                    } else {
                        lemma_prefix_push(log0, log0, BusTx::Cmd { cmd: cmd@ });
                    }
                }
                return Err(DisplayError::BusError(e));
            },
        }
        proof {
            lemma_txs_of_stream_push(mid, SimpleOp::Data { data: data@ });
            lemma_map_values_push(done, |n: int| SimpleOp::Data { data: repeat_bytes(cb@, n as nat) }, current as int);
            assert(bus.stream() =~= pre.push(SimpleOp::Cmds { cmd: cmd@ }) + burst_ops(
                cb@,
                done.push(current as int),
            ));
            done = done.push(current as int);
            assert(fplan == done + rest) by {
                assert(done.drop_last() + (seq![current as int] + rest) =~= done + rest);
                assert(done.drop_last() =~= done.subrange(0, done.len() - 1));
            };
            let merged = BusTx::CmdWithParams {
                cmd: cmd@,
                params: repeat_bytes(cb@, (sent + current) as nat),
            };
            if remaining == total {
                assert(log0.push(BusTx::Cmd { cmd: cmd@ }).update(log0.len() as int, merged)
                    =~= log0.push(merged)) by {
                    assert(repeat_bytes(cb@, 0 + current as nat) == data@);
                };
            } else {
                lemma_repeat_bytes_add(cb@, sent, current as nat);
                assert(log0.push(
                    BusTx::CmdWithParams { cmd: cmd@, params: repeat_bytes(cb@, sent) },
                ).update(log0.len() as int, merged) =~= log0.push(merged));
            }
        }
        remaining = remaining - current;
    }
    proof {
        assert(crate::bus::batch_fill::flat_plan(0, pixels_per_chunk as int)
            =~= Seq::<int>::empty());
        assert(fplan =~= done) by {
            assert(done + Seq::<int>::empty() =~= done);
        };
        let tx = BusTx::CmdWithParams { cmd: cmd@, params: repeat_bytes(cb@, total as nat) };
        lemma_prefix_refl(log0);
        lemma_prefix_push(log0, log0, tx);
    }
    Ok(())
}

impl<T: SimpleDisplayBus> BusHardwareFill for T {
    /// Software fill through a 16-byte stack buffer; the stream-level
    /// structure stands in [`fill_solid_stream`]'s own contract.
    fn fill_solid(&mut self, cmd: &[u8], color: SolidColor, area: Area) -> (r: Result<
        (),
        DisplayError<Self::Error>,
    >) {
        let ghost log0 = txs_of_stream(self.stream());
        let r = fill_solid_stream(self, cmd, color, area);
        proof {
            if r is Ok {
                let cb = color.spec_wire_bytes();
                let total = area.spec_total_pixels();
                let tx = BusTx::CmdWithParams { cmd: cmd@, params: repeat_bytes(cb, total) };
                let now = txs_of_stream(self.stream());
                let appended = now.subrange(log0.len() as int, now.len() as int);
                assert(appended =~= seq![tx]);
                assert(appended.drop_last() =~= Seq::<BusTx>::empty());
                assert(payload_total(appended.drop_last()) == 0);
                assert(appended.last() == tx);
                assert(payload_total(appended) == repeat_bytes(cb, total).len());
                lemma_repeat_bytes_len(cb, total);
                lemma_repeat_is_repeat_of(cb, total);
            }
        }
        r
    }
}

/// One recorded byte-stream operation, the executable mirror of
/// [`SimpleOp`].
#[derive(Debug, Clone, PartialEq, Eq)]
pub enum RecordedOp {
    /// Command bytes.
    Cmds { cmd: Vec<u8> },
    /// Data bytes.
    Data { data: Vec<u8> },
    /// The reset line driven to a level.
    Reset { level: bool },
}

impl View for RecordedOp {
    type V = SimpleOp;

    open spec fn view(&self) -> SimpleOp {
        match self {
            RecordedOp::Cmds { cmd } => SimpleOp::Cmds { cmd: cmd@ },
            RecordedOp::Data { data } => SimpleOp::Data { data: data@ },
            RecordedOp::Reset { level } => SimpleOp::Reset { level: *level },
        }
    }
}

/// A byte-stream transport that stores every operation instead of driving
/// hardware.
pub struct SimpleRecordingBus {
    /// The operations performed so far, oldest first.
    pub ops: Vec<RecordedOp>,
}

impl SimpleRecordingBus {
    /// Creates an empty recording transport.
    pub fn new() -> (r: SimpleRecordingBus)
        ensures
            r.stream() == Seq::<SimpleOp>::empty(),
            r.ops@.len() == 0,
    {
        let r = SimpleRecordingBus { ops: Vec::new() };
        proof {
            assert(r.ops@.map_values(|t: RecordedOp| t@) =~= Seq::<SimpleOp>::empty());
        }
        r
    }
}

impl ErrorType for SimpleRecordingBus {
    type Error = ();
}

impl SimpleDisplayBus for SimpleRecordingBus {
    open spec fn stream(&self) -> Seq<SimpleOp> {
        self.ops@.map_values(|t: RecordedOp| t@)
    }

    open spec fn spec_cmd_ok(cmd: Seq<u8>) -> bool {
        true
    }

    open spec fn spec_reset_supported() -> bool {
        true
    }

    fn write_cmds(&mut self, cmd: &[u8]) -> (r: Result<(), Self::Error>) {
        let t = RecordedOp::Cmds { cmd: vstd::slice::slice_to_vec(cmd) };
        proof {
            lemma_map_values_push(self.ops@, |x: RecordedOp| x@, t);
        }
        self.ops.push(t);
        Ok(())
    }

    fn write_data(&mut self, data: &[u8]) -> (r: Result<(), Self::Error>) {
        let t = RecordedOp::Data { data: vstd::slice::slice_to_vec(data) };
        proof {
            lemma_map_values_push(self.ops@, |x: RecordedOp| x@, t);
        }
        self.ops.push(t);
        Ok(())
    }

    fn set_reset(&mut self, reset: bool) -> (r: Result<(), DisplayError<Self::Error>>) {
        let t = RecordedOp::Reset { level: reset };
        proof {
            lemma_map_values_push(self.ops@, |x: RecordedOp| x@, t);
        }
        self.ops.push(t);
        Ok(())
    }
}

/// A byte-stream transport that records commands but refuses data, for
/// exercising failure paths without hardware. It cannot drive a reset line.
pub struct FailingSimpleBus {
    /// The operations that succeeded, oldest first.
    pub ops: Vec<RecordedOp>,
}

impl FailingSimpleBus {
    /// Creates a transport that accepts commands and refuses data.
    pub fn new() -> (r: FailingSimpleBus)
        ensures
            r.stream() == Seq::<SimpleOp>::empty(),
    {
        let r = FailingSimpleBus { ops: Vec::new() };
        proof {
            assert(r.ops@.map_values(|t: RecordedOp| t@) =~= Seq::<SimpleOp>::empty());
        }
        r
    }
}

impl ErrorType for FailingSimpleBus {
    type Error = u8;
}

impl SimpleDisplayBus for FailingSimpleBus {
    open spec fn stream(&self) -> Seq<SimpleOp> {
        self.ops@.map_values(|t: RecordedOp| t@)
    }

    open spec fn spec_cmd_ok(cmd: Seq<u8>) -> bool {
        true
    }

    open spec fn spec_reset_supported() -> bool {
        false
    }

    fn write_cmds(&mut self, cmd: &[u8]) -> (r: Result<(), Self::Error>) {
        let t = RecordedOp::Cmds { cmd: vstd::slice::slice_to_vec(cmd) };
        proof {
            lemma_map_values_push(self.ops@, |x: RecordedOp| x@, t);
        }
        self.ops.push(t);
        Ok(())
    }

    fn write_data(&mut self, data: &[u8]) -> (r: Result<(), Self::Error>) {
        let _ = data;
        Err(42)
    }

    fn set_reset(&mut self, reset: bool) -> (r: Result<(), DisplayError<Self::Error>>) {
        let _ = reset;
        Err(DisplayError::Unsupported)
    }
}

} // verus!
