//! Command framing for QSPI-attached displays that emulate a serial-flash
//! device.
//!
//! Such displays do not take display opcodes directly: every one-byte command
//! is wrapped in a four-byte flash-style instruction frame
//! `[opcode, 0x00, command, 0x00]`, where the opcode is `0x02` for plain
//! register writes, `0x32` for the pixel/RAM write, and `0x03` for reads.
//! Everything else — parameters, pixel data, metadata — passes through
//! unchanged.

use vstd::prelude::*;

use crate::DisplayError;
use crate::area::Area;
use crate::bus::{
    BusHardwareFill, BusRead, BusTx, DisplayBus, ErrorType, Metadata, is_color_chunk,
    lemma_map_values_push, payload_total, tx_cmd, tx_payload,
};
use crate::color::SolidColor;

verus! {

/// The opcode that frames plain command and register writes.
pub const QSPI_OP_COMMAND: u8 = 0x02;

/// The opcode that frames the pixel/RAM write.
pub const QSPI_OP_WRITE_RAM: u8 = 0x32;

/// The opcode that frames reads.
pub const QSPI_OP_READ: u8 = 0x03;

/// The flash-emulation frame for a one-byte command under a given opcode.
pub open spec fn qspi_frame(opcode: u8, cmd: u8) -> Seq<u8> {
    seq![opcode, 0u8, cmd, 0u8]
}

/// Whether a command is a well-formed flash frame under the given opcode.
pub open spec fn is_qspi_frame(opcode: u8, cmd: Seq<u8>) -> bool {
    cmd.len() == 4 && cmd[0] == opcode && cmd[1] == 0 && cmd[3] == 0
}

/// The one-byte command a framed command carries. A command that is not a
/// well-formed frame under the given opcode unframes to no command at all,
/// so the adapter's contracts — which promise the callers' one-byte commands
/// in the unframed log — force exactly the documented frames onto the wire.
pub open spec fn unframe_cmd(opcode: u8, cmd: Seq<u8>) -> Seq<u8> {
    if is_qspi_frame(opcode, cmd) {
        seq![cmd[2]]
    } else {
        Seq::empty()
    }
}

/// The one-byte command of a data-carrying byte-stream transaction. Such a
/// transaction does not record whether it was a register write or a pixel
/// write — on a raw byte stream the two degrade to the same wire event — so
/// either frame unframes it.
pub open spec fn unframe_data_cmd(cmd: Seq<u8>) -> Seq<u8> {
    if is_qspi_frame(QSPI_OP_COMMAND, cmd) || is_qspi_frame(QSPI_OP_WRITE_RAM, cmd) {
        seq![cmd[2]]
    } else {
        Seq::empty()
    }
}

/// A transaction as it looks before framing: the four-byte command collapsed
/// back to the one-byte command it carries, under the opcode the transaction
/// kind demands — `0x02` for bare commands, `0x32` for pixel writes, `0x03`
/// for reads, either write opcode for command-plus-data.
pub open spec fn unframe_tx(t: BusTx) -> BusTx {
    match t {
        BusTx::Cmd { cmd } => BusTx::Cmd { cmd: unframe_cmd(QSPI_OP_COMMAND, cmd) },
        BusTx::CmdWithParams { cmd, params } => BusTx::CmdWithParams {
            cmd: unframe_data_cmd(cmd),
            params,
        },
        BusTx::Pixels { cmd, data, meta } => BusTx::Pixels {
            cmd: unframe_cmd(QSPI_OP_WRITE_RAM, cmd),
            data,
            meta,
        },
        BusTx::SetReset { level } => BusTx::SetReset { level },
        BusTx::Read { cmd, params } => BusTx::Read { cmd: unframe_cmd(QSPI_OP_READ, cmd), params },
    }
}

/// A whole log, unframed transaction by transaction.
pub open spec fn unframed(txs: Seq<BusTx>) -> Seq<BusTx> {
    txs.map_values(|t: BusTx| unframe_tx(t))
}

proof fn lemma_unframed_prefix(a: Seq<BusTx>, b: Seq<BusTx>)
    requires
        a.is_prefix_of(b),
    ensures
        unframed(a).is_prefix_of(unframed(b)),
{
    assert(unframed(a) =~= unframed(b).subrange(0, a.len() as int));
}

proof fn lemma_unframed_subrange(s: Seq<BusTx>, i: int, j: int)
    requires
        0 <= i <= j <= s.len(),
    ensures
        unframed(s).subrange(i, j) == unframed(s.subrange(i, j)),
{
    assert(unframed(s).subrange(i, j) =~= unframed(s.subrange(i, j)));
}

proof fn lemma_unframed_payload_total(s: Seq<BusTx>)
    ensures
        payload_total(unframed(s)) == payload_total(s),
    decreases s.len(),
{
    if s.len() > 0 {
        lemma_unframed_payload_total(s.drop_last());
        assert(unframed(s).drop_last() =~= unframed(s.drop_last()));
        assert(unframed(s).last() == unframe_tx(s.last()));
        assert(tx_payload(unframe_tx(s.last())) == tx_payload(s.last()));
    }
}

/// An adapter that bridges a standard [`DisplayBus`] to a QSPI-connected
/// display that emulates a SPI flash memory interface.
///
/// The adapter's own log records the commands as its callers issued them;
/// the wrapped bus's log shows the four-byte frames on the wire. Because a
/// transaction whose command is not a well-formed frame unframes to no
/// command, the adapter's contracts pin the wire frames exactly.
pub struct QspiFlashBus<B: DisplayBus> {
    /// The wrapped bus that sees the framed commands.
    pub inner: B,
}

impl<B: DisplayBus> QspiFlashBus<B> {
    /// Creates a new QspiFlashBus wrapper.
    pub fn new(inner: B) -> (r: QspiFlashBus<B>)
        ensures
            r.inner == inner,
    {
        QspiFlashBus { inner }
    }

    /// Formats a command for QSPI transfer. This is used for common write
    /// commands except the RAM write.
    pub fn to_cmd_and_addr_command(&self, cmd: u8) -> (r: [u8; 4])
        ensures
            r@ == qspi_frame(QSPI_OP_COMMAND, cmd),
    {
        let r = [QSPI_OP_COMMAND, 0x00, cmd, 0x00];
        proof {
            assert(r@ =~= qspi_frame(QSPI_OP_COMMAND, cmd));
        }
        r
    }

    /// Formats a command for QSPI transfer. This is used for the RAM write
    /// command.
    pub fn to_cmd_and_addr_write_ram(&self, cmd: u8) -> (r: [u8; 4])
        ensures
            r@ == qspi_frame(QSPI_OP_WRITE_RAM, cmd),
    {
        let r = [QSPI_OP_WRITE_RAM, 0x00, cmd, 0x00];
        proof {
            assert(r@ =~= qspi_frame(QSPI_OP_WRITE_RAM, cmd));
        }
        r
    }

    /// Formats a command for QSPI transfer. This is used for read commands.
    pub fn to_cmd_and_addr_read(&self, cmd: u8) -> (r: [u8; 4])
        ensures
            r@ == qspi_frame(QSPI_OP_READ, cmd),
    {
        let r = [QSPI_OP_READ, 0x00, cmd, 0x00];
        proof {
            assert(r@ =~= qspi_frame(QSPI_OP_READ, cmd));
        }
        r
    }
}

impl<B: DisplayBus> ErrorType for QspiFlashBus<B> {
    type Error = B::Error;
}

impl<B: DisplayBus> DisplayBus for QspiFlashBus<B> {
    open spec fn log(&self) -> Seq<BusTx> {
        unframed(self.inner.log())
    }

    open spec fn spec_cmd_ok(cmd: Seq<u8>) -> bool {
        &&& cmd.len() == 1
        &&& B::spec_cmd_ok(qspi_frame(QSPI_OP_COMMAND, cmd[0]))
        &&& B::spec_cmd_ok(qspi_frame(QSPI_OP_WRITE_RAM, cmd[0]))
        &&& B::spec_cmd_ok(qspi_frame(QSPI_OP_READ, cmd[0]))
    }

    open spec fn spec_reset_supported() -> bool {
        B::spec_reset_supported()
    }

    fn write_cmd(&mut self, cmd: &[u8]) -> (r: Result<(), Self::Error>) {
        let ghost pre = self.inner.log();
        let framed = self.to_cmd_and_addr_command(cmd[0]);
        let r = self.inner.write_cmd(framed.as_slice());
        proof {
            if r is Ok {
                lemma_map_values_push(pre, |t: BusTx| unframe_tx(t), BusTx::Cmd { cmd: framed@ });
                assert(is_qspi_frame(QSPI_OP_COMMAND, framed@));
                assert(unframe_cmd(QSPI_OP_COMMAND, framed@) =~= cmd@);
            } else {
                lemma_unframed_prefix(pre, self.inner.log());
            }
        }
        r
    }

    fn write_cmd_with_params(&mut self, cmd: &[u8], params: &[u8]) -> (r: Result<
        (),
        Self::Error,
    >) {
        let ghost pre = self.inner.log();
        let framed = self.to_cmd_and_addr_command(cmd[0]);
        let r = self.inner.write_cmd_with_params(framed.as_slice(), params);
        proof {
            if r is Ok {
                lemma_map_values_push(
                    pre,
                    |t: BusTx| unframe_tx(t),
                    BusTx::CmdWithParams { cmd: framed@, params: params@ },
                );
                assert(is_qspi_frame(QSPI_OP_COMMAND, framed@));
                assert(unframe_data_cmd(framed@) =~= cmd@);
            } else {
                lemma_unframed_prefix(pre, self.inner.log());
            }
        }
        r
    }

    fn write_pixels(&mut self, cmd: &[u8], data: &[u8], metadata: Metadata) -> (r: Result<
        (),
        DisplayError<Self::Error>,
    >) {
        let ghost pre = self.inner.log();
        let framed = self.to_cmd_and_addr_write_ram(cmd[0]);
        let r = self.inner.write_pixels(framed.as_slice(), data, metadata);
        proof {
            lemma_unframed_prefix(pre, self.inner.log());
            if r is Ok {
                let now = self.inner.log();
                assert(unframed(now).last() == unframe_tx(now.last()));
                assert(is_qspi_frame(QSPI_OP_COMMAND, framed@) == false);
                assert(is_qspi_frame(QSPI_OP_WRITE_RAM, framed@));
                assert(unframe_cmd(QSPI_OP_WRITE_RAM, framed@) =~= cmd@);
                assert(unframe_data_cmd(framed@) =~= cmd@);
            }
        }
        r
    }

    fn set_reset(&mut self, reset: bool) -> (r: Result<(), DisplayError<Self::Error>>) {
        let ghost pre = self.inner.log();
        let r = self.inner.set_reset(reset);
        proof {
            if r is Ok {
                lemma_map_values_push(
                    pre,
                    |t: BusTx| unframe_tx(t),
                    BusTx::SetReset { level: reset },
                );
            }
        }
        r
    }
}

impl<B: DisplayBus + BusHardwareFill> BusHardwareFill for QspiFlashBus<B> {
    fn fill_solid(&mut self, cmd: &[u8], color: SolidColor, area: Area) -> (r: Result<
        (),
        DisplayError<Self::Error>,
    >) {
        let ghost pre = self.inner.log();
        let framed = self.to_cmd_and_addr_write_ram(cmd[0]);
        let r = self.inner.fill_solid(framed.as_slice(), color, area);
        proof {
            lemma_unframed_prefix(pre, self.inner.log());
            if r is Ok {
                let now = self.inner.log();
                let appended = now.subrange(pre.len() as int, now.len() as int);
                lemma_unframed_subrange(now, pre.len() as int, now.len() as int);
                lemma_unframed_payload_total(appended);
                assert(is_qspi_frame(QSPI_OP_WRITE_RAM, framed@));
                assert(unframe_cmd(QSPI_OP_WRITE_RAM, framed@) =~= cmd@);
                assert(unframe_data_cmd(framed@) =~= cmd@);
                assert(forall|i: int|
                    0 <= i < unframed(appended).len() ==> #[trigger] unframed(appended)[i]
                        == unframe_tx(appended[i]));
                assert forall|i: int| 0 <= i < unframed(appended).len() implies is_color_chunk(
                    #[trigger] unframed(appended)[i],
                    color.spec_wire_bytes(),
                ) && tx_cmd(unframed(appended)[i]) == Some(cmd@) by {
                    assert(is_color_chunk(appended[i], color.spec_wire_bytes()));
                    assert(tx_cmd(appended[i]) == Some(framed@));
                    assert(tx_payload(unframe_tx(appended[i])) == tx_payload(appended[i]));
                }
            }
        }
        r
    }
}

impl<B: DisplayBus + BusRead> BusRead for QspiFlashBus<B> {
    fn read_data(&mut self, cmd: &[u8], params: &[u8], buffer: &mut Vec<u8>) -> (r: Result<
        (),
        DisplayError<Self::Error>,
    >) {
        let ghost pre = self.inner.log();
        let framed = self.to_cmd_and_addr_read(cmd[0]);
        let r = self.inner.read_data(framed.as_slice(), params, buffer);
        proof {
            if r is Ok {
                lemma_map_values_push(
                    pre,
                    |t: BusTx| unframe_tx(t),
                    BusTx::Read { cmd: framed@, params: params@ },
                );
                assert(is_qspi_frame(QSPI_OP_READ, framed@));
                assert(unframe_cmd(QSPI_OP_READ, framed@) =~= cmd@);
            } else {
                lemma_unframed_prefix(pre, self.inner.log());
            }
        }
        r
    }
}

} // verus!
