//! The transport contract: bus traits and the transaction model their
//! specifications are written against.
//!
//! Every bus carries a ghost log of the transactions it has performed, as a
//! `Seq<BusTx>`. A contract on a bus operation states how the call extends
//! that log; decorators state how their own log relates to the wrapped bus's.

use vstd::prelude::*;

use crate::DisplayError;
use crate::area::Area;
use crate::color::SolidColor;

pub mod batch_fill;
pub mod qspi_flash;
pub mod recording;
pub mod simple;
pub mod spi;

verus! {

/// Flags for frame synchronization (start/end of frame).
#[derive(Debug, Clone, Copy, PartialEq, Eq, Default)]
pub struct FrameControl {
    /// This transfer begins a logical frame.
    pub first: bool,
    /// This transfer ends a logical frame.
    pub last: bool,
}

impl FrameControl {
    /// A transfer that is a whole frame by itself.
    pub fn new_standalone() -> (r: FrameControl)
        ensures
            r == (FrameControl { first: true, last: true }),
    {
        FrameControl { first: true, last: true }
    }

    /// A transfer that begins, but does not end, a frame.
    pub fn new_first() -> (r: FrameControl)
        ensures
            r == (FrameControl { first: true, last: false }),
    {
        FrameControl { first: true, last: false }
    }

    /// A transfer that ends, but does not begin, a frame.
    pub fn new_last() -> (r: FrameControl)
        ensures
            r == (FrameControl { first: false, last: true }),
    {
        FrameControl { first: false, last: true }
    }
}

/// Metadata about a pixel data transfer.
///
/// Advanced display buses often require more context than the raw pixel
/// bytes; this struct carries that side-band information.
#[derive(Debug, Clone, Copy, PartialEq, Eq)]
pub struct Metadata {
    /// The rectangular area on the display this data corresponds to.
    ///
    /// If `Some`, the bus may use this to set the active window before
    /// sending data. If `None`, the data continues the previous stream.
    pub area: Option<Area>,
    /// Flags for frame synchronization (start/end of frame).
    pub frame_control: FrameControl,
}

impl Metadata {
    /// Metadata for a full screen update: whole area, standalone frame.
    pub fn new_full_screen(w: u16, h: u16) -> (r: Metadata)
        ensures
            r.area == Some(Area { x: 0u16, y: 0u16, w, h }),
            r.frame_control == (FrameControl { first: true, last: true }),
    {
        Metadata {
            area: Some(Area { x: 0, y: 0, w, h }),
            frame_control: FrameControl { first: true, last: true },
        }
    }

    /// Metadata for continuing a stream of pixel data without resetting the
    /// area or frame markers.
    pub fn new_continue_stream() -> (r: Metadata)
        ensures
            r.area is None,
            r.frame_control == (FrameControl { first: false, last: false }),
    {
        Metadata {
            area: None,
            frame_control: FrameControl { first: false, last: false },
        }
    }

    /// Metadata with explicit area and frame control settings.
    pub fn new_from_parts(area: Option<Area>, frame_control: FrameControl) -> (r: Metadata)
        ensures
            r == (Metadata { area, frame_control }),
    {
        Metadata { area, frame_control }
    }
}

/// One transaction as seen at a bus boundary; the element type of a bus's
/// ghost log.
pub enum BusTx {
    /// A bare command.
    Cmd { cmd: Seq<u8> },
    /// A command followed atomically by its parameter bytes.
    CmdWithParams { cmd: Seq<u8>, params: Seq<u8> },
    /// A pixel-data write with its side-band metadata.
    Pixels { cmd: Seq<u8>, data: Seq<u8>, meta: Metadata },
    /// The reset line driven to a level.
    SetReset { level: bool },
    /// A read request issued with a command and parameters.
    Read { cmd: Seq<u8>, params: Seq<u8> },
}

/// One operation as seen by a byte-stream transport: such a transport only
/// distinguishes command bytes from data bytes.
pub enum SimpleOp {
    /// Command bytes.
    Cmds { cmd: Seq<u8> },
    /// Data bytes.
    Data { data: Seq<u8> },
    /// The reset line driven to a level.
    Reset { level: bool },
}

/// The payload bytes a transaction carries after its command, if any.
pub open spec fn tx_payload(t: BusTx) -> Option<Seq<u8>> {
    match t {
        BusTx::Cmd { .. } => None,
        BusTx::CmdWithParams { params, .. } => Some(params),
        BusTx::Pixels { data, .. } => Some(data),
        BusTx::SetReset { .. } => None,
        BusTx::Read { .. } => None,
    }
}

/// Whether a transaction is a pixel write of `data` under `cmd`: either a
/// metadata-carrying pixel transaction, or — on a byte-stream transport that
/// cannot carry metadata — the same bytes as command-plus-data.
pub open spec fn is_pixel_write(t: BusTx, cmd: Seq<u8>, data: Seq<u8>, meta: Metadata) -> bool {
    t == (BusTx::Pixels { cmd, data, meta }) || t == (BusTx::CmdWithParams { cmd, params: data })
}

/// `d` is some whole number of repetitions of the pattern `color`.
pub open spec fn is_repeat_of(d: Seq<u8>, color: Seq<u8>) -> bool {
    &&& color.len() > 0
    &&& d.len() % color.len() == 0
    &&& forall|i: int| 0 <= i < d.len() ==> d[i] == color[i % color.len() as int]
}

/// The command a transaction announces, if any.
pub open spec fn tx_cmd(t: BusTx) -> Option<Seq<u8>> {
    match t {
        BusTx::Cmd { cmd } => Some(cmd),
        BusTx::CmdWithParams { cmd, .. } => Some(cmd),
        BusTx::Pixels { cmd, .. } => Some(cmd),
        BusTx::SetReset { .. } => None,
        BusTx::Read { cmd, .. } => Some(cmd),
    }
}

/// A transaction whose payload is a run of `color` pixels.
pub open spec fn is_color_chunk(t: BusTx, color: Seq<u8>) -> bool {
    match tx_payload(t) {
        Some(d) => is_repeat_of(d, color),
        None => false,
    }
}

/// Total payload bytes across a sequence of transactions.
pub open spec fn payload_total(txs: Seq<BusTx>) -> nat
    decreases txs.len(),
{
    if txs.len() == 0 {
        0
    } else {
        payload_total(txs.drop_last()) + match tx_payload(txs.last()) {
            Some(d) => d.len(),
            None => 0,
        }
    }
}

/// The transactions appended to a log realize a solid fill of `total_px`
/// pixels of `color` under the command `cmd`: every transaction announces
/// that command and carries a run of that color, and the payloads sum to
/// exactly `total_px` pixels.
pub open spec fn is_fill_chunks(txs: Seq<BusTx>, cmd: Seq<u8>, color: Seq<u8>, total_px: nat) -> bool {
    &&& forall|i: int| 0 <= i < txs.len() ==> is_color_chunk(#[trigger] txs[i], color)
    &&& forall|i: int| 0 <= i < txs.len() ==> tx_cmd(#[trigger] txs[i]) == Some(cmd)
    &&& payload_total(txs) == total_px * color.len()
}

/// How a burst of data bytes advances a transaction log.
///
/// Data bytes attach to the most recent command on the wire: that is what the
/// hardware itself sees on a transport without atomic command/parameter
/// framing.
pub open spec fn data_step(log: Seq<BusTx>, d: Seq<u8>) -> Seq<BusTx> {
    if log.len() == 0 {
        log.push(BusTx::CmdWithParams { cmd: Seq::empty(), params: d })
    } else {
        match log.last() {
            BusTx::Cmd { cmd } => log.update(
                log.len() - 1,
                BusTx::CmdWithParams { cmd, params: d },
            ),
            BusTx::CmdWithParams { cmd, params } => log.update(
                log.len() - 1,
                BusTx::CmdWithParams { cmd, params: params + d },
            ),
            BusTx::Pixels { cmd, data, meta } => log.update(
                log.len() - 1,
                BusTx::Pixels { cmd, data: data + d, meta },
            ),
            _ => log.push(BusTx::CmdWithParams { cmd: Seq::empty(), params: d }),
        }
    }
}

/// How one byte-stream operation advances a transaction log.
pub open spec fn stream_step(acc: Seq<BusTx>, op: SimpleOp) -> Seq<BusTx> {
    match op {
        SimpleOp::Cmds { cmd } => acc.push(BusTx::Cmd { cmd }),
        SimpleOp::Data { data } => data_step(acc, data),
        SimpleOp::Reset { level } => acc.push(BusTx::SetReset { level }),
    }
}

/// The transaction log a byte-stream history amounts to.
pub open spec fn txs_of_stream(s: Seq<SimpleOp>) -> Seq<BusTx>
    decreases s.len(),
{
    if s.len() == 0 {
        Seq::empty()
    } else {
        stream_step(txs_of_stream(s.drop_last()), s.last())
    }
}

/// `n` repetitions of the pattern `color`, concatenated.
pub open spec fn repeat_bytes(color: Seq<u8>, n: nat) -> Seq<u8>
    decreases n,
{
    if n == 0 {
        Seq::empty()
    } else {
        repeat_bytes(color, (n - 1) as nat) + color
    }
}

/// Length of a repeated pattern.
pub proof fn lemma_repeat_bytes_len(color: Seq<u8>, n: nat)
    ensures
        repeat_bytes(color, n).len() == n * color.len(),
    decreases n,
{
    if n == 0 {
        assert(n * color.len() == 0) by (nonlinear_arith)
            requires
                n == 0,
        ;
    } else {
        lemma_repeat_bytes_len(color, (n - 1) as nat);
        let l = color.len() as int;
        let k = n as int;
        assert((k - 1) * l + l == k * l) by (nonlinear_arith);
        assert(repeat_bytes(color, n).len() == (k - 1) * l + l);
    }
}

/// Each byte of a repeated pattern is the pattern byte at the wrapped index.
pub proof fn lemma_repeat_bytes_index(color: Seq<u8>, n: nat, i: int)
    requires
        color.len() >= 1,
        0 <= i < repeat_bytes(color, n).len(),
    ensures
        repeat_bytes(color, n)[i] == color[i % color.len() as int],
    decreases n,
{
    lemma_repeat_bytes_len(color, n);
    let l = color.len() as int;
    if n > 0 {
        lemma_repeat_bytes_len(color, (n - 1) as nat);
        if i < (n - 1) * l {
            lemma_repeat_bytes_index(color, (n - 1) as nat, i);
        } else {
            assert(repeat_bytes(color, n)[i] == color[i - (n - 1) * l]);
            assert(i % l == i - (n - 1) * l) by (nonlinear_arith)
                requires
                    l >= 1,
                    (n - 1) * l <= i < (n - 1) * l + l,
            ;
        }
    }
}

/// A repeated pattern is a repetition of its pattern.
pub proof fn lemma_repeat_is_repeat_of(color: Seq<u8>, n: nat)
    requires
        color.len() >= 1,
    ensures
        is_repeat_of(repeat_bytes(color, n), color),
    decreases n,
{
    lemma_repeat_bytes_len(color, n);
    let l = color.len() as int;
    assert((n * color.len()) % color.len() == 0) by (nonlinear_arith)
        requires
            color.len() >= 1,
    ;
    assert forall|i: int| 0 <= i < repeat_bytes(color, n).len() implies repeat_bytes(color, n)[i]
        == color[i % l] by {
        lemma_repeat_bytes_index(color, n, i);
    }
}

/// A prefix of a repetition that ends on a pattern boundary is itself a
/// repetition.
pub proof fn lemma_repeat_bytes_prefix(color: Seq<u8>, n: nat, m: nat)
    requires
        color.len() >= 1,
        n <= m,
    ensures
        repeat_bytes(color, m).subrange(0, n * color.len() as int) == repeat_bytes(color, n),
    decreases m,
{
    lemma_repeat_bytes_len(color, m);
    lemma_repeat_bytes_len(color, n);
    assert(n * color.len() <= m * color.len()) by (nonlinear_arith)
        requires
            n <= m,
            color.len() >= 0,
    ;
    if m > n {
        lemma_repeat_bytes_prefix(color, n, (m - 1) as nat);
        lemma_repeat_bytes_len(color, (m - 1) as nat);
        assert(n * color.len() <= (m - 1) * color.len()) by (nonlinear_arith)
            requires
                n <= m - 1,
                color.len() >= 0,
        ;
        assert(repeat_bytes(color, m).subrange(0, n * color.len() as int) =~= repeat_bytes(
            color,
            (m - 1) as nat,
        ).subrange(0, n * color.len() as int));
    } else {
        assert(repeat_bytes(color, m).subrange(0, n * color.len() as int) =~= repeat_bytes(color, n));
    }
}

/// Repetitions concatenate: `m + n` repetitions are `m` followed by `n`.
pub proof fn lemma_repeat_bytes_add(color: Seq<u8>, m: nat, n: nat)
    ensures
        repeat_bytes(color, m + n) == repeat_bytes(color, m) + repeat_bytes(color, n),
    decreases n,
{
    if n == 0 {
        assert(repeat_bytes(color, m) + repeat_bytes(color, 0) =~= repeat_bytes(color, m));
    } else {
        lemma_repeat_bytes_add(color, m, (n - 1) as nat);
        assert(repeat_bytes(color, m + n) == repeat_bytes(color, (m + n - 1) as nat) + color);
        assert(repeat_bytes(color, m) + (repeat_bytes(color, (n - 1) as nat) + color)
            =~= (repeat_bytes(color, m) + repeat_bytes(color, (n - 1) as nat)) + color);
    }
}

/// Builds `n` repetitions of a byte pattern.
pub fn make_repeat(color: &[u8], n: usize) -> (r: Vec<u8>)
    requires
        color@.len() >= 1,
        n * color@.len() <= usize::MAX,
    ensures
        r@ == repeat_bytes(color@, n as nat),
{
    let ps = color.len();
    let mut out: Vec<u8> = Vec::new();
    proof {
        assert(out@ =~= repeat_bytes(color@, 0));
    }
    let mut i: usize = 0;
    while i < n
        invariant
            i <= n,
            ps == color@.len(),
            ps >= 1,
            n * ps <= usize::MAX,
            out@ == repeat_bytes(color@, i as nat),
        decreases n - i,
    {
        let mut j: usize = 0;
        proof {
            assert(out@ =~= repeat_bytes(color@, i as nat) + color@.subrange(0, 0));
        }
        while j < ps
            invariant
                j <= ps,
                i < n,
                ps == color@.len(),
                ps >= 1,
                n * ps <= usize::MAX,
                out@ == repeat_bytes(color@, i as nat) + color@.subrange(0, j as int),
            decreases ps - j,
        {
            out.push(color[j]);
            proof {
                assert(out@ =~= repeat_bytes(color@, i as nat) + color@.subrange(0, j + 1));
            }
            j += 1;
        }
        proof {
            assert(color@.subrange(0, ps as int) =~= color@);
            assert(out@ == repeat_bytes(color@, (i + 1) as nat));
        }
        i += 1;
    }
    out
}

/// A sequence is a prefix of itself.
pub proof fn lemma_prefix_refl(s: Seq<BusTx>)
    ensures
        s.is_prefix_of(s),
{
    assert(s =~= s.subrange(0, s.len() as int));
}

/// Pushing onto a sequence keeps every prefix of it a prefix.
pub proof fn lemma_prefix_push(s: Seq<BusTx>, t: Seq<BusTx>, x: BusTx)
    requires
        s.is_prefix_of(t),
    ensures
        s.is_prefix_of(t.push(x)),
{
    assert(t.push(x).subrange(0, s.len() as int) =~= t.subrange(0, s.len() as int));
}

/// A sequence is a prefix of itself followed by anything.
pub proof fn lemma_prefix_concat(a: Seq<BusTx>, b: Seq<BusTx>)
    ensures
        a.is_prefix_of(a + b),
{
    assert((a + b).subrange(0, a.len() as int) =~= a);
}

/// Prefix order is transitive.
pub proof fn lemma_prefix_trans(a: Seq<BusTx>, b: Seq<BusTx>, c: Seq<BusTx>)
    requires
        a.is_prefix_of(b),
        b.is_prefix_of(c),
    ensures
        a.is_prefix_of(c),
{
    assert(c.subrange(0, a.len() as int) =~= b.subrange(0, a.len() as int));
    assert(b.subrange(0, a.len() as int) =~= a);
}

/// `map_values` distributes over `push`.
pub proof fn lemma_map_values_push<A, B>(s: Seq<A>, f: spec_fn(A) -> B, x: A)
    ensures
        s.push(x).map_values(f) == s.map_values(f).push(f(x)),
{
    assert(s.push(x).map_values(f) =~= s.map_values(f).push(f(x)));
}

/// Unfolds `txs_of_stream` over one appended operation.
pub proof fn lemma_txs_of_stream_push(s: Seq<SimpleOp>, op: SimpleOp)
    ensures
        txs_of_stream(s.push(op)) == stream_step(txs_of_stream(s), op),
{
    assert(s.push(op).drop_last() =~= s);
    assert(s.push(op).last() == op);
}

/// Error type trait.
///
/// This just defines the error type, to be used by the other traits.
pub trait ErrorType {
    /// Error type.
    type Error;
}

/// The core interface for all display bus implementations.
///
/// This trait is the abstraction layer between high-level drawing logic and
/// the low-level transport protocol. It distinguishes commands — small,
/// latency-sensitive configuration messages — from pixels — large,
/// throughput-critical data streams.
///
/// `spec_cmd_ok` says which command encodings the bus accepts; a framing
/// decorator narrows it. `log` is the ghost record of performed transactions.
/// On failure an operation may have put a partial transaction on the wire,
/// so the old log is only promised to remain a prefix of the new one.
pub trait DisplayBus: ErrorType + Sized {
    /// The transactions this bus has performed.
    spec fn log(&self) -> Seq<BusTx>;

    /// Which command encodings this bus accepts.
    spec fn spec_cmd_ok(cmd: Seq<u8>) -> bool;

    /// Whether this bus can drive a reset line.
    spec fn spec_reset_supported() -> bool;

    /// Writes a command to the display.
    fn write_cmd(&mut self, cmd: &[u8]) -> (r: Result<(), Self::Error>)
        requires
            Self::spec_cmd_ok(cmd@),
        ensures
            r is Ok ==> final(self).log() == old(self).log().push(BusTx::Cmd { cmd: cmd@ }),
            r is Err ==> old(self).log().is_prefix_of(final(self).log()),
    ;

    /// Writes a command followed immediately by its parameters, as one
    /// uninterruptible transaction.
    fn write_cmd_with_params(&mut self, cmd: &[u8], params: &[u8]) -> (r: Result<
        (),
        Self::Error,
    >)
        requires
            Self::spec_cmd_ok(cmd@),
        ensures
            r is Ok ==> final(self).log() == old(self).log().push(
                BusTx::CmdWithParams { cmd: cmd@, params: params@ },
            ),
            r is Err ==> old(self).log().is_prefix_of(final(self).log()),
    ;

    /// Writes a stream of pixel data to the display.
    ///
    /// The transaction that lands in the log carries the metadata if the
    /// transport can, and is plain command-plus-data bytes if it cannot.
    fn write_pixels(&mut self, cmd: &[u8], data: &[u8], metadata: Metadata) -> (r: Result<
        (),
        DisplayError<Self::Error>,
    >)
        requires
            Self::spec_cmd_ok(cmd@),
        ensures
            r is Ok ==> {
                &&& final(self).log().len() == old(self).log().len() + 1
                &&& old(self).log().is_prefix_of(final(self).log())
                &&& is_pixel_write(final(self).log().last(), cmd@, data@, metadata)
            },
            r is Err ==> old(self).log().is_prefix_of(final(self).log()),
            r matches Err(e) ==> e is BusError,
    ;

    /// Drives the screen's reset line via the bus (optional capability).
    fn set_reset(&mut self, reset: bool) -> (r: Result<(), DisplayError<Self::Error>>)
        ensures
            !Self::spec_reset_supported() ==> r == Err::<(), DisplayError<Self::Error>>(
                DisplayError::Unsupported,
            ) && final(self).log() == old(self).log(),
            r is Ok ==> final(self).log() == old(self).log().push(
                BusTx::SetReset { level: reset },
            ),
            r is Err ==> final(self).log() == old(self).log(),
    ;
}

/// An optional trait for buses that can fill a region with a solid color
/// without the caller iterating pixel by pixel.
pub trait BusHardwareFill: DisplayBus {
    /// Fills `area` with `color`, announced by `cmd`.
    ///
    /// On success every transaction appended to the log announces `cmd` and
    /// they carry, between them, exactly `area.w * area.h` repetitions of the
    /// color's wire bytes. An implementation may refuse a fill it cannot
    /// satisfy with `InvalidArgs`; transport failures surface as `BusError`.
    fn fill_solid(&mut self, cmd: &[u8], color: SolidColor, area: Area) -> (r: Result<
        (),
        DisplayError<Self::Error>,
    >)
        requires
            Self::spec_cmd_ok(cmd@),
            area.w >= 1,
            area.h >= 1,
            area.x + area.w - 1 <= u16::MAX,
            area.y + area.h - 1 <= u16::MAX,
        ensures
            old(self).log().is_prefix_of(final(self).log()),
            r is Ok ==> is_fill_chunks(
                final(self).log().subrange(
                    old(self).log().len() as int,
                    final(self).log().len() as int,
                ),
                cmd@,
                color.spec_wire_bytes(),
                area.spec_total_pixels(),
            ),
            r matches Err(e) ==> (e is InvalidArgs || e is BusError),
    ;
}

/// An optional trait for buses that support reading data back from the
/// display. Nothing is promised about the bytes read: they come from the
/// hardware.
pub trait BusRead: DisplayBus {
    /// Reads data from the display into `buffer`, after issuing `cmd` and
    /// `params`.
    fn read_data(&mut self, cmd: &[u8], params: &[u8], buffer: &mut Vec<u8>) -> (r: Result<
        (),
        DisplayError<Self::Error>,
    >)
        requires
            Self::spec_cmd_ok(cmd@),
        ensures
            final(buffer)@.len() == old(buffer)@.len(),
            r is Ok ==> final(self).log() == old(self).log().push(
                BusTx::Read { cmd: cmd@, params: params@ },
            ),
            r is Err ==> old(self).log().is_prefix_of(final(self).log()),
    ;
}

/// An optional trait for buses that expose non-atomic command and data
/// writing: separate byte-stream transactions whose data attaches to the most
/// recent command on the wire.
pub trait BusBytesIo: DisplayBus {
    /// Writes a sequence of command bytes to the bus.
    fn write_cmd_bytes(&mut self, cmd: &[u8]) -> (r: Result<(), Self::Error>)
        requires
            Self::spec_cmd_ok(cmd@),
        ensures
            r is Ok ==> final(self).log() == old(self).log().push(BusTx::Cmd { cmd: cmd@ }),
            r is Err ==> final(self).log() == old(self).log(),
    ;

    /// Writes a sequence of data bytes to the bus.
    fn write_data_bytes(&mut self, data: &[u8]) -> (r: Result<(), Self::Error>)
        ensures
            r is Ok ==> final(self).log() == data_step(old(self).log(), data@),
            r is Err ==> final(self).log() == old(self).log(),
    ;
}

/// A simplified interface for display buses that have no atomic
/// command-with-parameters transaction, no frame control and no region
/// information: plain byte streams (standard SPI, I2C).
///
/// Implementors only define how to send raw command bytes and raw data
/// bytes; blanket implementations promote any such transport to the full
/// [`DisplayBus`] contract.
pub trait SimpleDisplayBus: ErrorType + Sized {
    /// The byte-stream operations this transport has performed.
    spec fn stream(&self) -> Seq<SimpleOp>;

    /// Which command encodings this transport accepts.
    spec fn spec_cmd_ok(cmd: Seq<u8>) -> bool;

    /// Whether this transport can drive a reset line.
    spec fn spec_reset_supported() -> bool;

    /// Writes a sequence of command bytes.
    fn write_cmds(&mut self, cmd: &[u8]) -> (r: Result<(), Self::Error>)
        requires
            Self::spec_cmd_ok(cmd@),
        ensures
            r is Ok ==> final(self).stream() == old(self).stream().push(
                SimpleOp::Cmds { cmd: cmd@ },
            ),
            r is Err ==> final(self).stream() == old(self).stream(),
    ;

    /// Writes a sequence of data bytes.
    fn write_data(&mut self, data: &[u8]) -> (r: Result<(), Self::Error>)
        ensures
            r is Ok ==> final(self).stream() == old(self).stream().push(
                SimpleOp::Data { data: data@ },
            ),
            r is Err ==> final(self).stream() == old(self).stream(),
    ;

    /// Drives the screen's reset line (optional capability).
    fn set_reset(&mut self, reset: bool) -> (r: Result<(), DisplayError<Self::Error>>)
        ensures
            !Self::spec_reset_supported() ==> r == Err::<(), DisplayError<Self::Error>>(
                DisplayError::Unsupported,
            ) && final(self).stream() == old(self).stream(),
            r is Ok ==> final(self).stream() == old(self).stream().push(
                SimpleOp::Reset { level: reset },
            ),
            r is Err ==> final(self).stream() == old(self).stream(),
    ;
}

} // verus!
