//! Software batched solid fill over a fixed-size transfer buffer.
//!
//! [`BatchFillBus`] wraps an inner bus and reimplements solid filling only;
//! every other operation forwards unchanged. The split of an area into
//! sub-transactions is given by the spec functions [`strict_plan`] and
//! [`flat_plan`], and the laws about them — exact coverage with no overlap
//! and no gap, exact pixel totals — are proved below.

use vstd::prelude::*;

use crate::DisplayError;
use crate::area::Area;
use crate::bus::{
    BusHardwareFill, BusRead, BusTx, DisplayBus, ErrorType, FrameControl, Metadata,
    is_color_chunk, is_fill_chunks, is_pixel_write, lemma_repeat_bytes_len,
    lemma_repeat_is_repeat_of, make_repeat, payload_total, tx_cmd, tx_payload,
    repeat_bytes,
};
use crate::color::SolidColor;

verus! {

/// One planned sub-transaction of a strict fill: a rectangle of whole pixels.
///
/// Coordinates are unbounded here; the plans only ever produce chunks inside
/// the (u16-ranged) area they are given.
pub struct FillChunk {
    /// Left edge.
    pub x: int,
    /// Top edge.
    pub y: int,
    /// Width in pixels.
    pub w: int,
    /// Height in rows.
    pub h: int,
}

/// Pixels covered by one chunk.
pub open spec fn chunk_px(c: FillChunk) -> int {
    c.w * c.h
}

/// The chunk as a concrete area.
pub open spec fn chunk_area(c: FillChunk) -> Area {
    Area { x: c.x as u16, y: c.y as u16, w: c.w as u16, h: c.h as u16 }
}

/// The metadata a strict fill attaches to one chunk: the chunk's own
/// rectangle, framed as a standalone transfer.
pub open spec fn chunk_meta(c: FillChunk) -> Metadata {
    Metadata { area: Some(chunk_area(c)), frame_control: FrameControl { first: true, last: true } }
}

/// Splitting one row of `w` pixels at `(x, y)` into runs of at most `maxp`
/// pixels, left to right.
pub open spec fn row_split(x: int, y: int, w: int, maxp: int) -> Seq<FillChunk>
    decreases w,
{
    if w <= 0 || maxp <= 0 {
        Seq::empty()
    } else if w <= maxp {
        seq![FillChunk { x, y, w, h: 1 }]
    } else {
        seq![FillChunk { x, y, w: maxp, h: 1 }] + row_split(x + maxp, y, w - maxp, maxp)
    }
}

/// The strict (row-exact) split of the `w × h` rectangle at `(x, y)` into
/// sub-rectangles, each of whose data fits in `cap` bytes at `ps` bytes per
/// pixel.
///
/// While whole rows fit in the buffer, rows are batched vertically; a row
/// wider than the buffer is split horizontally into runs of
/// `cap / ps` pixels.
pub open spec fn strict_plan(x: int, y: int, w: int, h: int, ps: int, cap: int) -> Seq<FillChunk>
    decreases h,
    via strict_plan_dec
{
    if h <= 0 || w <= 0 || ps <= 0 || cap < ps {
        Seq::empty()
    } else if w * ps <= cap {
        let rows = vstd::math::min(h, cap / (w * ps));
        seq![FillChunk { x, y, w, h: rows }] + strict_plan(x, y + rows, w, h - rows, ps, cap)
    } else {
        row_split(x, y, w, cap / ps) + strict_plan(x, y + 1, w, h - 1, ps, cap)
    }
}

#[via_fn]
proof fn strict_plan_dec(x: int, y: int, w: int, h: int, ps: int, cap: int) {
    if !(h <= 0 || w <= 0 || ps <= 0 || cap < ps) {
        if w * ps <= cap {
            assert(w * ps >= 1) by (nonlinear_arith)
                requires
                    w >= 1,
                    ps >= 1,
            ;
            assert(cap / (w * ps) >= 1) by (nonlinear_arith)
                requires
                    1 <= w * ps <= cap,
            ;
        }
    }
}

/// The non-strict (flat-stream) split of `total` pixels into runs of at most
/// `maxp` pixels: every run but the last is full.
pub open spec fn flat_plan(total: int, maxp: int) -> Seq<int>
    decreases total,
{
    if total <= 0 || maxp <= 0 {
        Seq::empty()
    } else if total <= maxp {
        seq![total]
    } else {
        seq![maxp] + flat_plan(total - maxp, maxp)
    }
}

/// Sum of pixels over a strict plan.
pub open spec fn plan_px(p: Seq<FillChunk>) -> int
    decreases p.len(),
{
    if p.len() == 0 {
        0
    } else {
        plan_px(p.drop_last()) + chunk_px(p.last())
    }
}

/// Sum of pixels over a flat plan.
pub open spec fn flat_total(p: Seq<int>) -> int
    decreases p.len(),
{
    if p.len() == 0 {
        0
    } else {
        flat_total(p.drop_last()) + p.last()
    }
}

/// Whether the cell `(px, py)` lies in a chunk.
pub open spec fn in_chunk(c: FillChunk, px: int, py: int) -> bool {
    c.x <= px < c.x + c.w && c.y <= py < c.y + c.h
}

/// How many chunks of a plan cover the cell `(px, py)`.
pub open spec fn cover_count(p: Seq<FillChunk>, px: int, py: int) -> int
    decreases p.len(),
{
    if p.len() == 0 {
        0
    } else {
        cover_count(p.drop_last(), px, py) + if in_chunk(p.last(), px, py) {
            1int
        } else {
            0int
        }
    }
}

proof fn lemma_cover_count_concat(a: Seq<FillChunk>, b: Seq<FillChunk>, px: int, py: int)
    ensures
        cover_count(a + b, px, py) == cover_count(a, px, py) + cover_count(b, px, py),
    decreases b.len(),
{
    if b.len() == 0 {
        assert(a + b =~= a);
    } else {
        assert((a + b).drop_last() =~= a + b.drop_last());
        assert((a + b).last() == b.last());
        lemma_cover_count_concat(a, b.drop_last(), px, py);
    }
}

proof fn lemma_cover_count_singleton(c: FillChunk, px: int, py: int)
    ensures
        cover_count(seq![c], px, py) == if in_chunk(c, px, py) {
            1int
        } else {
            0int
        },
{
    let p = seq![c];
    assert(p.drop_last() =~= Seq::<FillChunk>::empty());
    assert(cover_count(p.drop_last(), px, py) == 0);
    assert(p.last() == c);
}

proof fn lemma_plan_px_concat(a: Seq<FillChunk>, b: Seq<FillChunk>)
    ensures
        plan_px(a + b) == plan_px(a) + plan_px(b),
    decreases b.len(),
{
    if b.len() == 0 {
        assert(a + b =~= a);
    } else {
        assert((a + b).drop_last() =~= a + b.drop_last());
        assert((a + b).last() == b.last());
        lemma_plan_px_concat(a, b.drop_last());
    }
}

proof fn lemma_plan_px_singleton(c: FillChunk)
    ensures
        plan_px(seq![c]) == chunk_px(c),
{
    let p = seq![c];
    assert(p.drop_last() =~= Seq::<FillChunk>::empty());
    assert(plan_px(p.drop_last()) == 0);
    assert(p.last() == c);
}

proof fn lemma_flat_total_concat(a: Seq<int>, b: Seq<int>)
    ensures
        flat_total(a + b) == flat_total(a) + flat_total(b),
    decreases b.len(),
{
    if b.len() == 0 {
        assert(a + b =~= a);
    } else {
        assert((a + b).drop_last() =~= a + b.drop_last());
        assert((a + b).last() == b.last());
        lemma_flat_total_concat(a, b.drop_last());
    }
}

proof fn lemma_flat_total_singleton(n: int)
    ensures
        flat_total(seq![n]) == n,
{
    let p = seq![n];
    assert(p.drop_last() =~= Seq::<int>::empty());
    assert(flat_total(p.drop_last()) == 0);
    assert(p.last() == n);
}

/// A split row covers each cell of the row exactly once and no other cell.
proof fn lemma_row_split_cover(x: int, y: int, w: int, maxp: int, px: int, py: int)
    requires
        maxp >= 1,
    ensures
        cover_count(row_split(x, y, w, maxp), px, py) == if py == y && x <= px < x + w {
            1int
        } else {
            0int
        },
    decreases w,
{
    if w <= 0 {
        assert(cover_count(Seq::<FillChunk>::empty(), px, py) == 0);
    } else if w <= maxp {
        lemma_cover_count_singleton(FillChunk { x, y, w, h: 1 }, px, py);
    } else {
        let head = seq![FillChunk { x, y, w: maxp, h: 1 }];
        lemma_cover_count_concat(head, row_split(x + maxp, y, w - maxp, maxp), px, py);
        lemma_cover_count_singleton(FillChunk { x, y, w: maxp, h: 1 }, px, py);
        lemma_row_split_cover(x + maxp, y, w - maxp, maxp, px, py);
    }
}

/// A split row contains exactly the row's pixels.
proof fn lemma_row_split_px(x: int, y: int, w: int, maxp: int)
    requires
        maxp >= 1,
        w >= 0,
    ensures
        plan_px(row_split(x, y, w, maxp)) == w,
    decreases w,
{
    if w <= 0 {
        assert(plan_px(Seq::<FillChunk>::empty()) == 0);
    } else if w <= maxp {
        lemma_plan_px_singleton(FillChunk { x, y, w, h: 1 });
        assert(w * 1 == w) by (nonlinear_arith);
    } else {
        let head = seq![FillChunk { x, y, w: maxp, h: 1 }];
        lemma_plan_px_concat(head, row_split(x + maxp, y, w - maxp, maxp));
        lemma_plan_px_singleton(FillChunk { x, y, w: maxp, h: 1 });
        lemma_row_split_px(x + maxp, y, w - maxp, maxp);
        assert(maxp * 1 == maxp) by (nonlinear_arith);
    }
}

/// The strict plan covers each cell of the area exactly once, and covers no
/// cell outside it: no overlap, no gap.
///
/// This holds for every pixel size of at least one byte and every buffer
/// that holds at least one pixel.
pub proof fn lemma_strict_plan_partitions(
    x: int,
    y: int,
    w: int,
    h: int,
    ps: int,
    cap: int,
    px: int,
    py: int,
)
    requires
        w >= 1,
        h >= 0,
        ps >= 1,
        cap >= ps,
    ensures
        cover_count(strict_plan(x, y, w, h, ps, cap), px, py) == if x <= px < x + w && y <= py < y
            + h {
            1int
        } else {
            0int
        },
    decreases h,
{
    if h <= 0 {
        assert(cover_count(Seq::<FillChunk>::empty(), px, py) == 0);
    } else if w * ps <= cap {
        assert(w * ps >= 1) by (nonlinear_arith)
            requires
                w >= 1,
                ps >= 1,
        ;
        assert(cap / (w * ps) >= 1) by (nonlinear_arith)
            requires
                1 <= w * ps <= cap,
        ;
        let rows = vstd::math::min(h, cap / (w * ps));
        let head = seq![FillChunk { x, y, w, h: rows }];
        lemma_cover_count_concat(head, strict_plan(x, y + rows, w, h - rows, ps, cap), px, py);
        lemma_cover_count_singleton(FillChunk { x, y, w, h: rows }, px, py);
        lemma_strict_plan_partitions(x, y + rows, w, h - rows, ps, cap, px, py);
    } else {
        assert(cap / ps >= 1) by (nonlinear_arith)
            requires
                1 <= ps <= cap,
        ;
        lemma_cover_count_concat(
            row_split(x, y, w, cap / ps),
            strict_plan(x, y + 1, w, h - 1, ps, cap),
            px,
            py,
        );
        lemma_row_split_cover(x, y, w, cap / ps, px, py);
        lemma_strict_plan_partitions(x, y + 1, w, h - 1, ps, cap, px, py);
    }
}

/// The strict plan's pixel total is exactly the area's.
pub proof fn lemma_strict_plan_px(x: int, y: int, w: int, h: int, ps: int, cap: int)
    requires
        w >= 1,
        h >= 0,
        ps >= 1,
        cap >= ps,
    ensures
        plan_px(strict_plan(x, y, w, h, ps, cap)) == w * h,
    decreases h,
{
    if h <= 0 {
        assert(plan_px(Seq::<FillChunk>::empty()) == 0);
        assert(w * h == 0) by (nonlinear_arith)
            requires
                h == 0,
        ;
    } else if w * ps <= cap {
        assert(w * ps >= 1) by (nonlinear_arith)
            requires
                w >= 1,
                ps >= 1,
        ;
        assert(cap / (w * ps) >= 1) by (nonlinear_arith)
            requires
                1 <= w * ps <= cap,
        ;
        let rows = vstd::math::min(h, cap / (w * ps));
        let head = seq![FillChunk { x, y, w, h: rows }];
        lemma_plan_px_concat(head, strict_plan(x, y + rows, w, h - rows, ps, cap));
        lemma_plan_px_singleton(FillChunk { x, y, w, h: rows });
        lemma_strict_plan_px(x, y + rows, w, h - rows, ps, cap);
        assert(w * rows + w * (h - rows) == w * h) by (nonlinear_arith);
    } else {
        assert(cap / ps >= 1) by (nonlinear_arith)
            requires
                1 <= ps <= cap,
        ;
        lemma_plan_px_concat(row_split(x, y, w, cap / ps), strict_plan(x, y + 1, w, h - 1, ps, cap));
        lemma_row_split_px(x, y, w, cap / ps);
        lemma_strict_plan_px(x, y + 1, w, h - 1, ps, cap);
        assert(w + w * (h - 1) == w * h) by (nonlinear_arith);
    }
}

/// The flat plan's chunk sizes sum to exactly the pixel total, and every
/// chunk holds between one and `maxp` pixels.
pub proof fn lemma_flat_plan_total(total: int, maxp: int)
    requires
        total >= 0,
        maxp >= 1,
    ensures
        flat_total(flat_plan(total, maxp)) == total,
        forall|i: int| 0 <= i < flat_plan(total, maxp).len() ==> 1 <= #[trigger] flat_plan(
            total,
            maxp,
        )[i] <= maxp,
    decreases total,
{
    if total <= 0 {
        assert(flat_total(Seq::<int>::empty()) == 0);
    } else if total <= maxp {
        lemma_flat_total_singleton(total);
    } else {
        let head = seq![maxp];
        lemma_flat_total_concat(head, flat_plan(total - maxp, maxp));
        lemma_flat_total_singleton(maxp);
        lemma_flat_plan_total(total - maxp, maxp);
    }
}

/// The appended transactions are exactly the strict plan's chunks, in order:
/// the `i`-th transaction writes the `i`-th chunk's rectangle worth of color
/// repetitions under the fill command, tagged with that rectangle.
pub open spec fn strict_txs_match(
    txs: Seq<BusTx>,
    plan: Seq<FillChunk>,
    cmd: Seq<u8>,
    color: Seq<u8>,
) -> bool {
    &&& txs.len() == plan.len()
    &&& forall|i: int|
        0 <= i < txs.len() ==> is_pixel_write(
            #[trigger] txs[i],
            cmd,
            repeat_bytes(color, chunk_px(plan[i]) as nat),
            chunk_meta(plan[i]),
        )
}

/// The width tag a flat chunk carries: its own pixel count, clamped to the
/// 16-bit metadata field.
pub open spec fn flat_w_tag(n: int) -> u16 {
    if n >= 65535 {
        65535u16
    } else {
        n as u16
    }
}

/// The metadata a flat fill attaches to one run: the area's origin — best
/// effort, since row boundaries are ignored — with the run's pixel count as
/// the width tag and height one, framed as a standalone transfer.
pub open spec fn flat_chunk_meta(origin: Area, n: int) -> Metadata {
    Metadata {
        area: Some(Area { x: origin.x, y: origin.y, w: flat_w_tag(n), h: 1u16 }),
        frame_control: FrameControl { first: true, last: true },
    }
}

/// The appended transactions are exactly the flat plan's runs, in order: the
/// `i`-th transaction writes the `i`-th run's worth of color repetitions
/// under the fill command, tagged width = run size (clamped), height = 1.
pub open spec fn flat_txs_match(
    txs: Seq<BusTx>,
    plan: Seq<int>,
    cmd: Seq<u8>,
    color: Seq<u8>,
    origin: Area,
) -> bool {
    &&& txs.len() == plan.len()
    &&& forall|i: int|
        0 <= i < txs.len() ==> is_pixel_write(
            #[trigger] txs[i],
            cmd,
            repeat_bytes(color, plan[i] as nat),
            flat_chunk_meta(origin, plan[i]),
        )
}

/// A wrapper that implements efficient solid filling by batching writes into
/// a larger buffer.
///
/// This is useful when the underlying bus has a small default buffer or high
/// per-transaction overhead. The buffer capacity is fixed at construction.
///
/// `strict_metadata` controls how the fill area is split:
/// - `true`: splits are aligned to rows or sub-rows, so the metadata of every
///   sub-transaction describes a real rectangle of the fill.
/// - `false`: the area is treated as a flat pixel stream; throughput is
///   higher, but correctness depends on the controller auto-wrapping its
///   write pointer across row boundaries.
pub struct BatchFillBus<B: DisplayBus> {
    /// The wrapped bus.
    pub inner: B,
    /// Transfer buffer capacity in bytes.
    pub capacity: usize,
    /// Whether every sub-transaction must describe a valid rectangle.
    pub strict_metadata: bool,
}

impl<B: DisplayBus> BatchFillBus<B> {
    /// Creates a new batching fill decorator over `inner`.
    pub fn new(inner: B, capacity: usize, strict_metadata: bool) -> (r: BatchFillBus<B>)
        ensures
            r.inner == inner,
            r.capacity == capacity,
            r.strict_metadata == strict_metadata,
    {
        BatchFillBus { inner, capacity, strict_metadata }
    }
}

impl<B: DisplayBus> BatchFillBus<B> {
    /// Fills `area` with the raw per-pixel pattern `color`, splitting the
    /// data into sub-transactions that each fit the transfer buffer.
    ///
    /// An empty pattern is a no-op that succeeds without touching the bus; a
    /// buffer smaller than one pixel is rejected with `InvalidArgs`, also
    /// without touching the bus. Otherwise the appended transactions follow
    /// [`strict_plan`] or [`flat_plan`], according to the mode chosen at
    /// construction.
    #[verifier::loop_isolation(false)]
    #[verifier::rlimit(100)]
    pub fn fill_solid_bytes(&mut self, cmd: &[u8], color: &[u8], area: Area) -> (r: Result<
        (),
        DisplayError<B::Error>,
    >)
        requires
            B::spec_cmd_ok(cmd@),
            area.w >= 1,
            area.h >= 1,
            area.x + area.w <= 65536,
            area.y + area.h <= 65536,
            area.w * color@.len() <= usize::MAX,
        ensures
            final(self).capacity == old(self).capacity,
            final(self).strict_metadata == old(self).strict_metadata,
            old(self).inner.log().is_prefix_of(final(self).inner.log()),
            color@.len() == 0 ==> r is Ok && final(self).inner.log() == old(self).inner.log(),
            color@.len() > 0 && old(self).capacity < color@.len() ==> r == Err::<
                (),
                DisplayError<B::Error>,
            >(DisplayError::InvalidArgs) && final(self).inner.log() == old(self).inner.log(),
            r is Ok && color@.len() > 0 && old(self).strict_metadata ==> strict_txs_match(
                final(self).inner.log().subrange(
                    old(self).inner.log().len() as int,
                    final(self).inner.log().len() as int,
                ),
                strict_plan(
                    area.x as int,
                    area.y as int,
                    area.w as int,
                    area.h as int,
                    color@.len() as int,
                    old(self).capacity as int,
                ),
                cmd@,
                color@,
            ),
            r is Ok && color@.len() > 0 && !old(self).strict_metadata ==> flat_txs_match(
                final(self).inner.log().subrange(
                    old(self).inner.log().len() as int,
                    final(self).inner.log().len() as int,
                ),
                flat_plan(
                    area.spec_total_pixels() as int,
                    old(self).capacity as int / color@.len() as int,
                ),
                cmd@,
                color@,
                area,
            ),
            r == Err::<(), DisplayError<B::Error>>(DisplayError::InvalidArgs) ==> color@.len() > 0
                && old(self).capacity < color@.len(),
            r matches Err(e) ==> (e is InvalidArgs || e is BusError),
    {
        let ps = color.len();
        if ps == 0 {
            proof {
                crate::bus::lemma_prefix_refl(self.inner.log());
            }
            return Ok(());
        }
        let cap = self.capacity;
        let max_px = cap / ps;
        if max_px == 0 {
            proof {
                crate::bus::lemma_prefix_refl(self.inner.log());
                assert(cap < ps) by (nonlinear_arith)
                    requires
                        cap as int / ps as int == 0,
                        ps >= 1,
                        cap >= 0,
                ;
            }
            return Err(DisplayError::InvalidArgs);
        }
        let ghost log0 = self.inner.log();
        let ghost cmdg = cmd@;
        let ghost colorg = color@;
        let ghost psg = ps as int;
        let ghost capg = cap as int;
        let ghost strict0 = self.strict_metadata;
        proof {
            assert(max_px as int * psg <= capg) by (nonlinear_arith)
                requires
                    max_px == capg / psg,
                    psg >= 1,
                    capg >= 0,
            ;
            assert(capg >= psg) by (nonlinear_arith)
                requires
                    capg / psg >= 1,
                    psg >= 1,
                    capg >= 0,
            ;
            crate::bus::lemma_prefix_refl(self.inner.log());
        }

        if self.strict_metadata {
            proof {
                assert(area.w as int * psg <= usize::MAX);
            }
            let bytes_per_row = area.w as usize * ps;
            let ghost full_plan = strict_plan(
                area.x as int,
                area.y as int,
                area.w as int,
                area.h as int,
                psg,
                capg,
            );
            let ghost mut done: Seq<FillChunk> = Seq::empty();
            let mut rows_remaining: u16 = area.h;
            proof {
                assert(self.inner.log().subrange(log0.len() as int, self.inner.log().len() as int)
                    =~= Seq::<BusTx>::empty());
                assert(full_plan == done + strict_plan(
                    area.x as int,
                    area.y as int + area.h - rows_remaining,
                    area.w as int,
                    rows_remaining as int,
                    psg,
                    capg,
                )) by {
                    assert(done + strict_plan(
                        area.x as int,
                        area.y as int,
                        area.w as int,
                        area.h as int,
                        psg,
                        capg,
                    ) =~= full_plan);
                };
            }
            while rows_remaining > 0
                invariant
                    B::spec_cmd_ok(cmdg),
                    cmdg == cmd@,
                    colorg == color@,
                    psg == color@.len(),
                    ps == color.len(),
                    ps >= 1,
                    capg == cap as int,
                    cap >= ps,
                    max_px == capg / psg,
                    max_px >= 1,
                    max_px as int * psg <= capg,
                    bytes_per_row == area.w as int * psg,
                    area.w >= 1,
                    area.h >= 1,
                    area.x + area.w <= 65536,
                    area.y + area.h <= 65536,
                    area.w * psg <= usize::MAX,
                    rows_remaining <= area.h,
                    self.capacity == cap,
                    self.strict_metadata == strict0,
                    log0.is_prefix_of(self.inner.log()),
                    self.inner.log().len() == log0.len() + done.len(),
                    strict_txs_match(
                        self.inner.log().subrange(log0.len() as int, self.inner.log().len() as int),
                        done,
                        cmdg,
                        colorg,
                    ),
                    full_plan == done + strict_plan(
                        area.x as int,
                        area.y as int + area.h - rows_remaining,
                        area.w as int,
                        rows_remaining as int,
                        psg,
                        capg,
                    ),
                decreases rows_remaining,
            {
                let rows_done = area.h - rows_remaining;
                let sub_y = area.y + rows_done;
                let ghost rem_plan = strict_plan(
                    area.x as int,
                    sub_y as int,
                    area.w as int,
                    rows_remaining as int,
                    psg,
                    capg,
                );
                if bytes_per_row <= cap {
                    proof {
                        assert(bytes_per_row >= 1) by (nonlinear_arith)
                            requires
                                bytes_per_row == area.w as int * psg,
                                area.w >= 1,
                                psg >= 1,
                        ;
                    }
                    let rows_fit = cap / bytes_per_row;
                    let rows_to_send: u16 = if rows_fit >= rows_remaining as usize {
                        rows_remaining
                    } else {
                        proof {
                            assert(rows_fit < 65536);
                        }
                        rows_fit as u16
                    };
                    proof {
                        assert(rows_fit as int * bytes_per_row as int <= capg) by (nonlinear_arith)
                            requires
                                rows_fit == capg / bytes_per_row as int,
                                bytes_per_row >= 1,
                                capg >= 0,
                        ;
                        assert(rows_to_send as int * bytes_per_row as int <= rows_fit as int
                            * bytes_per_row as int) by (nonlinear_arith)
                            requires
                                rows_to_send <= rows_fit,
                                bytes_per_row >= 0,
                        ;
                        assert(area.w as int * rows_to_send as int * psg == rows_to_send as int
                            * bytes_per_row as int) by (nonlinear_arith)
                            requires
                                bytes_per_row == area.w as int * psg,
                        ;
                        assert(area.w as int * rows_to_send as int <= area.w as int
                            * rows_to_send as int * psg) by (nonlinear_arith)
                            requires
                                psg >= 1,
                                area.w >= 0,
                                rows_to_send >= 0,
                        ;
                    }
                    let batch_px = area.w as usize * rows_to_send as usize;
                    let data = make_repeat(color, batch_px);
                    let sub_area = Area { x: area.x, y: sub_y, w: area.w, h: rows_to_send };
                    let meta = Metadata {
                        area: Some(sub_area),
                        frame_control: FrameControl { first: true, last: true },
                    };
                    let ghost chunk = FillChunk {
                        x: area.x as int,
                        y: sub_y as int,
                        w: area.w as int,
                        h: rows_to_send as int,
                    };
                    proof {
                        // the remaining plan starts with exactly this chunk
                        assert(rows_fit as int == capg / (area.w as int * psg));
                        assert(rem_plan == seq![chunk] + strict_plan(
                            area.x as int,
                            sub_y as int + rows_to_send as int,
                            area.w as int,
                            rows_remaining as int - rows_to_send as int,
                            psg,
                            capg,
                        ));
                        assert(chunk_px(chunk) == batch_px as int) by (nonlinear_arith)
                            requires
                                chunk.w == area.w as int,
                                chunk.h == rows_to_send as int,
                                batch_px == area.w as int * rows_to_send as int,
                        ;
                        assert(chunk_meta(chunk) == meta);
                    }
                    let ghost pre = self.inner.log();
                    match self.inner.write_pixels(cmd, data.as_slice(), meta) {
                        Ok(()) => {},
                        Err(e) => {
                            proof {
                                crate::bus::lemma_prefix_concat(log0, pre.subrange(
                                    log0.len() as int,
                                    pre.len() as int,
                                ));
                                assert(log0 + pre.subrange(log0.len() as int, pre.len() as int)
                                    =~= pre);
                                crate::bus::lemma_prefix_trans(log0, pre, self.inner.log());
                            }
                            return Err(e);
                        },
                    }
                    proof {
                        let now = self.inner.log();
                        assert(now.subrange(log0.len() as int, now.len() as int) =~= pre.subrange(
                            log0.len() as int,
                            pre.len() as int,
                        ).push(now.last()));
                        done = done.push(chunk);
                        crate::bus::lemma_prefix_trans(log0, pre, now);
                        assert(full_plan == (done + strict_plan(
                            area.x as int,
                            sub_y as int + rows_to_send as int,
                            area.w as int,
                            rows_remaining as int - rows_to_send as int,
                            psg,
                            capg,
                        ))) by {
                            assert(done.drop_last() + (seq![chunk] + strict_plan(
                                area.x as int,
                                sub_y as int + rows_to_send as int,
                                area.w as int,
                                rows_remaining as int - rows_to_send as int,
                                psg,
                                capg,
                            )) =~= done + strict_plan(
                                area.x as int,
                                sub_y as int + rows_to_send as int,
                                area.w as int,
                                rows_remaining as int - rows_to_send as int,
                                psg,
                                capg,
                            ));
                            assert(done.drop_last() == done.subrange(0, done.len() - 1));
                            assert(done.drop_last() =~= done.subrange(0, done.len() - 1));
                        };
                    }
                    rows_remaining = rows_remaining - rows_to_send;
                } else {
                    // a single row exceeds the buffer: split it horizontally
                    let ghost row_plan = row_split(
                        area.x as int,
                        sub_y as int,
                        area.w as int,
                        max_px as int,
                    );
                    proof {
                        assert(max_px as int == capg / psg);
                        assert(rem_plan == row_plan + strict_plan(
                            area.x as int,
                            sub_y as int + 1,
                            area.w as int,
                            rows_remaining as int - 1,
                            psg,
                            capg,
                        ));
                    }
                    let mut cols_remaining: u16 = area.w;
                    proof {
                        assert(row_split(
                            area.x as int + area.w as int - cols_remaining as int,
                            sub_y as int,
                            cols_remaining as int,
                            max_px as int,
                        ) == row_plan);
                        assert(full_plan == done + (row_split(
                            area.x as int + area.w as int - cols_remaining as int,
                            sub_y as int,
                            cols_remaining as int,
                            max_px as int,
                        ) + strict_plan(
                            area.x as int,
                            sub_y as int + 1,
                            area.w as int,
                            rows_remaining as int - 1,
                            psg,
                            capg,
                        ))) by {
                            assert((done + row_plan) + strict_plan(
                                area.x as int,
                                sub_y as int + 1,
                                area.w as int,
                                rows_remaining as int - 1,
                                psg,
                                capg,
                            ) =~= done + (row_plan + strict_plan(
                                area.x as int,
                                sub_y as int + 1,
                                area.w as int,
                                rows_remaining as int - 1,
                                psg,
                                capg,
                            )));
                        };
                    }
                    while cols_remaining > 0
                        invariant
                            B::spec_cmd_ok(cmdg),
                            cmdg == cmd@,
                            colorg == color@,
                            psg == color@.len(),
                            ps == color.len(),
                            ps >= 1,
                            capg == cap as int,
                            cap >= ps,
                            max_px == capg / psg,
                            max_px >= 1,
                            max_px as int * psg <= capg,
                            area.w >= 1,
                            area.h >= 1,
                            area.x + area.w <= 65536,
                            area.y + area.h <= 65536,
                            rows_remaining >= 1,
                            sub_y == area.y + area.h - rows_remaining,
                            sub_y < 65536,
                            cols_remaining <= area.w,
                            self.capacity == cap,
                            self.strict_metadata == strict0,
                            log0.is_prefix_of(self.inner.log()),
                            self.inner.log().len() == log0.len() + done.len(),
                            strict_txs_match(
                                self.inner.log().subrange(
                                    log0.len() as int,
                                    self.inner.log().len() as int,
                                ),
                                done,
                                cmdg,
                                colorg,
                            ),
                            full_plan == done + (row_split(
                                area.x as int + area.w as int - cols_remaining as int,
                                sub_y as int,
                                cols_remaining as int,
                                max_px as int,
                            ) + strict_plan(
                                area.x as int,
                                sub_y as int + 1,
                                area.w as int,
                                rows_remaining as int - 1,
                                psg,
                                capg,
                            )),
                        decreases cols_remaining,
                    {
                        let cur_x = area.x + (area.w - cols_remaining);
                        let cols_to_send: u16 = if max_px >= cols_remaining as usize {
                            cols_remaining
                        } else {
                            max_px as u16
                        };
                        proof {
                            assert(cols_to_send as int * psg <= max_px as int * psg)
                                by (nonlinear_arith)
                                requires
                                    cols_to_send <= max_px,
                                    psg >= 0,
                            ;
                        }
                        let data = make_repeat(color, cols_to_send as usize);
                        let sub_area = Area { x: cur_x, y: sub_y, w: cols_to_send, h: 1 };
                        let meta = Metadata {
                            area: Some(sub_area),
                            frame_control: FrameControl { first: true, last: true },
                        };
                        let ghost chunk = FillChunk {
                            x: cur_x as int,
                            y: sub_y as int,
                            w: cols_to_send as int,
                            h: 1,
                        };
                        let ghost rest_cols = row_split(
                            cur_x as int + cols_to_send as int,
                            sub_y as int,
                            cols_remaining as int - cols_to_send as int,
                            max_px as int,
                        );
                        let ghost tail = strict_plan(
                            area.x as int,
                            sub_y as int + 1,
                            area.w as int,
                            rows_remaining as int - 1,
                            psg,
                            capg,
                        );
                        proof {
                            assert(row_split(
                                cur_x as int,
                                sub_y as int,
                                cols_remaining as int,
                                max_px as int,
                            ) == seq![chunk] + rest_cols) by {
                                if cols_remaining as int <= max_px as int {
                                    assert(rest_cols =~= Seq::<FillChunk>::empty());
                                    assert(seq![chunk] + rest_cols =~= seq![chunk]);
                                }
                            };
                            assert(chunk_px(chunk) == cols_to_send as int) by (nonlinear_arith)
                                requires
                                    chunk.w == cols_to_send as int,
                                    chunk.h == 1,
                            ;
                            assert(chunk_meta(chunk) == meta);
                        }
                        let ghost pre = self.inner.log();
                        match self.inner.write_pixels(cmd, data.as_slice(), meta) {
                            Ok(()) => {},
                            Err(e) => {
                                proof {
                                    crate::bus::lemma_prefix_concat(log0, pre.subrange(
                                        log0.len() as int,
                                        pre.len() as int,
                                    ));
                                    assert(log0 + pre.subrange(
                                        log0.len() as int,
                                        pre.len() as int,
                                    ) =~= pre);
                                    crate::bus::lemma_prefix_trans(log0, pre, self.inner.log());
                                }
                                return Err(e);
                            },
                        }
                        proof {
                            let now = self.inner.log();
                            assert(now.subrange(log0.len() as int, now.len() as int)
                                =~= pre.subrange(log0.len() as int, pre.len() as int).push(
                                now.last(),
                            ));
                            done = done.push(chunk);
                            crate::bus::lemma_prefix_trans(log0, pre, now);
                            assert(full_plan == done + (rest_cols + tail)) by {
                                assert(done.drop_last() + ((seq![chunk] + rest_cols) + tail)
                                    =~= done + (rest_cols + tail));
                                assert(done.drop_last() =~= done.subrange(0, done.len() - 1));
                            };
                        }
                        cols_remaining = cols_remaining - cols_to_send;
                    }
                    proof {
                        assert(row_split(
                            area.x as int + area.w as int,
                            sub_y as int,
                            0,
                            max_px as int,
                        ) =~= Seq::<FillChunk>::empty());
                        assert(full_plan == done + strict_plan(
                            area.x as int,
                            sub_y as int + 1,
                            area.w as int,
                            rows_remaining as int - 1,
                            psg,
                            capg,
                        )) by {
                            assert(Seq::<FillChunk>::empty() + strict_plan(
                                area.x as int,
                                sub_y as int + 1,
                                area.w as int,
                                rows_remaining as int - 1,
                                psg,
                                capg,
                            ) =~= strict_plan(
                                area.x as int,
                                sub_y as int + 1,
                                area.w as int,
                                rows_remaining as int - 1,
                                psg,
                                capg,
                            ));
                        };
                    }
                    rows_remaining = rows_remaining - 1;
                }
            }
            proof {
                assert(strict_plan(
                    area.x as int,
                    area.y as int + area.h,
                    area.w as int,
                    0,
                    psg,
                    capg,
                ) =~= Seq::<FillChunk>::empty());
                assert(full_plan =~= done) by {
                    assert(done + Seq::<FillChunk>::empty() =~= done);
                };
            }
            Ok(())
        } else {
            let total = area.total_pixels();
            let ghost fplan = flat_plan(total as int, max_px as int);
            let ghost mut done_flat: Seq<int> = Seq::empty();
            let mut pixels_remaining: usize = total;
            proof {
                assert(self.inner.log().subrange(log0.len() as int, self.inner.log().len() as int)
                    =~= Seq::<BusTx>::empty());
                assert(fplan == done_flat + flat_plan(pixels_remaining as int, max_px as int)) by {
                    assert(done_flat + fplan =~= fplan);
                };
            }
            while pixels_remaining > 0
                invariant
                    B::spec_cmd_ok(cmdg),
                    cmdg == cmd@,
                    colorg == color@,
                    psg == color@.len(),
                    ps == color.len(),
                    ps >= 1,
                    capg == cap as int,
                    cap >= ps,
                    max_px == capg / psg,
                    max_px >= 1,
                    max_px as int * psg <= capg,
                    self.capacity == cap,
                    self.strict_metadata == strict0,
                    log0.is_prefix_of(self.inner.log()),
                    self.inner.log().len() == log0.len() + done_flat.len(),
                    flat_txs_match(
                        self.inner.log().subrange(log0.len() as int, self.inner.log().len() as int),
                        done_flat,
                        cmdg,
                        colorg,
                        area,
                    ),
                    fplan == done_flat + flat_plan(pixels_remaining as int, max_px as int),
                decreases pixels_remaining,
            {
                let pixels_to_send: usize = if pixels_remaining >= max_px {
                    max_px
                } else {
                    pixels_remaining
                };
                proof {
                    assert(pixels_to_send as int * psg <= max_px as int * psg) by (nonlinear_arith)
                        requires
                            pixels_to_send <= max_px,
                            psg >= 0,
                    ;
                }
                let data = make_repeat(color, pixels_to_send);
                let w_tag: u16 = if pixels_to_send >= 65535 {
                    65535
                } else {
                    pixels_to_send as u16
                };
                let meta = Metadata {
                    area: Some(Area { x: area.x, y: area.y, w: w_tag, h: 1 }),
                    frame_control: FrameControl { first: true, last: true },
                };
                let ghost rest = flat_plan(
                    pixels_remaining as int - pixels_to_send as int,
                    max_px as int,
                );
                proof {
                    assert(flat_plan(pixels_remaining as int, max_px as int) == seq![
                        pixels_to_send as int,
                    ] + rest) by {
                        if pixels_remaining as int <= max_px as int {
                            assert(rest =~= Seq::<int>::empty());
                            assert(seq![pixels_to_send as int] + rest =~= seq![
                                pixels_to_send as int,
                            ]);
                        }
                    };
                }
                let ghost pre = self.inner.log();
                match self.inner.write_pixels(cmd, data.as_slice(), meta) {
                    Ok(()) => {},
                    Err(e) => {
                        proof {
                            crate::bus::lemma_prefix_concat(log0, pre.subrange(
                                log0.len() as int,
                                pre.len() as int,
                            ));
                            assert(log0 + pre.subrange(log0.len() as int, pre.len() as int)
                                =~= pre);
                            crate::bus::lemma_prefix_trans(log0, pre, self.inner.log());
                        }
                        return Err(e);
                    },
                }
                proof {
                    let now = self.inner.log();
                    assert(now.subrange(log0.len() as int, now.len() as int) =~= pre.subrange(
                        log0.len() as int,
                        pre.len() as int,
                    ).push(now.last()));
                    assert(meta == flat_chunk_meta(area, pixels_to_send as int));
                    done_flat = done_flat.push(pixels_to_send as int);
                    crate::bus::lemma_prefix_trans(log0, pre, now);
                    assert(fplan == done_flat + rest) by {
                        assert(done_flat.drop_last() + (seq![pixels_to_send as int] + rest)
                            =~= done_flat + rest);
                        assert(done_flat.drop_last() =~= done_flat.subrange(
                            0,
                            done_flat.len() - 1,
                        ));
                    };
                }
                pixels_remaining = pixels_remaining - pixels_to_send;
            }
            proof {
                assert(flat_plan(0, max_px as int) =~= Seq::<int>::empty());
                assert(fplan =~= done_flat) by {
                    assert(done_flat + Seq::<int>::empty() =~= done_flat);
                };
            }
            Ok(())
        }
    }
}

/// Every chunk of a split row is a real rectangle: positive extent both ways.
proof fn lemma_row_split_chunks_pos(x: int, y: int, w: int, maxp: int)
    requires
        maxp >= 1,
    ensures
        forall|i: int|
            0 <= i < row_split(x, y, w, maxp).len() ==> (#[trigger] row_split(x, y, w, maxp)[i]).w
                >= 1 && row_split(x, y, w, maxp)[i].h >= 1,
    decreases w,
{
    if w <= 0 {
    } else if w <= maxp {
    } else {
        lemma_row_split_chunks_pos(x + maxp, y, w - maxp, maxp);
        let head = seq![FillChunk { x, y, w: maxp, h: 1 }];
        let rest = row_split(x + maxp, y, w - maxp, maxp);
        assert forall|i: int| 0 <= i < row_split(x, y, w, maxp).len() implies (
        #[trigger] row_split(x, y, w, maxp)[i]).w >= 1 && row_split(x, y, w, maxp)[i].h
            >= 1 by {
            if i >= 1 {
                assert(row_split(x, y, w, maxp)[i] == rest[i - 1]);
            }
        }
    }
}

/// Every chunk of a strict plan is a real rectangle: positive extent both
/// ways.
proof fn lemma_strict_plan_chunks_pos(x: int, y: int, w: int, h: int, ps: int, cap: int)
    requires
        w >= 1,
        ps >= 1,
        cap >= ps,
    ensures
        forall|i: int|
            0 <= i < strict_plan(x, y, w, h, ps, cap).len() ==> (#[trigger] strict_plan(
                x,
                y,
                w,
                h,
                ps,
                cap,
            )[i]).w >= 1 && strict_plan(x, y, w, h, ps, cap)[i].h >= 1,
    decreases h,
{
    let p = strict_plan(x, y, w, h, ps, cap);
    if h <= 0 {
    } else if w * ps <= cap {
        assert(w * ps >= 1) by (nonlinear_arith)
            requires
                w >= 1,
                ps >= 1,
        ;
        assert(cap / (w * ps) >= 1) by (nonlinear_arith)
            requires
                1 <= w * ps <= cap,
        ;
        let rows = vstd::math::min(h, cap / (w * ps));
        let rest = strict_plan(x, y + rows, w, h - rows, ps, cap);
        lemma_strict_plan_chunks_pos(x, y + rows, w, h - rows, ps, cap);
        assert forall|i: int| 0 <= i < p.len() implies (#[trigger] p[i]).w >= 1 && p[i].h >= 1 by {
            if i >= 1 {
                assert(p[i] == rest[i - 1]);
            }
        }
    } else {
        assert(cap / ps >= 1) by (nonlinear_arith)
            requires
                1 <= ps <= cap,
        ;
        let row = row_split(x, y, w, cap / ps);
        let rest = strict_plan(x, y + 1, w, h - 1, ps, cap);
        lemma_row_split_chunks_pos(x, y, w, cap / ps);
        lemma_strict_plan_chunks_pos(x, y + 1, w, h - 1, ps, cap);
        assert forall|i: int| 0 <= i < p.len() implies (#[trigger] p[i]).w >= 1 && p[i].h >= 1 by {
            if i < row.len() {
                assert(p[i] == row[i]);
            } else {
                assert(p[i] == rest[i - row.len()]);
            }
        }
    }
}

/// Transactions that follow a strict plan realize a solid fill of the plan's
/// pixel total.
proof fn lemma_strict_match_is_fill(
    txs: Seq<BusTx>,
    plan: Seq<FillChunk>,
    cmd: Seq<u8>,
    color: Seq<u8>,
)
    requires
        strict_txs_match(txs, plan, cmd, color),
        color.len() >= 1,
        forall|i: int| 0 <= i < plan.len() ==> chunk_px(#[trigger] plan[i]) >= 0,
    ensures
        forall|i: int| 0 <= i < txs.len() ==> is_color_chunk(#[trigger] txs[i], color),
        forall|i: int| 0 <= i < txs.len() ==> tx_cmd(#[trigger] txs[i]) == Some(cmd),
        payload_total(txs) == plan_px(plan) * color.len(),
    decreases txs.len(),
{
    assert forall|i: int| 0 <= i < txs.len() implies is_color_chunk(#[trigger] txs[i], color) by {
        lemma_repeat_is_repeat_of(color, chunk_px(plan[i]) as nat);
    }
    if txs.len() == 0 {
        assert(plan_px(plan) * color.len() == 0) by (nonlinear_arith)
            requires
                plan_px(plan) == 0,
        ;
    } else {
        let ts = txs.drop_last();
        let ps2 = plan.drop_last();
        assert(strict_txs_match(ts, ps2, cmd, color)) by {
            assert(forall|i: int|
                0 <= i < ts.len() ==> #[trigger] ts[i] == txs[i] && ps2[i] == plan[i]);
        };
        lemma_strict_match_is_fill(ts, ps2, cmd, color);
        let npx = chunk_px(plan.last());
        lemma_repeat_bytes_len(color, npx as nat);
        assert(tx_payload(txs.last()) == Some(repeat_bytes(color, npx as nat)));
        assert(payload_total(txs) == plan_px(ps2) * color.len() + npx * color.len());
        assert(plan_px(ps2) * color.len() + npx * color.len() == (plan_px(ps2) + npx)
            * color.len()) by (nonlinear_arith);
    }
}

/// Transactions that follow a flat plan realize a solid fill of the plan's
/// pixel total.
proof fn lemma_flat_match_is_fill(
    txs: Seq<BusTx>,
    plan: Seq<int>,
    cmd: Seq<u8>,
    color: Seq<u8>,
    origin: Area,
)
    requires
        flat_txs_match(txs, plan, cmd, color, origin),
        color.len() >= 1,
        forall|i: int| 0 <= i < plan.len() ==> #[trigger] plan[i] >= 0,
    ensures
        forall|i: int| 0 <= i < txs.len() ==> is_color_chunk(#[trigger] txs[i], color),
        forall|i: int| 0 <= i < txs.len() ==> tx_cmd(#[trigger] txs[i]) == Some(cmd),
        payload_total(txs) == flat_total(plan) * color.len(),
    decreases txs.len(),
{
    assert forall|i: int| 0 <= i < txs.len() implies is_color_chunk(#[trigger] txs[i], color) by {
        lemma_repeat_is_repeat_of(color, plan[i] as nat);
    }
    if txs.len() == 0 {
        assert(flat_total(plan) * color.len() == 0) by (nonlinear_arith)
            requires
                flat_total(plan) == 0,
        ;
    } else {
        let ts = txs.drop_last();
        let ps2 = plan.drop_last();
        assert(flat_txs_match(ts, ps2, cmd, color, origin)) by {
            assert(forall|i: int|
                0 <= i < ts.len() ==> #[trigger] ts[i] == txs[i] && ps2[i] == plan[i]);
        };
        lemma_flat_match_is_fill(ts, ps2, cmd, color, origin);
        let npx = plan.last();
        lemma_repeat_bytes_len(color, npx as nat);
        assert(tx_payload(txs.last()) == Some(repeat_bytes(color, npx as nat)));
        assert(payload_total(txs) == flat_total(ps2) * color.len() + npx * color.len());
        assert(flat_total(ps2) * color.len() + npx * color.len() == (flat_total(ps2) + npx)
            * color.len()) by (nonlinear_arith);
    }
}

impl<B: DisplayBus> BusHardwareFill for BatchFillBus<B> {
    fn fill_solid(&mut self, cmd: &[u8], color: SolidColor, area: Area) -> (r: Result<
        (),
        DisplayError<Self::Error>,
    >) {
        let cb = color.wire_bytes();
        proof {
            assert(area.w as int * cb@.len() as int <= 65535 * 3 <= usize::MAX)
                by (nonlinear_arith)
                requires
                    area.w <= 65535,
                    cb@.len() <= 3,
                    usize::MAX >= 196605,
            ;
        }
        let ghost log_in = self.inner.log();
        let r = self.fill_solid_bytes(cmd, cb.as_slice(), area);
        proof {
            let psg = cb@.len() as int;
            let capg = self.capacity as int;
            let appended = self.inner.log().subrange(
                log_in.len() as int,
                self.inner.log().len() as int,
            );
            if r is Ok {
                assert(capg >= psg);
                if self.strict_metadata {
                    let plan = strict_plan(
                        area.x as int,
                        area.y as int,
                        area.w as int,
                        area.h as int,
                        psg,
                        capg,
                    );
                    lemma_strict_plan_chunks_pos(
                        area.x as int,
                        area.y as int,
                        area.w as int,
                        area.h as int,
                        psg,
                        capg,
                    );
                    assert forall|i: int| 0 <= i < plan.len() implies chunk_px(
                        #[trigger] plan[i],
                    ) >= 0 by {
                        assert(plan[i].w * plan[i].h >= 0) by (nonlinear_arith)
                            requires
                                plan[i].w >= 1,
                                plan[i].h >= 1,
                        ;
                    }
                    lemma_strict_match_is_fill(appended, plan, cmd@, cb@);
                    lemma_strict_plan_px(
                        area.x as int,
                        area.y as int,
                        area.w as int,
                        area.h as int,
                        psg,
                        capg,
                    );
                    assert(payload_total(appended) == (area.w as int * area.h as int) * psg);
                    assert(area.spec_total_pixels() * cb@.len() == (area.w as int
                        * area.h as int) * psg) by (nonlinear_arith)
                        requires
                            area.spec_total_pixels() == area.w * area.h,
                            psg == cb@.len(),
                    ;
                } else {
                    let maxp = capg / psg;
                    let plan = flat_plan(area.spec_total_pixels() as int, maxp);
                    assert(maxp >= 1) by (nonlinear_arith)
                        requires
                            psg >= 1,
                            capg >= psg,
                            maxp == capg / psg,
                    ;
                    lemma_flat_plan_total(area.spec_total_pixels() as int, maxp);
                    lemma_flat_match_is_fill(appended, plan, cmd@, cb@, area);
                    assert(payload_total(appended) == area.spec_total_pixels() as int * psg);
                    assert(area.spec_total_pixels() * cb@.len() == area.spec_total_pixels() as int
                        * psg) by (nonlinear_arith)
                        requires
                            psg == cb@.len(),
                    ;
                }
            }
        }
        r
    }
}

impl<B: DisplayBus> ErrorType for BatchFillBus<B> {
    type Error = B::Error;
}

impl<B: DisplayBus> DisplayBus for BatchFillBus<B> {
    open spec fn log(&self) -> Seq<BusTx> {
        self.inner.log()
    }

    open spec fn spec_cmd_ok(cmd: Seq<u8>) -> bool {
        B::spec_cmd_ok(cmd)
    }

    open spec fn spec_reset_supported() -> bool {
        B::spec_reset_supported()
    }

    fn write_cmd(&mut self, cmd: &[u8]) -> (r: Result<(), Self::Error>) {
        self.inner.write_cmd(cmd)
    }

    fn write_cmd_with_params(&mut self, cmd: &[u8], params: &[u8]) -> (r: Result<
        (),
        Self::Error,
    >) {
        self.inner.write_cmd_with_params(cmd, params)
    }

    fn write_pixels(&mut self, cmd: &[u8], data: &[u8], metadata: Metadata) -> (r: Result<
        (),
        DisplayError<Self::Error>,
    >) {
        self.inner.write_pixels(cmd, data, metadata)
    }

    fn set_reset(&mut self, reset: bool) -> (r: Result<(), DisplayError<Self::Error>>) {
        self.inner.set_reset(reset)
    }
}

impl<B: DisplayBus + BusRead> BusRead for BatchFillBus<B> {
    fn read_data(&mut self, cmd: &[u8], params: &[u8], buffer: &mut Vec<u8>) -> (r: Result<
        (),
        DisplayError<Self::Error>,
    >) {
        self.inner.read_data(cmd, params, buffer)
    }
}

} // verus!
