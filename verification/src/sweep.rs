//! Sweeps of the display: what a run of refreshes shows of the framebuffer.

use vstd::prelude::*;
use crate::pixel::{Pixel, cell};
use crate::port::{CLOCK, Event, Port, Signal, line_high, lemma_events_concat};
use crate::matrix::{bit_from_top, line_bits, line_mask, plane, refresh_signals};
use crate::link::{lemma_refresh, shifted};
use crate::game::Game;

verus! {

/// The game after `count` display refreshes.
pub open spec fn after_refreshes(game: Game, count: nat) -> Game
    decreases count,
{
    if count == 0 {
        game
    } else {
        after_refreshes(game, (count - 1) as nat).after_refresh()
    }
}

/// The register operations of `count` display refreshes in a row, starting
/// from `game`, while the framebuffer shows `frame`.
pub open spec fn sweep_signals(frame: Seq<Pixel>, game: Game, count: nat) -> Seq<Signal>
    decreases count,
{
    if count == 0 {
        Seq::<Signal>::empty()
    } else {
        sweep_signals(frame, game, (count - 1) as nat) + refresh_signals(
            frame,
            after_refreshes(game, (count - 1) as nat).line(),
        )
    }
}

/// What the hardware sees of one line being shown: the matrix goes blank,
/// the bits of the line arrive, the latch commits them, the line lights up.
pub open spec fn line_events(frame: Seq<Pixel>, line: int) -> Seq<Event> {
    seq![Event::Select { channel: 0 }] + shifted(line_bits(frame, line)) + seq![
        Event::Latch,
        Event::Select { channel: line_mask(line as u8) },
    ]
}

/// What the hardware sees of `count` lines being shown one after the other,
/// from line `first` on and round from line 7 to line 0.
pub open spec fn sweep_events(frame: Seq<Pixel>, first: int, count: nat) -> Seq<Event>
    decreases count,
{
    if count == 0 {
        Seq::<Event>::empty()
    } else {
        sweep_events(frame, first, (count - 1) as nat) + line_events(
            frame,
            (first + count - 1) % 8,
        )
    }
}

/// The refreshes walk through the lines in order and round: the refresh that
/// follows `count` others shows the line `count` steps on from the first.
pub proof fn lemma_refresh_order(game: Game, count: nat)
    ensures
        after_refreshes(game, count).line() == (game.line() + count) % 8,
        0 <= after_refreshes(game, count).line() < 8,
    decreases count,
{
    if count > 0 {
        lemma_refresh_order(game, (count - 1) as nat);
    }
}

/// A run of refreshes shows line after line: with the clock low at the
/// start, the hardware sees each line's bits, complete and in order, between
/// a blanking and that line's selection, and the clock is low again at the
/// end.
pub proof fn lemma_sweep(port: Port, frame: Seq<Pixel>, game: Game, count: nat)
    requires
        !line_high(port.control, CLOCK),
    ensures
        port.events(sweep_signals(frame, game, count)) == sweep_events(frame, game.line(), count),
        !line_high(port.replay(sweep_signals(frame, game, count)).control, CLOCK),
    decreases count,
{
    if count > 0 {
        let before = (count - 1) as nat;
        lemma_sweep(port, frame, game, before);
        lemma_refresh_order(game, before);
        let mid = port.replay(sweep_signals(frame, game, before));
        let line = after_refreshes(game, before).line();
        lemma_refresh(mid, frame, line);
        lemma_events_concat(port, sweep_signals(frame, game, before), refresh_signals(frame, line));
    }
}

/// Eight refreshes in a row are a full sweep: every line of the matrix is
/// shown by exactly one of them.
pub proof fn lemma_full_sweep_shows_each_line_once(game: Game, line: int)
    requires
        0 <= line < 8,
    ensures
        exists|k: nat| k < 8 && after_refreshes(game, k).line() == line,
        forall|j: nat, k: nat|
            j < 8 && k < 8 && after_refreshes(game, j).line() == line && after_refreshes(
                game,
                k,
            ).line() == line ==> j == k,
{
    let first = game.line();
    let k = ((line - first + 8) % 8) as nat;
    lemma_refresh_order(game, k);
    assert(after_refreshes(game, k).line() == line);
    assert forall|i: nat, j: nat|
        i < 8 && j < 8 && after_refreshes(game, i).line() == line && after_refreshes(
            game,
            j,
        ).line() == line implies i == j by {
        lemma_refresh_order(game, i);
        lemma_refresh_order(game, j);
    }
}

/// A sweep that starts at line 0 shows the lines 0 to 7 in that order.
pub proof fn lemma_sweep_from_top(game: Game, k: nat)
    requires
        game.line() == 0,
        k < 8,
    ensures
        after_refreshes(game, k).line() == k,
{
    lemma_refresh_order(game, k);
}

/// An intensity is told by its eight bits.
proof fn lemma_bits_tell_byte(v: u8, w: u8)
    requires
        forall|n: u8| n < 8 ==> bit_from_top(v, n) == bit_from_top(w, n),
    ensures
        v == w,
{
    assert(bit_from_top(v, 0) == bit_from_top(w, 0));
    assert(bit_from_top(v, 1) == bit_from_top(w, 1));
    assert(bit_from_top(v, 2) == bit_from_top(w, 2));
    assert(bit_from_top(v, 3) == bit_from_top(w, 3));
    assert(bit_from_top(v, 4) == bit_from_top(w, 4));
    assert(bit_from_top(v, 5) == bit_from_top(w, 5));
    assert(bit_from_top(v, 6) == bit_from_top(w, 6));
    assert(bit_from_top(v, 7) == bit_from_top(w, 7));
    assert(v == w) by (bit_vector)
        requires
            (v & (0x80u8 >> 0u8) != 0) == (w & (0x80u8 >> 0u8) != 0),
            (v & (0x80u8 >> 1u8) != 0) == (w & (0x80u8 >> 1u8) != 0),
            (v & (0x80u8 >> 2u8) != 0) == (w & (0x80u8 >> 2u8) != 0),
            (v & (0x80u8 >> 3u8) != 0) == (w & (0x80u8 >> 3u8) != 0),
            (v & (0x80u8 >> 4u8) != 0) == (w & (0x80u8 >> 4u8) != 0),
            (v & (0x80u8 >> 5u8) != 0) == (w & (0x80u8 >> 5u8) != 0),
            (v & (0x80u8 >> 6u8) != 0) == (w & (0x80u8 >> 6u8) != 0),
            (v & (0x80u8 >> 7u8) != 0) == (w & (0x80u8 >> 7u8) != 0),
    ;
}

/// The bits sent for a line tell every cell of that line: two frames whose
/// line sends the same bits hold the same colours in it.
pub proof fn lemma_line_bits_tell_cells(a: Seq<Pixel>, b: Seq<Pixel>, line: int, y: int)
    requires
        a.len() == 64,
        b.len() == 64,
        0 <= line < 8,
        0 <= y < 8,
        line_bits(a, line) == line_bits(b, line),
    ensures
        cell(a, line, y) == cell(b, line, y),
{
    let p = cell(a, line, y);
    let q = cell(b, line, y);
    assert forall|k: int| 0 <= k < 3 implies plane(p, k) == plane(q, k) by {
        assert forall|n: u8| n < 8 implies bit_from_top(plane(p, k), n) == bit_from_top(
            plane(q, k),
            n,
        ) by {
            let at = 24 * y + 8 * k + n;
            assert(at / 24 == y && (at % 24) / 8 == k && at % 8 == n);
            assert(line_bits(a, line)[at] == bit_from_top(plane(p, k), n));
            assert(line_bits(b, line)[at] == bit_from_top(plane(q, k), n));
        }
        lemma_bits_tell_byte(plane(p, k), plane(q, k));
    }
    assert(plane(p, 0) == plane(q, 0));
    assert(plane(p, 1) == plane(q, 1));
    assert(plane(p, 2) == plane(q, 2));
}

/// A full sweep reproduces the framebuffer: two frames whose eight lines
/// send the same bits are the same frame.
pub proof fn lemma_sweep_tells_frame(a: Seq<Pixel>, b: Seq<Pixel>)
    requires
        a.len() == 64,
        b.len() == 64,
        forall|line: int| 0 <= line < 8 ==> line_bits(a, line) == line_bits(b, line),
    ensures
        a == b,
{
    assert forall|n: int| 0 <= n < 64 implies a[n] == b[n] by {
        let line = n / 8;
        let y = n % 8;
        lemma_line_bits_tell_cells(a, b, line, y);
    }
    assert(a =~= b);
}

} // verus!
