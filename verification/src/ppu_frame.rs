//! The shape of a frame: how long each mode of the picture unit lasts and
//! when the vertical-blank interrupt is requested.

use vstd::prelude::*;
use crate::ppu::{
    Mode, PixelData, PixelFifo, Sprite, PPU, EFFECTIVE_SCAN_COUNT, OAM_WIDTH, SCREEN_HEIGHT,
    SCREEN_WIDTH, TICK_WIDTH,
};

verus! {

/// Ticking `a + b` times is ticking `a` times, then `b` times.
#[verifier::rlimit(50)]
pub proof fn ticks_compose(p: PPU, a: nat, b: nat)
    ensures
        p.ticks(a + b) == p.ticks(a).ticks(b),
    decreases b,
{
    if b > 0 {
        ticks_compose(p, a, (b - 1) as nat);
        assert(p.ticks(a + b) == p.ticks((a + b - 1) as nat).tick_spec());
    }
}

/// Clearing the line-compare flag changes neither the mode nor anything
/// outside the status register.
#[verifier::rlimit(50)]
pub proof fn compare_flag_keeps_mode(p: PPU)
    ensures
        p.coincidence_spec().mode() == p.mode(),
        p.coincidence_spec().ly() == p.ly(),
        p.coincidence_spec().tick == p.tick,
        p.coincidence_spec().pixels_pushed == p.pixels_pushed,
        p.coincidence_spec().next_tick() == p.next_tick(),
{
}

/// The sprite search lasts exactly 80 ticks: begun with the line count at 0,
/// the unit is still searching after fewer than 80 ticks and transfers pixels
/// after the 80th; the line does not change meanwhile.
#[verifier::rlimit(50)]
pub proof fn sprite_search_lasts_80_ticks(p: PPU, k: nat)
    requires
        p.mode() == Mode::OAM,
        p.tick == 0,
        k <= OAM_WIDTH,
    ensures
        k < OAM_WIDTH ==> p.ticks(k).mode() == Mode::OAM,
        k == OAM_WIDTH ==> p.ticks(k).mode() == Mode::VRAM,
        p.ticks(k).tick == k,
        p.ticks(k).ly() == p.ly(),
    decreases k,
{
    if k > 0 {
        let q = p.ticks((k - 1) as nat);
        sprite_search_lasts_80_ticks(p, (k - 1) as nat);
        compare_flag_keeps_mode(q);
    }
}

/// A tick of the pixel transfer ends the transfer exactly when it puts the
/// 160th pixel of the line on the screen; until then the unit stays in the
/// transfer, on the same line, and counts the pixels it shows.
#[verifier::rlimit(50)]
pub proof fn pixel_transfer_ends_with_pixel_160(p: PPU)
    requires
        p.wf(),
        p.mode() == Mode::VRAM,
    ensures
        p.tick_spec().ly() == p.ly(),
        p.tick_spec().mode() == Mode::HBlank <==> p.coincidence_spec().window_spec().shows()
            && p.pixels_pushed == SCREEN_WIDTH - 1,
        p.tick_spec().mode() != Mode::HBlank ==> p.tick_spec().mode() == Mode::VRAM
            && p.tick_spec().pixels_pushed == p.pixels_pushed + if p.coincidence_spec().window_spec().shows() {
            1int
        } else {
            0int
        },
        p.tick_spec().tick == p.next_tick(),
{
    compare_flag_keeps_mode(p);
}

/// A tick of the horizontal blank: the blank lasts until the line has had
/// its 456 ticks; then the next line begins, with the sprite search on a
/// visible line and with the vertical blank after line 143.
#[verifier::rlimit(50)]
pub proof fn hblank_step(p: PPU)
    requires
        p.wf(),
        p.mode() == Mode::HBlank,
    ensures
        p.tick + 1 < TICK_WIDTH ==> p.tick_spec().mode() == Mode::HBlank && p.tick_spec().ly()
            == p.ly() && p.tick_spec().tick == p.tick + 1,
        p.tick + 1 >= TICK_WIDTH ==> p.tick_spec().ly() == p.ly() + 1 && p.tick_spec().tick == 0,
        p.tick + 1 >= TICK_WIDTH && p.ly() + 1 < SCREEN_HEIGHT ==> p.tick_spec().mode()
            == Mode::OAM,
        p.tick + 1 >= TICK_WIDTH && p.ly() + 1 == SCREEN_HEIGHT ==> p.tick_spec().mode()
            == Mode::VBlank,
{
    compare_flag_keeps_mode(p);
}

/// The horizontal blank fills the line up to 456 ticks: entered with the
/// line count at `p.tick`, it is still on after `k` ticks while the count
/// stays below 456.
#[verifier::rlimit(50)]
pub proof fn hblank_fills_the_line(p: PPU, k: nat)
    requires
        p.wf(),
        p.mode() == Mode::HBlank,
        p.tick + k < TICK_WIDTH,
    ensures
        p.ticks(k).wf(),
        p.ticks(k).mode() == Mode::HBlank,
        p.ticks(k).ly() == p.ly(),
        p.ticks(k).tick == p.tick + k,
    decreases k,
{
    if k > 0 {
        let q = p.ticks((k - 1) as nat);
        hblank_fills_the_line(p, (k - 1) as nat);
        hblank_step(q);
        compare_flag_keeps_mode(q);
    }
}

/// A tick of the vertical blank: a line passes every 456 ticks, and line
/// 153 is followed by line 0 and its sprite search.
#[verifier::rlimit(50)]
pub proof fn vblank_step(p: PPU)
    requires
        p.wf(),
        p.mode() == Mode::VBlank,
    ensures
        p.tick_spec().wf(),
        p.tick + 1 < TICK_WIDTH ==> p.tick_spec().mode() == Mode::VBlank && p.tick_spec().ly()
            == p.ly() && p.tick_spec().tick == p.tick + 1,
        p.tick + 1 >= TICK_WIDTH && p.ly() < EFFECTIVE_SCAN_COUNT ==> p.tick_spec().mode()
            == Mode::VBlank && p.tick_spec().ly() == p.ly() + 1 && p.tick_spec().tick == 0,
        p.tick + 1 >= TICK_WIDTH && p.ly() == EFFECTIVE_SCAN_COUNT ==> p.tick_spec().mode()
            == Mode::OAM && p.tick_spec().ly() == 0 && p.tick_spec().tick == 0,
{
    compare_flag_keeps_mode(p);
}

/// The vertical-blank interrupt is requested by exactly one kind of tick:
/// the one that ends line 143 and so makes 144 the current line.
#[verifier::rlimit(50)]
pub proof fn vblank_requested_when_line_144_begins(p: PPU)
    requires
        p.wf(),
    ensures
        p.tick_requests().vblank <==> p.ly() == SCREEN_HEIGHT - 1 && p.tick_spec().ly()
            == SCREEN_HEIGHT,
        p.tick_requests().vblank ==> p.tick_spec().mode() == Mode::VBlank,
{
    compare_flag_keeps_mode(p);
    match p.mode() {
        Mode::HBlank => hblank_step(p),
        Mode::VBlank => vblank_step(p),
        Mode::OAM => {},
        Mode::VRAM => pixel_transfer_ends_with_pixel_160(p),
    }
}


/// The sprite search finds only entries of the table, ten at most.
#[verifier::rlimit(50)]
pub proof fn found_sprites_are_in_the_table(oam: [Sprite; 40], ly: u8, n: nat)
    requires
        n <= 40,
    ensures
        0 <= PPU::scan_upto(oam, ly, n).1 <= 10,
        forall|k: int|
            0 <= k < 10 ==> (#[trigger] PPU::scan_upto(oam, ly, n).0[k] matches Some(j) ==> j < 40),
    decreases n,
{
    if n > 0 {
        found_sprites_are_in_the_table(oam, ly, (n - 1) as nat);
    }
}

/// Laying sprites over the queue changes pixels, not their number or order.
#[verifier::rlimit(50)]
pub proof fn overlay_keeps_the_queue_length(p: PPU, n: nat)
    requires
        p.pixel_fifo.wf(),
    ensures
        p.overlay_upto(n).len == p.pixel_fifo.len,
        p.overlay_upto(n).head == p.pixel_fifo.head,
    decreases n,
{
    if n > 0 {
        overlay_keeps_the_queue_length(p, (n - 1) as nat);
    }
}

/// Eight pixels more in a queue that had room for them.
#[verifier::rlimit(50)]
pub proof fn filled_queue_length(fifo: PixelFifo, px: [PixelData; 8])
    requires
        fifo.wf(),
        fifo.len <= 8,
    ensures
        PPU::filled(fifo, px).len == fifo.len + 8,
        PPU::filled(fifo, px).head == fifo.head,
{
}

/// The plain configuration: the window never shows, because it is off or
/// lies off the screen, and the horizontal scroll is at most 16, so that no
/// pixel of a line is held back.
pub open spec fn plain(p: PPU) -> bool {
    &&& (p.lcdc() / 32) % 2 == 0 || p.wx() >= SCREEN_WIDTH || p.wy() >= SCREEN_HEIGHT
    &&& p.scx() <= 16
}

/// The pixel pipeline `k` ticks into the transfer of a line, in the plain
/// configuration: the fetcher delivers every eighth tick, the first pixel
/// leaves the queue on the 17th tick, and one more on every tick after it.
pub open spec fn pipeline_at(p: PPU, k: int) -> bool {
    &&& p.fetch_state % 8 == k % 8
    &&& p.lx == 8 * (k / 8)
    &&& p.pixel_fifo.len == if k < 8 {
        0int
    } else if k < 16 {
        8int
    } else {
        16 - k % 8
    }
    &&& p.pixels_pushed == if k < 16 {
        0int
    } else {
        k - 16
    }
    &&& !p.is_window
}

/// Ticks that the transfer of a line takes in the plain configuration.
pub open spec fn transfer_width() -> int {
    176
}

/// Lines in a frame, the ten of the vertical blank included.
pub open spec fn frame_lines() -> int {
    154
}

/// The unit stands `r` ticks into line `n` of a frame in the plain
/// configuration: 80 ticks of sprite search, 176 of pixel transfer and the
/// rest of the 456 in the horizontal blank on each of the lines 0 to 143,
/// and the vertical blank on all of the lines 144 to 153.
pub open spec fn on_track(p: PPU, n: int, r: int) -> bool {
    &&& p.wf()
    &&& plain(p)
    &&& p.ly() == n
    &&& p.tick == r
    &&& 0 <= r < TICK_WIDTH
    &&& 0 <= n < frame_lines()
    &&& if n >= SCREEN_HEIGHT {
        p.mode() == Mode::VBlank && pipeline_at(p, 0)
    } else if r < OAM_WIDTH {
        p.mode() == Mode::OAM && pipeline_at(p, 0)
    } else if r < OAM_WIDTH + transfer_width() {
        p.mode() == Mode::VRAM && pipeline_at(p, r - OAM_WIDTH)
    } else {
        p.mode() == Mode::HBlank && pipeline_at(p, 0)
    }
}

/// Line of the position that follows `r` ticks into line `n`.
pub open spec fn next_line(n: int, r: int) -> int {
    if r + 1 < TICK_WIDTH {
        n
    } else if n + 1 < frame_lines() {
        n + 1
    } else {
        0
    }
}

/// Ticks into the line of the position that follows `r` ticks into a line.
pub open spec fn next_column(r: int) -> int {
    if r + 1 < TICK_WIDTH {
        r + 1
    } else {
        0
    }
}

#[verifier::rlimit(50)]
proof fn search_stays_on_track(p: PPU, n: int, r: int)
    requires
        on_track(p, n, r),
        n < SCREEN_HEIGHT,
        r < OAM_WIDTH,
    ensures
        on_track(p.tick_spec(), n, r + 1),
{
    compare_flag_keeps_mode(p);
    found_sprites_are_in_the_table(p.coincidence_spec().oam_ram, p.ly(), 40);
}

/// The queue and the pixel count after the oldest pixel has left, `k` ticks
/// into the transfer.
#[verifier::rlimit(50)]
proof fn emit_in_the_pipeline(w: PPU, k: int)
    requires
        w.wf(),
        plain(w),
        pipeline_at(w, k),
        0 <= k < transfer_width(),
    ensures
        ({
            let e = w.emit_spec();
            &&& e.pixel_fifo.wf()
            &&& e.pixel_fifo.len == if k < 8 {
                0int
            } else if k < 16 {
                8int
            } else {
                15 - k % 8
            }
            &&& e.pixels_pushed == if k < 16 {
                0int
            } else {
                k - 15
            }
            &&& e.fetch_state == w.fetch_state
            &&& e.lx == w.lx
            &&& e.is_window == w.is_window
            &&& e.registers == w.registers
            &&& e.tick == w.tick
            &&& e.active_sprites == w.active_sprites
        }),
{
    overlay_keeps_the_queue_length(w, 10);
}

/// What the fetcher's tick changes: its own count, the fetched column when
/// it delivers, and the queue when the delivery finds room.
#[verifier::rlimit(50)]
proof fn refill_changes(e: PPU)
    requires
        e.pixel_fifo.wf(),
    ensures
        ({
            let f = e.refill_spec();
            &&& f.fetch_state == (e.fetch_state + 1) % 256
            &&& f.lx == if e.fetch_due() {
                (e.lx + 8) % 0x10000
            } else {
                e.lx as int
            }
            &&& f.pixel_fifo.len == if e.fetch_due() && e.pixel_fifo.len <= 8 {
                e.pixel_fifo.len + 8
            } else {
                e.pixel_fifo.len as int
            }
            &&& f.pixel_fifo.head == e.pixel_fifo.head
            &&& f.pixels_pushed == e.pixels_pushed
            &&& f.is_window == e.is_window
            &&& f.registers == e.registers
            &&& f.tick == e.tick
            &&& f.active_sprites == e.active_sprites
        }),
{
    if e.fetch_due() && e.pixel_fifo.len <= 8 {
        filled_queue_length(e.pixel_fifo, e.fetched());
    }
}

/// The counts of the pipeline one tick on.
#[verifier::rlimit(50)]
proof fn pipeline_counts(state: int, lx: int, len: int, k: int)
    requires
        0 <= k < 176,
        0 <= state < 256,
        state % 8 == k % 8,
        lx == 8 * (k / 8),
        len == if k < 8 {
            0int
        } else if k < 16 {
            8int
        } else {
            15 - k % 8
        },
    ensures
        ((state + 1) % 256) % 8 == (k + 1) % 8,
        (state + 1) % 8 == 0 <==> (k + 1) % 8 == 0,
        (k + 1) % 8 == 0 ==> len <= 8 && (lx + 8) % 0x10000 == 8 * ((k + 1) / 8),
        (k + 1) % 8 != 0 ==> lx == 8 * ((k + 1) / 8),
        (if (k + 1) % 8 == 0 {
            len + 8
        } else {
            len
        }) == if k + 1 < 8 {
            0int
        } else if k + 1 < 16 {
            8int
        } else {
            16 - (k + 1) % 8
        },
{
}

/// The fetcher's tick, `k` ticks into the transfer.
#[verifier::rlimit(50)]
proof fn refill_in_the_pipeline(e: PPU, k: int)
    requires
        e.pixel_fifo.wf(),
        0 <= k < transfer_width(),
        e.fetch_state % 8 == k % 8,
        e.lx == 8 * (k / 8),
        e.pixel_fifo.len == if k < 8 {
            0int
        } else if k < 16 {
            8int
        } else {
            15 - k % 8
        },
    ensures
        ({
            let f = e.refill_spec();
            &&& f.pixel_fifo.wf()
            &&& f.pixel_fifo.len == if k + 1 < 8 {
                0int
            } else if k + 1 < 16 {
                8int
            } else {
                16 - (k + 1) % 8
            }
            &&& f.fetch_state % 8 == (k + 1) % 8
            &&& f.lx == 8 * ((k + 1) / 8)
            &&& f.pixels_pushed == e.pixels_pushed
            &&& f.is_window == e.is_window
            &&& f.registers == e.registers
            &&& f.tick == e.tick
            &&& f.active_sprites == e.active_sprites
        }),
{
    refill_changes(e);
    pipeline_counts(e.fetch_state as int, e.lx as int, e.pixel_fifo.len as int, k);
}

#[verifier::rlimit(50)]
proof fn transfer_stays_on_track(p: PPU, n: int, r: int)
    requires
        on_track(p, n, r),
        n < SCREEN_HEIGHT,
        OAM_WIDTH <= r < OAM_WIDTH + transfer_width(),
    ensures
        on_track(p.tick_spec(), n, r + 1),
{
    compare_flag_keeps_mode(p);
    let k = r - OAM_WIDTH;
    let c = p.coincidence_spec();
    let t = PPU { tick: c.next_tick(), ..c };
    assert(t.registers == c.registers);
    assert(t.wf());
    let w = t.window_spec();
    assert(w == t);
    let e = w.emit_spec();
    emit_in_the_pipeline(w, k);
    let f = e.refill_spec();
    refill_in_the_pipeline(e, k);
    let g = f.line_end_spec();
    assert(p.tick_spec() == g);
    assert(f.registers == c.registers);
    if f.pixels_pushed >= SCREEN_WIDTH {
        assert(k + 1 == transfer_width());
        assert(g.mode() == Mode::HBlank);
        assert(g.ly() == n);
    } else {
        assert(g == f);
    }
}

#[verifier::rlimit(50)]
proof fn blank_stays_on_track(p: PPU, n: int, r: int)
    requires
        on_track(p, n, r),
        n >= SCREEN_HEIGHT || r >= OAM_WIDTH + transfer_width(),
    ensures
        on_track(p.tick_spec(), next_line(n, r), next_column(r)),
{
    compare_flag_keeps_mode(p);
}

/// One tick moves a unit on track to the next position of the frame.
#[verifier::rlimit(50)]
pub proof fn tick_stays_on_track(p: PPU, n: int, r: int)
    requires
        on_track(p, n, r),
    ensures
        on_track(p.tick_spec(), next_line(n, r), next_column(r)),
{
    if n >= SCREEN_HEIGHT || r >= OAM_WIDTH + transfer_width() {
        blank_stays_on_track(p, n, r);
    } else if r < OAM_WIDTH {
        search_stays_on_track(p, n, r);
    } else {
        transfer_stays_on_track(p, n, r);
    }
}

/// Counting one position on in the cycle of 154 lines of 456 ticks.
#[verifier::rlimit(50)]
proof fn next_position(total: int)
    requires
        total >= 0,
    ensures
        next_line((total / 456) % 154, total % 456) == ((total + 1) / 456) % 154,
        next_column(total % 456) == (total + 1) % 456,
{
    if total % 456 + 1 < 456 {
        assert((total + 1) / 456 == total / 456 && (total + 1) % 456 == total % 456 + 1);
    } else {
        assert((total + 1) / 456 == total / 456 + 1 && (total + 1) % 456 == 0);
    }
}

/// The frame in the plain configuration. A unit that stands `r` ticks into
/// line `n` stands, `j` ticks later, where counting on leads: `j` positions
/// further in the cycle of 154 lines of 456 ticks. So each of the lines 0
/// to 143 is 80 ticks of sprite search, the pixel transfer until 160 pixels
/// are out, and the horizontal blank for the rest of its 456 ticks; the
/// lines 144 to 153 are the vertical blank; then line 0 begins again.
#[verifier::rlimit(40)]
pub proof fn frame_shape_from(p: PPU, n: int, r: int, j: nat)
    requires
        on_track(p, n, r),
    ensures
        on_track(p.ticks(j), ((n * 456 + r + j) / 456) % 154, (n * 456 + r + j) % 456),
    decreases j,
{
    let start = n * 456 + r;
    assert(start / 456 == n && start % 456 == r && start >= 0) by {
        assert(0 <= r < 456 && 0 <= n < 154);
    }
    if j > 0 {
        let i = (j - 1) as nat;
        frame_shape_from(p, n, r, i);
        next_position(start + i);
        tick_stays_on_track(p.ticks(i), ((start + i) / 456) % 154, (start + i) % 456);
    }
}

/// The frame from its beginning: a unit that begins line 0 with its sprite
/// search is, `j` ticks later, `j % 456` ticks into line `(j / 456) % 154`.
#[verifier::rlimit(50)]
pub proof fn frame_shape(p: PPU, j: nat)
    requires
        on_track(p, 0, 0),
    ensures
        on_track(p.ticks(j), ((j / 456) % 154) as int, (j % 456) as int),
{
    frame_shape_from(p, 0, 0, j);
}

/// A unit fresh from power-on is on track once the blank it starts in has
/// run out: 456 ticks later it begins line 1 with the sprite search.
#[verifier::rlimit(50)]
pub proof fn power_on_leads_on_track(p: PPU)
    requires
        p.wf(),
        p.is_initial(),
    ensures
        on_track(p.ticks(456), 1, 0),
{
    assert(p.mode() == Mode::HBlank);
    hblank_fills_the_line(p, 455);
    let q = p.ticks(455);
    hblank_step(q);
    compare_flag_keeps_mode(q);
    assert(p.ticks(456) == q.tick_spec());
    idle_through_the_blank(p, 455);
    let c = q.coincidence_spec();
    let t = q.tick_spec();
    assert(t == c.hblank_spec());
    assert(forall|i: int| 0 <= i < 16 && i != 1 && i != 4 ==> t.registers[i] == p.registers[i]);
    assert(t.pixel_fifo == p.pixel_fifo);
    assert(t.active_sprites == p.active_sprites);
    assert(t.ly() == 1 && t.tick == 0 && t.mode() == Mode::OAM);
    assert(t.wf());
    assert(plain(t));
    assert(pipeline_at(t, 0));
}

/// The horizontal blank leaves the pixel pipeline, the picture registers
/// other than the status, and the found sprites as they are.
#[verifier::rlimit(50)]
proof fn idle_through_the_blank(p: PPU, k: nat)
    requires
        p.wf(),
        p.mode() == Mode::HBlank,
        p.tick + k < TICK_WIDTH,
    ensures
        p.ticks(k).wf(),
        p.ticks(k).mode() == Mode::HBlank,
        p.ticks(k).fetch_state == p.fetch_state,
        p.ticks(k).lx == p.lx,
        p.ticks(k).pixel_fifo == p.pixel_fifo,
        p.ticks(k).pixels_pushed == p.pixels_pushed,
        p.ticks(k).is_window == p.is_window,
        p.ticks(k).active_sprites == p.active_sprites,
        forall|i: int| 0 <= i < 16 && i != 1 ==> p.ticks(k).registers[i] == p.registers[i],
    decreases k,
{
    if k > 0 {
        idle_through_the_blank(p, (k - 1) as nat);
        let q = p.ticks((k - 1) as nat);
        hblank_fills_the_line(p, (k - 1) as nat);
        hblank_step(q);
        compare_flag_keeps_mode(q);
    }
}

/// Which tick of a frame ends line 143.
#[verifier::rlimit(50)]
proof fn last_tick_of_line_143(j: nat)
    requires
        j < 456 * 154,
    ensures
        (j / 456) % 154 == j / 456,
        j + 1 < 456 * 154 ==> ((j + 1) / 456) % 154 == (j + 1) / 456,
        j + 1 == 456 * 154 ==> ((j + 1) / 456) % 154 == 0,
        j / 456 == 143 && (j + 1) / 456 == 144 <==> j == 456 * 144 - 1,
{
}

/// In such a frame the vertical-blank interrupt is requested once: by the
/// last tick of line 143, after which the current line is 144.
#[verifier::rlimit(50)]
pub proof fn vblank_requested_once_a_frame(p: PPU, j: nat)
    requires
        on_track(p, 0, 0),
        j < 456 * 154,
    ensures
        p.ticks(j).tick_requests().vblank <==> j == 456 * 144 - 1,
        j == 456 * 144 - 1 ==> p.ticks(j + 1).ly() == SCREEN_HEIGHT,
{
    frame_shape(p, j);
    frame_shape(p, j + 1);
    let q = p.ticks(j);
    assert(p.ticks(j + 1) == q.tick_spec());
    last_tick_of_line_143(j);
    assert(q.wf() && q.ly() == j / 456);
    assert(q.tick_spec().ly() == ((j + 1) / 456) % 154);
    vblank_requested_when_line_144_begins(q);
}

} // verus!
