//! The picture unit: video memory, sprite table, control registers and the
//! scanline state machine that fills the frame buffer.

use vstd::prelude::*;
use vstd::array::spec_array_update;

verus! {

pub const SCREEN_WIDTH: usize = 160;

pub const SCREEN_HEIGHT: usize = 144;

/// One byte per pixel, row after row; each holds a shade from 0 to 3.
pub type Screen = [u8; 23040];

/// One packed colour per pixel, row after row, alpha in the top byte.
pub type Canvas = [u32; 23040];

/// Index of the control register: bit 7 display on, bit 6 window tile map,
/// bit 5 window on, bit 4 tile data area, bit 3 background tile map,
/// bit 2 sprite size, bit 1 sprites on, bit 0 background on.
pub const LCD_CONTROL_REGISTER: usize = 0;

/// Index of the status register: bit 2 is cleared while the current line is
/// not the compared line, bits 1-0 hold the mode.
pub const LCD_STATUS_REGISTER: usize = 1;

/// Index of the vertical scroll register.
pub const SCY: usize = 2;

/// Index of the horizontal scroll register.
pub const SCX: usize = 3;

/// Index of the current line register, which software cannot write.
pub const LY: usize = 4;

/// Index of the line-compare register.
pub const LYC: usize = 5;

/// Index of the register that starts a copy into the sprite table.
pub const DMA: usize = 6;

/// Index of the background palette: two bits of shade for each pixel value.
pub const BGP: usize = 7;

/// Index of the first sprite palette.
pub const OBP0: usize = 8;

/// Index of the second sprite palette.
pub const OBP1: usize = 9;

/// Index of the window's top line.
pub const WY: usize = 0xA;

/// Index of the window's left column.
pub const WX: usize = 0xB;

/// Ticks in one scanline.
pub const TICK_WIDTH: u16 = 456;

/// Ticks that the sprite search of a line takes.
pub const OAM_WIDTH: u16 = 80;

/// The last line of the vertical blank.
pub const EFFECTIVE_SCAN_COUNT: u8 = 153;

/// Bytes that one copy into the sprite table moves.
pub const DMA_TRANSFER_SIZE: u8 = 160;

/// Most pixels that the queue between fetcher and screen holds.
pub const FIFO_SIZE: usize = 16;

/// What the unit is doing on the current line.
#[derive(Clone, Copy, Debug, PartialEq, Eq, Structural)]
pub enum Mode {
    HBlank,
    VBlank,
    OAM,
    VRAM,
}

/// The copy into the sprite table: its source page and how far it has come.
#[derive(Clone, Copy, Debug, PartialEq, Eq)]
pub struct DMAManager {
    pub start_location: u8,
    /// Offset of the byte to copy next, 0 to 159, while a copy runs.
    pub progress: Option<u8>,
}

impl DMAManager {
    /// The copy state after one step.
    pub open spec fn next_spec(self) -> DMAManager {
        match self.progress {
            Some(x) if x + 1 < DMA_TRANSFER_SIZE => DMAManager {
                progress: Some((x + 1) as u8),
                ..self
            },
            _ => DMAManager { progress: None, ..self },
        }
    }

    /// Source and destination of the byte that the coming step copies.
    pub open spec fn next_pair(self) -> Option<(u16, u16)> {
        match self.progress {
            Some(x) if x < DMA_TRANSFER_SIZE => Some(
                ((self.start_location * 256 + x) as u16, (0xFE00 + x) as u16),
            ),
            _ => None,
        }
    }

    pub fn new() -> (r: Self)
        ensures
            r == (DMAManager { start_location: 0, progress: None }),
    {
        DMAManager { start_location: 0, progress: None }
    }

    /// Steps the copy: the addresses of the next byte, or `None` when no copy runs.
    pub fn next(&mut self) -> (r: Option<(u16, u16)>)
        ensures
            *final(self) == old(self).next_spec(),
            r == old(self).next_pair(),
    {
        match self.progress {
            Some(x) => {
                self.progress = if x < DMA_TRANSFER_SIZE - 1 {
                    Some(x + 1)
                } else {
                    None
                };
                if x < DMA_TRANSFER_SIZE {
                    let from: u16 = (self.start_location as u16) * 256 + x as u16;
                    let to: u16 = 0xFE00 + x as u16;
                    Some((from, to))
                } else {
                    None
                }
            },
            None => None,
        }
    }

    /// Starts a copy of 160 bytes from page `val`.
    pub fn start_transfer(&mut self, val: u8)
        ensures
            *final(self) == (DMAManager { start_location: val, progress: Some(0) }),
    {
        self.start_location = val;
        self.progress = Some(0);
    }
}

/// One entry of the sprite table.
#[derive(Clone, Copy, Debug, PartialEq, Eq)]
pub struct Sprite {
    pub pos_x: u8,
    pub pos_y: u8,
    pub tile: u8,
    pub flags: u8,
}

/// Where a pixel came from, which decides its palette.
#[derive(Clone, Copy, Debug, PartialEq, Eq, Structural)]
pub enum PixelSrc {
    BG,
    S1,
    S2,
}

/// A pixel in flight: its two-bit value and its source.
#[derive(Clone, Copy, Debug, PartialEq, Eq, Structural)]
pub struct PixelData {
    pub value: u8,
    pub src: PixelSrc,
}

impl Sprite {
    /// Bit 3 of the flags: the background covers the sprite.
    pub open spec fn priority_spec(self) -> u8 {
        (self.flags / 8) % 2
    }

    /// Bit 2 of the flags.
    pub open spec fn y_flipped(self) -> bool {
        (self.flags / 4) % 2 == 1
    }

    /// Bit 2 of the flags.
    pub open spec fn x_flipped(self) -> bool {
        (self.flags / 4) % 2 == 1
    }

    /// Bit 2 of the flags chooses the second sprite palette.
    pub open spec fn palette_spec(self) -> PixelSrc {
        if (self.flags / 4) % 2 == 1 {
            PixelSrc::S2
        } else {
            PixelSrc::S1
        }
    }

    /// The sprite is drawn on line `ly`: it is not parked at column 0 and the
    /// line lies in the eight lines below its top, which is `pos_y - 16`.
    pub open spec fn on_line(self, ly: u8) -> bool {
        self.pos_x != 0 && self.pos_y <= ly + 16 < self.pos_y + 8
    }

    pub fn new() -> (r: Self)
        ensures
            r == (Sprite { pos_x: 0, pos_y: 0, tile: 0, flags: 0 }),
    {
        Sprite { pos_x: 0, pos_y: 0, tile: 0, flags: 0 }
    }

    /// The entry held in the four bytes of `mem` from `loc` on.
    pub fn from_memory(mem: &[u8; 0x2000], loc: usize) -> (r: Self)
        requires
            loc + 3 < 0x2000,
        ensures
            r == (Sprite {
                pos_y: mem[loc as int],
                pos_x: mem[loc + 1],
                tile: mem[loc + 2],
                flags: mem[loc + 3],
            }),
    {
        Sprite { pos_y: mem[loc], pos_x: mem[loc + 1], tile: mem[loc + 2], flags: mem[loc + 3] }
    }

    pub fn priority(&self) -> (r: u8)
        ensures
            r == self.priority_spec(),
    {
        (self.flags / 8) % 2
    }

    pub fn is_x_flipped(&self) -> (r: bool)
        ensures
            r == self.x_flipped(),
    {
        (self.flags / 4) % 2 == 1
    }

    pub fn is_y_flipped(&self) -> (r: bool)
        ensures
            r == self.y_flipped(),
    {
        (self.flags / 4) % 2 == 1
    }

    pub fn palette(&self) -> (r: PixelSrc)
        ensures
            r == self.palette_spec(),
    {
        if (self.flags / 4) % 2 == 1 {
            PixelSrc::S2
        } else {
            PixelSrc::S1
        }
    }

    pub fn is_on_line(&self, ly: u8) -> (r: bool)
        ensures
            r == self.on_line(ly),
    {
        let line: u16 = ly as u16 + 16;
        self.pos_x != 0 && self.pos_y as u16 <= line && line < self.pos_y as u16 + 8
    }
}

/// The queue of pixels between fetcher and screen: a ring of 16 slots.
#[derive(Clone, Copy, Debug)]
pub struct PixelFifo {
    pub slots: [PixelData; 16],
    /// Slot of the oldest pixel.
    pub head: usize,
    /// Pixels queued.
    pub len: usize,
}

impl View for PixelFifo {
    type V = Seq<PixelData>;

    /// The queued pixels, oldest first.
    open spec fn view(&self) -> Seq<PixelData> {
        Seq::new(self.len as nat, |i: int| self.at(i))
    }
}

impl PixelFifo {
    /// What holds of a valid value: every field is in the range that the operations keep it in.
    pub open spec fn wf(self) -> bool {
        self.head < FIFO_SIZE && self.len <= FIFO_SIZE
    }

    /// The pixel `i` places behind the oldest.
    pub open spec fn at(self, i: int) -> PixelData {
        self.slots[(self.head + i) % 16]
    }

    /// The queue with `p` behind everything queued.
    pub open spec fn push_spec(self, p: PixelData) -> PixelFifo {
        PixelFifo {
            slots: spec_array_update(self.slots, (self.head + self.len) % 16, p),
            len: (self.len + 1) as usize,
            ..self
        }
    }

    /// The queue without its oldest pixel.
    pub open spec fn pop_spec(self) -> PixelFifo {
        PixelFifo { head: ((self.head + 1) % 16) as usize, len: (self.len - 1) as usize, ..self }
    }

    /// The empty queue.
    pub open spec fn clear_spec(self) -> PixelFifo {
        PixelFifo { head: 0, len: 0, ..self }
    }

    /// The queue with `p` in place of the pixel `i` places behind the oldest,
    /// if `p` is not transparent and the queue is that long.
    pub open spec fn paint_spec(self, i: int, p: PixelData) -> PixelFifo {
        if p.value != 0 && i < self.len {
            PixelFifo { slots: spec_array_update(self.slots, (self.head + i) % 16, p), ..self }
        } else {
            self
        }
    }

    pub fn new() -> (r: Self)
        ensures
            r.wf(),
            r.len == 0,
            r.head == 0,
            r@ == Seq::<PixelData>::empty(),
            forall|i: int|
                0 <= i < FIFO_SIZE ==> r.slots[i] == (PixelData { value: 0, src: PixelSrc::BG }),
    {
        PixelFifo { slots: [PixelData { value: 0, src: PixelSrc::BG }; 16], head: 0, len: 0 }
    }

    pub fn push(&mut self, p: PixelData)
        requires
            old(self).wf(),
            old(self).len < FIFO_SIZE,
        ensures
            final(self).wf(),
            *final(self) == old(self).push_spec(p),
            final(self)@ == old(self)@.push(p),
    {
        let slot: usize = (self.head + self.len) % 16;
        self.slots[slot] = p;
        self.len = self.len + 1;
        assert(self@ =~= old(self)@.push(p)) by {
            assert forall|i: int| 0 <= i < old(self).len implies #[trigger] self.at(i) == old(
                self,
            ).at(i) by {
                assert((old(self).head + i) % 16 != slot as int);
            }
        }
    }

    pub fn pop(&mut self) -> (p: PixelData)
        requires
            old(self).wf(),
            old(self).len > 0,
        ensures
            final(self).wf(),
            *final(self) == old(self).pop_spec(),
            p == old(self).at(0),
            p == old(self)@[0],
            final(self)@ == old(self)@.subrange(1, old(self).len as int),
    {
        let p = self.slots[self.head];
        self.head = (self.head + 1) % 16;
        self.len = self.len - 1;
        assert(self@ =~= old(self)@.subrange(1, old(self).len as int)) by {
            assert forall|i: int| 0 <= i < self.len implies #[trigger] self.at(i) == old(
                self,
            ).at(i + 1) by {
                assert((self.head + i) % 16 == (old(self).head + (i + 1)) % 16);
            }
        }
        p
    }

    pub fn clear(&mut self)
        ensures
            final(self).wf(),
            *final(self) == old(self).clear_spec(),
            final(self)@ == Seq::<PixelData>::empty(),
    {
        self.head = 0;
        self.len = 0;
    }

    pub fn paint(&mut self, i: usize, p: PixelData)
        requires
            old(self).wf(),
            i < FIFO_SIZE,
        ensures
            final(self).wf(),
            *final(self) == old(self).paint_spec(i as int, p),
    {
        if p.value != 0 && i < self.len {
            let slot: usize = (self.head + i) % 16;
            self.slots[slot] = p;
        }
    }
}

/// The eight pixels of a tile line given by its two bytes.
pub open spec fn tile_line(low: u8, high: u8, src: PixelSrc) -> [PixelData; 8] {
    [
        PixelData { value: pixel_value(low, high, 0), src },
        PixelData { value: pixel_value(low, high, 1), src },
        PixelData { value: pixel_value(low, high, 2), src },
        PixelData { value: pixel_value(low, high, 3), src },
        PixelData { value: pixel_value(low, high, 4), src },
        PixelData { value: pixel_value(low, high, 5), src },
        PixelData { value: pixel_value(low, high, 6), src },
        PixelData { value: pixel_value(low, high, 7), src },
    ]
}

/// Value of pixel `i`, counted from the left, of a tile line given by its
/// two bytes: bit `7 - i` of `high` and of `low`, the first weighing two.
pub open spec fn pixel_value(low: u8, high: u8, i: u8) -> u8 {
    (((high >> ((7 - i) as u8)) % 2) * 2 + (low >> ((7 - i) as u8)) % 2) as u8
}


/// Interrupts that one tick of the picture unit requests.
#[derive(Clone, Copy, Debug, PartialEq, Eq, Structural)]
pub struct PpuRequests {
    /// The vertical blank begins.
    pub vblank: bool,
    /// The current line is the compared line.
    pub lcd_stat: bool,
}

pub struct PPU {
    pub screen: Box<[u8; 23040]>,
    pub vram: Box<[u8; 0x2000]>,
    pub registers: [u8; 16],
    /// Ticks spent on the current line, at most `TICK_WIDTH`.
    pub tick: u16,
    pub oam_ram: [Sprite; 40],
    /// Table indices of the sprites found for the current line.
    pub active_sprites: [Option<usize>; 10],
    pub pixel_fifo: PixelFifo,
    /// Pixels of the current line already on the screen.
    pub pixels_pushed: usize,
    /// Ticks the fetcher has run, modulo 256; it delivers when this is a multiple of 8.
    pub fetch_state: u8,
    /// Pixels of the current line already fetched.
    pub lx: u16,
    /// The fetcher reads the window, not the background.
    pub is_window: bool,
    pub dma: DMAManager,
}

/// Ten empty sprite slots.
pub open spec fn no_sprites() -> [Option<usize>; 10] {
    [None, None, None, None, None, None, None, None, None, None]
}

/// Register value that stands for a mode.
pub open spec fn mode_code(m: Mode) -> u8 {
    match m {
        Mode::HBlank => 0,
        Mode::VBlank => 1,
        Mode::OAM => 2,
        Mode::VRAM => 3,
    }
}

/// Packed colour of a shade.
pub open spec fn shade_colour(shade: u8) -> u32 {
    if shade == 0 {
        0xFF0FBC9C
    } else if shade == 1 {
        0xFF0FAC8B
    } else if shade == 2 {
        0xFF306230
    } else {
        0xFF0F380F
    }
}

impl PPU {
    // ----- the registers by name -----

    /// The control register.
    pub open spec fn lcdc(self) -> u8 {
        self.registers[0]
    }

    /// The status register.
    pub open spec fn stat(self) -> u8 {
        self.registers[1]
    }

    /// The vertical scroll.
    pub open spec fn scy(self) -> u8 {
        self.registers[2]
    }

    /// The horizontal scroll.
    pub open spec fn scx(self) -> u8 {
        self.registers[3]
    }

    /// The current line.
    pub open spec fn ly(self) -> u8 {
        self.registers[4]
    }

    /// The compared line.
    pub open spec fn lyc(self) -> u8 {
        self.registers[5]
    }

    /// The window's top line.
    pub open spec fn wy(self) -> u8 {
        self.registers[10]
    }

    /// The window's left column.
    pub open spec fn wx(self) -> u8 {
        self.registers[11]
    }

    /// The mode, held in the low two bits of the status register.
    pub open spec fn mode(self) -> Mode {
        match self.stat() % 4 {
            0 => Mode::HBlank,
            1 => Mode::VBlank,
            2 => Mode::OAM,
            _ => Mode::VRAM,
        }
    }

    /// The state with `v` in the register of index `index`.
    pub open spec fn with_reg(self, index: int, val: u8) -> PPU {
        PPU { registers: spec_array_update(self.registers, index, val), ..self }
    }

    /// The unit in mode `m`, the other status bits unchanged.
    pub open spec fn with_mode(self, m: Mode) -> PPU {
        self.with_reg(1, (self.stat() - self.stat() % 4 + mode_code(m)) as u8)
    }

    /// The unit as it is at power-on: in the horizontal blank of line 0 with
    /// no tick spent, every register and every byte of its memories 0, the
    /// queue empty, no sprite found and no copy running.
    pub open spec fn is_initial(self) -> bool {
        &&& self.tick == 0
        &&& self.pixels_pushed == 0
        &&& self.fetch_state == 0
        &&& self.lx == 0
        &&& !self.is_window
        &&& self.pixel_fifo.len == 0
        &&& self.pixel_fifo.head == 0
        &&& self.dma == (DMAManager { start_location: 0, progress: None })
        &&& forall|i: int| 0 <= i < 16 ==> self.registers[i] == 0
        &&& forall|i: int| 0 <= i < 0x2000 ==> self.vram[i] == 0
        &&& forall|i: int| 0 <= i < 23040 ==> self.screen[i] == 0
        &&& forall|i: int|
            0 <= i < 40 ==> self.oam_ram[i] == (Sprite { pos_x: 0, pos_y: 0, tile: 0, flags: 0 })
        &&& forall|i: int| 0 <= i < 10 ==> self.active_sprites[i] is None
    }

    /// What holds of the unit between any two ticks.
    pub open spec fn wf(self) -> bool {
        &&& self.tick <= TICK_WIDTH
        &&& self.pixels_pushed < SCREEN_WIDTH
        &&& self.ly() <= EFFECTIVE_SCAN_COUNT
        &&& (self.mode() == Mode::VBlank <==> self.ly() >= SCREEN_HEIGHT)
        &&& self.pixel_fifo.wf()
        &&& forall|k: int|
            0 <= k < 10 ==> (#[trigger] self.active_sprites[k] matches Some(j) ==> j < 40)
    }

    // ----- colours and tiles -----

    /// Shade of a pixel: the two bits that the palette of its source holds for its value.
    pub open spec fn shade(self, p: PixelData) -> u8 {
        let palette = match p.src {
            PixelSrc::BG => self.registers[7],
            PixelSrc::S1 => self.registers[8],
            PixelSrc::S2 => self.registers[9],
        };
        (palette >> (((p.value % 4) * 2) as u8)) % 4
    }

    /// Offset in video memory of the tile map: the second map if `num` is not 0.
    pub open spec fn tilemap_base(num: u8) -> u16 {
        if num > 0 {
            0x1C00
        } else {
            0x1800
        }
    }

    /// Line of the background that the current line shows.
    pub open spec fn effective_y(self) -> u8 {
        ((self.ly() + self.scy()) % 256) as u8
    }

    /// Offset in video memory of the tile that the fetcher stands on, in the
    /// map at `map`: the map has 32 tiles a row; the tile number counts from
    /// offset 0, or as a signed number from offset `0x1000`, as bit 4 of the
    /// control register says.
    pub open spec fn tile_loc(self, map: u16) -> int {
        let offset = (self.effective_y() / 8) * 32 + (self.lx / 8) % 32;
        let tile = self.vram[map + offset];
        if (self.lcdc() / 16) % 2 == 1 || tile >= 128 {
            tile * 16
        } else {
            tile * 16 + 0x1000
        }
    }

    /// Offset of the background tile that the fetcher stands on.
    pub open spec fn background_tile_loc(self) -> int {
        self.tile_loc(Self::tilemap_base(((self.lcdc() / 8) % 2) as u8))
    }

    /// Offset of the window tile that the fetcher stands on.
    pub open spec fn window_tile_loc(self) -> int {
        self.tile_loc(Self::tilemap_base(((self.lcdc() / 64) % 2) as u8))
    }

    /// The eight pixels of line `line` of the tile at `loc`.
    pub open spec fn tile_pixels(self, loc: int, line: int, src: PixelSrc) -> [PixelData; 8] {
        tile_line(self.vram[loc + line * 2], self.vram[loc + line * 2 + 1], src)
    }

    // ----- the fetcher -----

    /// The fetcher delivers on the coming tick.
    pub open spec fn fetch_due(self) -> bool {
        (self.fetch_state + 1) % 8 == 0
    }

    /// What the fetcher delivers when it is due: the line of the tile it
    /// stands on, from the window or the background.
    pub open spec fn fetched(self) -> [PixelData; 8] {
        let loc = if self.is_window {
            self.window_tile_loc()
        } else {
            self.background_tile_loc()
        };
        self.tile_pixels(loc, (self.effective_y() % 8) as int, PixelSrc::BG)
    }

    /// The unit after one tick of the fetcher.
    pub open spec fn fetch_spec(self) -> PPU {
        PPU {
            fetch_state: ((self.fetch_state + 1) % 256) as u8,
            lx: if self.fetch_due() {
                ((self.lx + 8) % 0x10000) as u16
            } else {
                self.lx
            },
            ..self
        }
    }

    /// The queue after the eight pixels `px` have joined it.
    pub open spec fn filled(fifo: PixelFifo, px: [PixelData; 8]) -> PixelFifo {
        fifo.push_spec(px[0]).push_spec(px[1]).push_spec(px[2]).push_spec(px[3]).push_spec(
            px[4],
        ).push_spec(px[5]).push_spec(px[6]).push_spec(px[7])
    }

    // ----- sprites -----

    /// The found sprites and their number after the first `n` entries of the
    /// table `oam` have been searched for line `ly`: entries on the line, in
    /// table order, ten at most.
    pub open spec fn scan_upto(oam: [Sprite; 40], ly: u8, n: nat) -> ([Option<usize>; 10], int)
        decreases n,
    {
        if n == 0 {
            (no_sprites(), 0)
        } else {
            let (found, count) = Self::scan_upto(oam, ly, (n - 1) as nat);
            if count < 10 && oam[n - 1].on_line(ly) {
                (spec_array_update(found, count, Some((n - 1) as usize)), count + 1)
            } else {
                (found, count)
            }
        }
    }

    /// The sprites of the current line: the first ten table entries on it.
    pub open spec fn found_sprites(self) -> [Option<usize>; 10] {
        Self::scan_upto(self.oam_ram, self.ly(), 40).0
    }

    /// The sprite in slot `slot` is drawn from the column the fetcher stands on.
    pub open spec fn sprite_here(self, slot: int) -> bool {
        match self.active_sprites[slot] {
            Some(j) => j < 40 && self.oam_ram[j as int].pos_x == self.lx + 8
                && self.oam_ram[j as int].on_line(self.ly()),
            None => false,
        }
    }

    /// The queue `fifo` with the sprite in slot `slot` laid over its first
    /// eight pixels, where the sprite is drawn here and is not transparent.
    pub open spec fn overlay_slot(self, fifo: PixelFifo, slot: int) -> PixelFifo {
        if self.sprite_here(slot) {
            let s = self.oam_ram[self.active_sprites[slot]->0 as int];
            let px = self.tile_pixels(s.tile * 16, self.ly() + 16 - s.pos_y, s.palette_spec());
            fifo.paint_spec(0, px[0]).paint_spec(1, px[1]).paint_spec(2, px[2]).paint_spec(
                3,
                px[3],
            ).paint_spec(4, px[4]).paint_spec(5, px[5]).paint_spec(6, px[6]).paint_spec(7, px[7])
        } else {
            fifo
        }
    }

    /// The queue with the sprites of the first `n` slots laid over it, in slot order.
    pub open spec fn overlay_upto(self, n: nat) -> PixelFifo
        decreases n,
    {
        if n == 0 {
            self.pixel_fifo
        } else {
            self.overlay_slot(self.overlay_upto((n - 1) as nat), n - 1)
        }
    }

    // ----- one tick, mode by mode -----

    /// The line count after the coming tick; it stops at `TICK_WIDTH`.
    pub open spec fn next_tick(self) -> u16 {
        if self.tick < TICK_WIDTH {
            (self.tick + 1) as u16
        } else {
            TICK_WIDTH
        }
    }

    /// The current line is the compared line.
    pub open spec fn coincides(self) -> bool {
        self.ly() == self.lyc()
    }

    /// The unit with bit 2 of the status register cleared unless the current
    /// line is the compared line.
    pub open spec fn coincidence_spec(self) -> PPU {
        if self.coincides() {
            self
        } else {
            self.with_reg(1, (self.stat() - ((self.stat() / 4) % 2) * 4) as u8)
        }
    }

    /// A tick in the horizontal blank: when the line has had its 456 ticks
    /// the next one begins, with the sprite search or, after line 143, the
    /// vertical blank.
    pub open spec fn hblank_spec(self) -> PPU {
        if self.next_tick() >= TICK_WIDTH {
            let next = PPU { tick: 0, ..self.with_reg(4, (self.ly() + 1) as u8) };
            if self.ly() + 1 >= SCREEN_HEIGHT {
                next.with_mode(Mode::VBlank)
            } else {
                next.with_mode(Mode::OAM)
            }
        } else {
            PPU { tick: self.next_tick(), ..self }
        }
    }

    /// A tick in the vertical blank: lines pass every 456 ticks; after line
    /// 153 comes line 0 and its sprite search.
    pub open spec fn vblank_spec(self) -> PPU {
        if self.next_tick() >= TICK_WIDTH {
            if self.ly() >= EFFECTIVE_SCAN_COUNT {
                (PPU { tick: 0, ..self.with_reg(4, 0) }).with_mode(Mode::OAM)
            } else {
                PPU { tick: 0, ..self.with_reg(4, (self.ly() + 1) as u8) }
            }
        } else {
            PPU { tick: self.next_tick(), ..self }
        }
    }

    /// A tick of the sprite search: the first tick forgets the sprites of the
    /// line before, the 80th has found those of this line and starts the
    /// pixel transfer.
    pub open spec fn oam_spec(self) -> PPU {
        if self.next_tick() == 1 {
            PPU { tick: 1, active_sprites: no_sprites(), ..self }
        } else if self.next_tick() == OAM_WIDTH {
            (PPU { tick: OAM_WIDTH, active_sprites: self.found_sprites(), ..self }).with_mode(
                Mode::VRAM,
            )
        } else {
            PPU { tick: self.next_tick(), ..self }
        }
    }

    /// The coming pixel lies in the window and the window is on (bit 5 of the
    /// control register).
    pub open spec fn window_wanted(self) -> bool {
        self.pixels_pushed >= self.wx() && self.ly() >= self.wy() && (self.lcdc() / 32) % 2 == 1
    }

    /// The unit after the fetcher has turned to the window or back to the
    /// background, which empties the queue.
    pub open spec fn window_spec(self) -> PPU {
        if self.window_wanted() != self.is_window {
            PPU {
                is_window: self.window_wanted(),
                pixel_fifo: self.pixel_fifo.clear_spec(),
                ..self
            }
        } else {
            self
        }
    }

    /// The queue holds more than eight pixels, so the coming tick takes one out.
    pub open spec fn emits(self) -> bool {
        self.pixel_fifo.len > 8
    }

    /// The pixel taken out reaches the screen: the fetcher is past the
    /// columns scrolled away.
    pub open spec fn shows(self) -> bool {
        self.emits() && self.lx >= self.scx()
    }

    /// The unit after the oldest pixel, with the sprites laid over the queue,
    /// has left the queue for the screen.
    pub open spec fn emit_spec(self) -> PPU {
        if self.emits() {
            let over = self.overlay_upto(10);
            if self.lx >= self.scx() {
                PPU {
                    pixel_fifo: over.pop_spec(),
                    screen: Box::new(
                        spec_array_update(
                            *self.screen,
                            self.pixels_pushed + self.ly() * SCREEN_WIDTH,
                            self.shade(over.at(0)),
                        ),
                    ),
                    pixels_pushed: (self.pixels_pushed + 1) as usize,
                    ..self
                }
            } else {
                PPU { pixel_fifo: over.pop_spec(), ..self }
            }
        } else {
            self
        }
    }

    /// The unit after the fetcher's tick, its delivery joining the queue
    /// when the queue has room for it.
    pub open spec fn refill_spec(self) -> PPU {
        let after = self.fetch_spec();
        if self.fetch_due() && self.pixel_fifo.len <= 8 {
            PPU { pixel_fifo: Self::filled(self.pixel_fifo, self.fetched()), ..after }
        } else {
            after
        }
    }

    /// The unit at the end of a tick of the pixel transfer: with 160 pixels
    /// on the screen the line is complete and the horizontal blank begins.
    pub open spec fn line_end_spec(self) -> PPU {
        if self.pixels_pushed >= SCREEN_WIDTH {
            (PPU {
                pixels_pushed: 0,
                lx: 0,
                pixel_fifo: self.pixel_fifo.clear_spec(),
                ..self
            }).with_mode(Mode::HBlank)
        } else {
            self
        }
    }

    /// A tick of the pixel transfer.
    pub open spec fn vram_spec(self) -> PPU {
        (PPU { tick: self.next_tick(), ..self }).window_spec().emit_spec().refill_spec().line_end_spec()
    }

    /// The unit after one tick.
    pub open spec fn tick_spec(self) -> PPU {
        let p = self.coincidence_spec();
        match p.mode() {
            Mode::HBlank => p.hblank_spec(),
            Mode::VBlank => p.vblank_spec(),
            Mode::OAM => p.oam_spec(),
            Mode::VRAM => p.vram_spec(),
        }
    }

    /// The interrupts that the coming tick requests: the vertical blank when
    /// line 143 ends, the status interrupt while the current line is the
    /// compared line.
    pub open spec fn tick_requests(self) -> PpuRequests {
        PpuRequests {
            vblank: self.mode() == Mode::HBlank && self.next_tick() >= TICK_WIDTH && self.ly() + 1
                >= SCREEN_HEIGHT,
            lcd_stat: self.coincides(),
        }
    }

    /// The unit after `n` ticks.
    pub open spec fn ticks(self, n: nat) -> PPU
        decreases n,
    {
        if n == 0 {
            self
        } else {
            self.ticks((n - 1) as nat).tick_spec()
        }
    }

    // ----- memory and registers as the bus sees them -----

    /// The addresses of video memory.
    pub open spec fn owns_vram(loc: u16) -> bool {
        0x8000 <= loc <= 0x9FFF
    }

    /// The addresses of the sprite table.
    pub open spec fn owns_oam(loc: u16) -> bool {
        0xFE00 <= loc <= 0xFE9F
    }

    /// The addresses of the picture registers.
    pub open spec fn owns_reg(loc: u16) -> bool {
        0xFF40 <= loc <= 0xFF4B
    }

    /// Video memory is open to the processor in every mode.
    pub open spec fn read_spec(self, loc: u16) -> u8 {
        self.vram[loc - 0x8000]
    }

    /// The state after `val` is written at `loc`.
    pub open spec fn write_spec(self, loc: u16, val: u8) -> PPU {
        PPU { vram: Box::new(spec_array_update(*self.vram, loc - 0x8000, val)), ..self }
    }

    /// The sprite table is closed to the processor during the sprite search
    /// and the pixel transfer.
    pub open spec fn oam_blocked(self) -> bool {
        self.mode() == Mode::VRAM || self.mode() == Mode::OAM
    }

    /// Byte `index` of the sprite table: four bytes an entry, which are its
    /// line, its column, its tile and its flags.
    pub open spec fn oam_byte(self, index: int) -> u8 {
        let s = self.oam_ram[index / 4];
        if index % 4 == 0 {
            s.pos_y
        } else if index % 4 == 1 {
            s.pos_x
        } else if index % 4 == 2 {
            s.tile
        } else {
            s.flags
        }
    }

    /// The unit with `val` as byte `index` of the sprite table.
    pub open spec fn store_oam_spec(self, index: int, val: u8) -> PPU {
        let s = self.oam_ram[index / 4];
        let t = if index % 4 == 0 {
            Sprite { pos_y: val, ..s }
        } else if index % 4 == 1 {
            Sprite { pos_x: val, ..s }
        } else if index % 4 == 2 {
            Sprite { tile: val, ..s }
        } else {
            Sprite { flags: val, ..s }
        };
        PPU { oam_ram: spec_array_update(self.oam_ram, index / 4, t), ..self }
    }

    /// What the processor reads in the sprite table: `0xFF` while it is closed.
    pub open spec fn read_oam_spec(self, loc: u16) -> u8 {
        if self.oam_blocked() {
            0xFF
        } else {
            self.oam_byte(loc - 0xFE00)
        }
    }

    /// A write of the processor to the sprite table is lost while it is closed.
    pub open spec fn write_oam_spec(self, loc: u16, val: u8) -> PPU {
        if self.oam_blocked() {
            self
        } else {
            self.store_oam_spec(loc - 0xFE00, val)
        }
    }

    /// The picture register at `loc`.
    pub open spec fn read_reg_spec(self, loc: u16) -> u8 {
        self.registers[loc - 0xFF40]
    }

    /// The unit after a register write: the current line cannot be written,
    /// the low three status bits cannot either, and a write to the copy
    /// register starts a copy.
    pub open spec fn write_reg_spec(self, loc: u16, val: u8) -> PPU {
        let l = loc - 0xFF40;
        if l == 4 {
            self
        } else if l == 1 {
            self.with_reg(1, (val - val % 8 + self.stat() % 8) as u8)
        } else if l == 6 {
            PPU { dma: DMAManager { start_location: val, progress: Some(0) }, ..self.with_reg(6, val) }
        } else {
            self.with_reg(l, val)
        }
    }

    // ----- executable code -----

    pub fn new() -> (r: Self)
        ensures
            r.wf(),
            r.is_initial(),
    {
        PPU {
            screen: Box::new([0u8; 23040]),
            vram: Box::new([0u8; 0x2000]),
            registers: [0u8; 16],
            oam_ram: [Sprite { pos_x: 0, pos_y: 0, tile: 0, flags: 0 }; 40],
            tick: 0,
            active_sprites: [None; 10],
            pixel_fifo: PixelFifo::new(),
            pixels_pushed: 0,
            fetch_state: 0,
            is_window: false,
            lx: 0,
            dma: DMAManager::new(),
        }
    }

    /// Whether the unit is in a state that its own operations can have left it in.
    #[verifier::rlimit(50)]
    pub fn is_valid(&self) -> (r: bool)
        ensures
            r == self.wf(),
    {
        let ly: u8 = self.registers[LY];
        let blank: bool = self.registers[LCD_STATUS_REGISTER] % 4 == 1;
        if !(self.tick <= TICK_WIDTH && self.pixels_pushed < SCREEN_WIDTH && ly
            <= EFFECTIVE_SCAN_COUNT && blank == (ly as usize >= SCREEN_HEIGHT)
            && self.pixel_fifo.head < FIFO_SIZE && self.pixel_fifo.len <= FIFO_SIZE) {
            return false;
        }
        let mut k: usize = 0;
        while k < 10
            invariant
                k <= 10,
                forall|i: int|
                    0 <= i < k ==> (#[trigger] self.active_sprites[i] matches Some(j) ==> j < 40),
            decreases 10 - k,
        {
            if let Some(j) = self.active_sprites[k] {
                if j >= 40 {
                    return false;
                }
            }
            k += 1;
        }
        true
    }

    /// The frame buffer as packed colours.
    #[verifier::rlimit(50)]
    pub fn get_canvas(&self) -> (canvas: Box<[u32; 23040]>)
        ensures
            forall|i: int| 0 <= i < 23040 ==> canvas[i] == shade_colour(self.screen[i]),
    {
        let mut canvas: Box<[u32; 23040]> = Box::new([0u32; 23040]);
        let mut i: usize = 0;
        while i < 23040
            invariant
                i <= 23040,
                forall|j: int| 0 <= j < i ==> canvas[j] == shade_colour(self.screen[j]),
            decreases 23040 - i,
        {
            let colour: u32 = match self.screen[i] {
                0 => 0xFF0FBC9C,
                1 => 0xFF0FAC8B,
                2 => 0xFF306230,
                _ => 0xFF0F380F,
            };
            canvas[i] = colour;
            i += 1;
        }
        canvas
    }

    pub fn get_screen(&self) -> (r: &[u8; 23040])
        ensures
            *r == *self.screen,
    {
        &*self.screen
    }

    pub fn lookup_color(&self, p: PixelData) -> (r: u8)
        ensures
            r == self.shade(p),
            r <= 3,
    {
        let palette: u8 = match p.src {
            PixelSrc::BG => self.registers[BGP],
            PixelSrc::S1 => self.registers[OBP0],
            PixelSrc::S2 => self.registers[OBP1],
        };
        (palette >> ((p.value % 4) * 2)) % 4
    }

    pub fn tilemap_loc(&self, num: u8) -> (r: u16)
        ensures
            r == Self::tilemap_base(num),
    {
        if num > 0 {
            0x1C00
        } else {
            0x1800
        }
    }

    pub fn get_effective_y(&self) -> (r: u8)
        ensures
            r == self.effective_y(),
    {
        ((self.registers[LY] as u16 + self.registers[SCY] as u16) % 256) as u8
    }

    pub fn window_or_background_tilemap_loc(&self, tilemap_loc: u16) -> (r: usize)
        requires
            tilemap_loc == 0x1800 || tilemap_loc == 0x1C00,
        ensures
            r == self.tile_loc(tilemap_loc),
            r <= 0x17F0,
    {
        let y: u8 = self.get_effective_y();
        let offset: usize = (y as usize) / 8 * 32 + ((self.lx as usize) / 8) % 32;
        let tile_idx: u8 = self.vram[tilemap_loc as usize + offset];
        if (self.registers[LCD_CONTROL_REGISTER] / 16) % 2 == 1 || tile_idx >= 128 {
            tile_idx as usize * 16
        } else {
            tile_idx as usize * 16 + 0x1000
        }
    }

    pub fn background_tilemap_loc(&self) -> (r: usize)
        ensures
            r == self.background_tile_loc(),
            r <= 0x17F0,
    {
        let tilemap_loc: u16 = self.tilemap_loc((self.registers[LCD_CONTROL_REGISTER] / 8) % 2);
        self.window_or_background_tilemap_loc(tilemap_loc)
    }

    pub fn window_tilemap_loc(&self) -> (r: usize)
        ensures
            r == self.window_tile_loc(),
            r <= 0x17F0,
    {
        let tilemap_loc: u16 = self.tilemap_loc((self.registers[LCD_CONTROL_REGISTER] / 64) % 2);
        self.window_or_background_tilemap_loc(tilemap_loc)
    }

    pub fn sprite_tile_loc(&self, idx: u8) -> (r: usize)
        ensures
            r == idx * 16,
    {
        idx as usize * 16
    }

    /// Decodes line `line` of the tile at `loc` as background pixels.
    pub fn decode_tile(&self, loc: usize, line: usize) -> (r: [PixelData; 8])
        requires
            loc + line * 2 + 1 < 0x2000,
        ensures
            r == self.tile_pixels(loc as int, line as int, PixelSrc::BG),
    {
        self.decode_tile_as(loc, line, PixelSrc::BG)
    }

    fn decode_tile_as(&self, loc: usize, line: usize, src: PixelSrc) -> (r: [PixelData; 8])
        requires
            loc + line * 2 + 1 < 0x2000,
        ensures
            r == self.tile_pixels(loc as int, line as int, src),
    {
        let vloc: usize = loc + line * 2;
        let low: u8 = self.vram[vloc];
        let high: u8 = self.vram[vloc + 1];
        let r = [
            PixelData { value: decode_pixel(low, high, 0), src },
            PixelData { value: decode_pixel(low, high, 1), src },
            PixelData { value: decode_pixel(low, high, 2), src },
            PixelData { value: decode_pixel(low, high, 3), src },
            PixelData { value: decode_pixel(low, high, 4), src },
            PixelData { value: decode_pixel(low, high, 5), src },
            PixelData { value: decode_pixel(low, high, 6), src },
            PixelData { value: decode_pixel(low, high, 7), src },
        ];
        assert(r =~= self.tile_pixels(loc as int, line as int, src));
        r
    }

    /// One tick of the fetcher: every eighth tick it delivers the line of the
    /// tile it stands on and moves eight pixels on.
    #[verifier::rlimit(50)]
    pub fn fetch(&mut self) -> (r: Option<[PixelData; 8]>)
        ensures
            *final(self) == old(self).fetch_spec(),
            old(self).fetch_due() ==> r == Some(old(self).fetched()),
            !old(self).fetch_due() ==> r is None,
    {
        self.fetch_state = self.fetch_state.wrapping_add(1);
        if self.fetch_state % 8 == 0 {
            let loc: usize = if self.is_window {
                self.window_tilemap_loc()
            } else {
                self.background_tilemap_loc()
            };
            let y: u8 = self.get_effective_y();
            let r = self.decode_tile(loc, (y % 8) as usize);
            self.lx = self.lx.wrapping_add(8);
            Some(r)
        } else {
            None
        }
    }

    pub fn set_mode(&mut self, mode: Mode)
        ensures
            *final(self) == old(self).with_mode(mode),
            final(self).mode() == mode,
    {
        let v: u8 = match mode {
            Mode::HBlank => 0,
            Mode::VBlank => 1,
            Mode::OAM => 2,
            Mode::VRAM => 3,
        };
        let stat: u8 = self.registers[LCD_STATUS_REGISTER];
        self.registers[LCD_STATUS_REGISTER] = stat - stat % 4 + v;
    }

    pub fn get_mode(&self) -> (r: Mode)
        ensures
            r == self.mode(),
    {
        match self.registers[LCD_STATUS_REGISTER] % 4 {
            0 => Mode::HBlank,
            1 => Mode::VBlank,
            2 => Mode::OAM,
            _ => Mode::VRAM,
        }
    }

    /// Lays the sprites of this line that start at the fetcher's column over
    /// the first eight pixels of the queue.
    #[verifier::rlimit(50)]
    pub fn overlay_sprites(&mut self)
        requires
            old(self).wf(),
        ensures
            *final(self) == (PPU { pixel_fifo: old(self).overlay_upto(10), ..*old(self) }),
            final(self).pixel_fifo.wf(),
            final(self).pixel_fifo.len == old(self).pixel_fifo.len,
    {
        let y: u8 = self.registers[LY];
        let mut k: usize = 0;
        while k < 10
            invariant
                k <= 10,
                y == old(self).ly(),
                *self == (PPU { pixel_fifo: old(self).overlay_upto(k as nat), ..*old(self) }),
                self.pixel_fifo.wf(),
                self.pixel_fifo.len == old(self).pixel_fifo.len,
                forall|i: int|
                    0 <= i < 10 ==> (#[trigger] old(self).active_sprites[i] matches Some(j) ==> j
                        < 40),
            decreases 10 - k,
        {
            assert(self.sprite_here(k as int) == old(self).sprite_here(k as int));
            match self.active_sprites[k] {
                Some(j) => {
                    let s: Sprite = self.oam_ram[j];
                    if s.pos_x as u32 == self.lx as u32 + 8 && s.is_on_line(y) {
                        let line: usize = y as usize + 16 - s.pos_y as usize;
                        let px = self.decode_tile_as(self.sprite_tile_loc(s.tile), line, s.palette());
                        self.pixel_fifo.paint(0, px[0]);
                        self.pixel_fifo.paint(1, px[1]);
                        self.pixel_fifo.paint(2, px[2]);
                        self.pixel_fifo.paint(3, px[3]);
                        self.pixel_fifo.paint(4, px[4]);
                        self.pixel_fifo.paint(5, px[5]);
                        self.pixel_fifo.paint(6, px[6]);
                        self.pixel_fifo.paint(7, px[7]);
                    }
                },
                None => (),
            }
            k += 1;
        }
    }

    /// Finds the sprites of the current line.
    #[verifier::rlimit(50)]
    fn scan_sprites(&mut self)
        ensures
            *final(self) == (PPU { active_sprites: old(self).found_sprites(), ..*old(self) }),
            forall|k: int|
                0 <= k < 10 ==> (#[trigger] final(self).active_sprites[k] matches Some(j) ==> j
                    < 40),
    {
        let ly: u8 = self.registers[LY];
        let mut found: [Option<usize>; 10] = [None; 10];
        assert(found =~= no_sprites());
        let mut count: usize = 0;
        let mut j: usize = 0;
        while j < 40
            invariant
                j <= 40,
                count <= 10,
                *self == *old(self),
                ly == self.ly(),
                (found, count as int) == Self::scan_upto(self.oam_ram, ly, j as nat),
                forall|k: int| 0 <= k < 10 ==> (#[trigger] found[k] matches Some(i) ==> i < 40),
            decreases 40 - j,
        {
            let sj: Sprite = self.oam_ram[j];
            if count < 10 && sj.is_on_line(ly) {
                found[count] = Some(j);
                count += 1;
            }
            j += 1;
        }
        self.active_sprites = found;
    }

    /// Advances the unit by one tick and says which interrupts it requests.
    #[verifier::rlimit(50)]
    pub fn tick(&mut self) -> (r: PpuRequests)
        requires
            old(self).wf(),
        ensures
            final(self).wf(),
            *final(self) == old(self).tick_spec(),
            r == old(self).tick_requests(),
    {
        let lcd_stat: bool = self.compare_line();
        let mut vblank: bool = false;
        match self.get_mode() {
            Mode::HBlank => {
                vblank = self.hblank_step();
            },
            Mode::VBlank => {
                self.vblank_step();
            },
            Mode::OAM => {
                self.oam_step();
            },
            Mode::VRAM => {
                self.count_tick();
                self.window_step();
                self.emit_step();
                self.refill_step();
                self.line_end_step();
            },
        }
        PpuRequests { vblank, lcd_stat }
    }

    /// Clears the line-compare flag unless the lines agree, and says whether
    /// the status interrupt is requested.
    #[verifier::rlimit(50)]
    fn compare_line(&mut self) -> (lcd_stat: bool)
        requires
            old(self).wf(),
        ensures
            final(self).wf(),
            *final(self) == old(self).coincidence_spec(),
            final(self).mode() == old(self).mode(),
            lcd_stat == old(self).tick_requests().lcd_stat,
    {
        let stat: u8 = self.registers[LCD_STATUS_REGISTER];
        let coincides: bool = self.registers[LY] == self.registers[LYC];
        if !coincides {
            self.registers[LCD_STATUS_REGISTER] = stat - ((stat / 4) % 2) * 4;
        }
        coincides
    }

    fn count_tick(&mut self)
        requires
            old(self).wf(),
        ensures
            final(self).wf(),
            *final(self) == (PPU { tick: old(self).next_tick(), ..*old(self) }),
    {
        if self.tick < TICK_WIDTH {
            self.tick = self.tick + 1;
        }
    }

    #[verifier::rlimit(50)]
    fn hblank_step(&mut self) -> (vblank: bool)
        requires
            old(self).wf(),
            old(self).mode() == Mode::HBlank,
        ensures
            final(self).wf(),
            *final(self) == old(self).hblank_spec(),
            vblank == (old(self).next_tick() >= TICK_WIDTH && old(self).ly() + 1 >= SCREEN_HEIGHT),
    {
        if self.tick + 1 >= TICK_WIDTH {
            self.registers[LY] += 1;
            self.tick = 0;
            if self.registers[LY] >= 144 {
                self.set_mode(Mode::VBlank);
                true
            } else {
                self.set_mode(Mode::OAM);
                false
            }
        } else {
            self.tick = self.tick + 1;
            false
        }
    }

    #[verifier::rlimit(50)]
    fn vblank_step(&mut self)
        requires
            old(self).wf(),
            old(self).mode() == Mode::VBlank,
        ensures
            final(self).wf(),
            *final(self) == old(self).vblank_spec(),
    {
        if self.tick + 1 >= TICK_WIDTH {
            if self.registers[LY] >= EFFECTIVE_SCAN_COUNT {
                self.registers[LY] = 0;
                self.tick = 0;
                self.set_mode(Mode::OAM);
            } else {
                self.registers[LY] += 1;
                self.tick = 0;
            }
        } else {
            self.tick = self.tick + 1;
        }
    }

    #[verifier::rlimit(50)]
    fn oam_step(&mut self)
        requires
            old(self).wf(),
            old(self).mode() == Mode::OAM,
        ensures
            final(self).wf(),
            *final(self) == old(self).oam_spec(),
    {
        self.count_tick();
        if self.tick == 1 {
            self.active_sprites = [None; 10];
            assert(self.active_sprites =~= no_sprites());
        } else if self.tick == OAM_WIDTH {
            self.scan_sprites();
            self.set_mode(Mode::VRAM);
        }
    }

    #[verifier::rlimit(50)]
    fn window_step(&mut self)
        requires
            old(self).wf(),
        ensures
            final(self).wf(),
            final(self).mode() == old(self).mode(),
            *final(self) == old(self).window_spec(),
    {
        let in_window: bool = self.pixels_pushed >= self.registers[WX] as usize
            && self.registers[LY] >= self.registers[WY];
        let valid_window: bool = in_window && (self.registers[LCD_CONTROL_REGISTER] / 32) % 2 == 1;
        if valid_window != self.is_window {
            self.is_window = valid_window;
            self.pixel_fifo.clear();
        }
    }

    /// Moves the oldest pixel to the screen when the queue holds more than eight.
    #[verifier::rlimit(50)]
    fn emit_step(&mut self)
        requires
            old(self).wf(),
            old(self).mode() == Mode::VRAM,
        ensures
            *final(self) == old(self).emit_spec(),
            final(self).pixel_fifo.wf(),
            final(self).pixel_fifo.len <= old(self).pixel_fifo.len,
            final(self).pixels_pushed <= SCREEN_WIDTH,
            final(self).registers == old(self).registers,
            final(self).tick == old(self).tick,
            final(self).active_sprites == old(self).active_sprites,
    {
        if self.pixel_fifo.len > 8 {
            self.overlay_sprites();
            let p: PixelData = self.pixel_fifo.pop();
            let y: usize = self.registers[LY] as usize;
            let x: usize = self.pixels_pushed;
            let color: u8 = self.lookup_color(p);
            if self.lx >= self.registers[SCX] as u16 {
                self.screen[x + y * SCREEN_WIDTH] = color;
                self.pixels_pushed += 1;
            }
        }
    }

    /// Runs the fetcher for a tick and queues what it delivers, if there is room.
    #[verifier::rlimit(50)]
    fn refill_step(&mut self)
        requires
            old(self).pixel_fifo.wf(),
        ensures
            *final(self) == old(self).refill_spec(),
            final(self).pixel_fifo.wf(),
            final(self).pixels_pushed == old(self).pixels_pushed,
            final(self).registers == old(self).registers,
            final(self).tick == old(self).tick,
            final(self).active_sprites == old(self).active_sprites,
    {
        let room: bool = self.pixel_fifo.len <= 8;
        let new_pixels = self.fetch();
        if let Some(px) = new_pixels {
            if room {
                self.pixel_fifo.push(px[0]);
                self.pixel_fifo.push(px[1]);
                self.pixel_fifo.push(px[2]);
                self.pixel_fifo.push(px[3]);
                self.pixel_fifo.push(px[4]);
                self.pixel_fifo.push(px[5]);
                self.pixel_fifo.push(px[6]);
                self.pixel_fifo.push(px[7]);
            }
        }
    }

    #[verifier::rlimit(50)]
    fn line_end_step(&mut self)
        requires
            old(self).pixels_pushed <= SCREEN_WIDTH,
        ensures
            *final(self) == old(self).line_end_spec(),
            final(self).pixels_pushed < SCREEN_WIDTH,
            old(self).pixels_pushed < SCREEN_WIDTH ==> *final(self) == *old(self),
            old(self).pixels_pushed >= SCREEN_WIDTH ==> {
                &&& final(self).pixel_fifo.wf()
                &&& final(self).mode() == Mode::HBlank
                &&& final(self).registers[4] == old(self).registers[4]
                &&& final(self).tick == old(self).tick
                &&& final(self).active_sprites == old(self).active_sprites
            },
    {
        if self.pixels_pushed >= 160 {
            self.pixels_pushed = 0;
            self.lx = 0;
            self.pixel_fifo.clear();
            self.set_mode(Mode::HBlank);
        }
    }

    pub fn write(&mut self, loc: u16, val: u8)
        requires
            Self::owns_vram(loc),
        ensures
            old(self).wf() ==> final(self).wf(),
            *final(self) == old(self).write_spec(loc, val),
    {
        let l: usize = loc as usize - 0x8000;
        self.vram[l] = val;
    }

    pub fn read(&self, loc: u16) -> (r: u8)
        requires
            Self::owns_vram(loc),
        ensures
            r == self.read_spec(loc),
    {
        let l: usize = loc as usize - 0x8000;
        self.vram[l]
    }

    /// Stores byte `index` of the sprite table, whatever the mode.
    pub fn store_oam(&mut self, index: u8, val: u8)
        requires
            index < DMA_TRANSFER_SIZE,
        ensures
            old(self).wf() ==> final(self).wf(),
            *final(self) == old(self).store_oam_spec(index as int, val),
    {
        let l: usize = (index / 4) as usize;
        let mut s: Sprite = self.oam_ram[l];
        match index % 4 {
            0 => s.pos_y = val,
            1 => s.pos_x = val,
            2 => s.tile = val,
            _ => s.flags = val,
        }
        self.oam_ram[l] = s;
    }

    #[allow(non_snake_case)]
    pub fn writeOAM(&mut self, loc: u16, val: u8)
        requires
            Self::owns_oam(loc),
        ensures
            old(self).wf() ==> final(self).wf(),
            *final(self) == old(self).write_oam_spec(loc, val),
    {
        match self.get_mode() {
            Mode::VRAM => (),
            Mode::OAM => (),
            _ => self.store_oam((loc - 0xFE00) as u8, val),
        }
    }

    #[allow(non_snake_case)]
    pub fn readOAM(&self, loc: u16) -> (r: u8)
        requires
            Self::owns_oam(loc),
        ensures
            r == self.read_oam_spec(loc),
    {
        let index: usize = loc as usize - 0xFE00;
        let s: Sprite = self.oam_ram[index / 4];
        match self.get_mode() {
            Mode::VRAM => 0xFF,
            Mode::OAM => 0xFF,
            _ => match index % 4 {
                0 => s.pos_y,
                1 => s.pos_x,
                2 => s.tile,
                _ => s.flags,
            },
        }
    }

    #[verifier::rlimit(50)]
    pub fn write_reg(&mut self, loc: u16, val: u8)
        requires
            Self::owns_reg(loc),
        ensures
            *final(self) == old(self).write_reg_spec(loc, val),
            old(self).wf() ==> final(self).wf(),
    {
        let l: usize = loc as usize - 0xFF40;
        if l == LY {
        } else if l == LCD_STATUS_REGISTER {
            self.registers[l] = val - val % 8 + self.registers[l] % 8;
        } else if l == DMA {
            self.registers[l] = val;
            self.dma.start_transfer(val);
        } else {
            self.registers[l] = val;
        }
    }

    pub fn read_reg(&self, loc: u16) -> (r: u8)
        requires
            Self::owns_reg(loc),
        ensures
            r == self.read_reg_spec(loc),
    {
        let l: usize = loc as usize - 0xFF40;
        self.registers[l]
    }
}

/// Software sets neither the current line nor the mode: whatever is written
/// to whichever register, both stay as they are.
pub proof fn line_and_mode_are_read_only(p: PPU, loc: u16, val: u8)
    requires
        PPU::owns_reg(loc),
    ensures
        p.write_reg_spec(loc, val).ly() == p.ly(),
        p.write_reg_spec(loc, val).mode() == p.mode(),
        p.wf() ==> p.write_reg_spec(loc, val).wf(),
{
}

/// The copy state after `n` steps.
pub open spec fn dma_steps(d: DMAManager, n: nat) -> DMAManager
    decreases n,
{
    if n == 0 {
        d
    } else {
        dma_steps(d, (n - 1) as nat).next_spec()
    }
}

/// A copy moves exactly 160 bytes in 160 steps: step `k` of a copy from page
/// `page` moves the byte at offset `k` of the page to byte `k` of the sprite
/// table, and after the 160 steps no byte moves any more.
pub proof fn copy_moves_160_bytes(page: u8, k: nat)
    ensures
        ({
            let started = DMAManager { start_location: page, progress: Some(0) };
            &&& k < 160 ==> dma_steps(started, k).next_pair() == Some(
                ((page * 256 + k) as u16, (0xFE00 + k) as u16),
            )
            &&& k < 160 ==> dma_steps(started, k).progress == Some(k as u8)
            &&& k >= 160 ==> dma_steps(started, k).next_pair() is None
            &&& k >= 160 ==> dma_steps(started, k).progress is None
            &&& dma_steps(started, k).start_location == page
        }),
    decreases k,
{
    if k > 0 {
        copy_moves_160_bytes(page, (k - 1) as nat);
    }
}

impl Clone for PPU {
    fn clone(&self) -> (r: Self)
        ensures
            r == *self,
    {
        PPU {
            screen: Box::new(*self.screen),
            vram: Box::new(*self.vram),
            registers: self.registers,
            tick: self.tick,
            oam_ram: self.oam_ram,
            active_sprites: self.active_sprites,
            pixel_fifo: self.pixel_fifo,
            pixels_pushed: self.pixels_pushed,
            fetch_state: self.fetch_state,
            lx: self.lx,
            is_window: self.is_window,
            dma: self.dma,
        }
    }
}

fn decode_pixel(low: u8, high: u8, i: u8) -> (r: u8)
    requires
        i <= 7,
    ensures
        r == pixel_value(low, high, i),
        r <= 3,
{
    ((high >> (7 - i)) % 2) * 2 + (low >> (7 - i)) % 2
}

} // verus!
