use vstd::prelude::*;
use crate::mem::{
    Address, ExecutionError, Ram, BGDD1_END, BGDD1_START, BGDD2_END, BGDD2_START, CHAR_DAT_END,
    CHAR_DAT_START, OAM_END, OAM_START,
};
use crate::timing::{
    new_timer, next_event_of_three, timer_next_event, timer_period, timer_start, timer_step,
    timer_stop, timer_view, update_timer, min_u64, Edge,
};

verus! {

pub const REG_LCDC: u16 = 0xFF40;
pub const REG_STAT: u16 = 0xFF41;
pub const REG_SCY: u16 = 0xFF42;
pub const REG_SCX: u16 = 0xFF43;
pub const REG_LY: u16 = 0xFF44;
pub const REG_LYC: u16 = 0xFF45;
pub const REG_BGP: u16 = 0xFF47;
pub const REG_OBP0: u16 = 0xFF48;
pub const REG_OBP1: u16 = 0xFF49;
pub const REG_WY: u16 = 0xFF4A;
pub const REG_WX: u16 = 0xFF4B;

pub const SCREEN_WIDTH: usize = 160;
pub const SCREEN_HEIGHT: usize = 144;
pub const FRAME_PIXELS: usize = 23040;

/// CPU cycles per scanline, per horizontal blank and per OAM scan.
pub const LINE_CYCLE_TIME: u64 = 455;
pub const HBLANK_DURATION: u64 = 204;
pub const MODE_10_DURATION: u64 = 80;
pub const VBLANK_DURATION: u64 = 4550;
pub const SCREEN_CYCLE_TIME: u64 = 70070;
pub const VBLANK_START: u64 = 65520;

pub const LYC_MATCH_INT_FLAG: u8 = 0b0100_0000;
pub const MODE_10_INT_FLAG: u8 = 0b0010_0000;
pub const MODE_00_INT_FLAG: u8 = 0b0000_1000;
pub const MODE_00_MASK: u8 = 0b00;
pub const MODE_01_MASK: u8 = 0b01;
pub const MODE_10_MASK: u8 = 0b10;
pub const MODE_11_MASK: u8 = 0b11;
pub const LYC_MATCH_FLAG: u8 = 0b0000_0100;
pub const BG_ENABLED_FLAG: u8 = 0b0000_0001;
pub const WINDOW_ENABLED_FLAG: u8 = 0b0010_0000;
pub const OAM_ENABLED_FLAG: u8 = 0b0000_0010;
pub const OAM_TALL_FLAG: u8 = 0b0000_0100;
pub const BGD_CHAR_DAT_FLAG: u8 = 0b0001_0000;
pub const BGD_CODE_DAT_FLAG: u8 = 0b0000_1000;
pub const WINDOW_CODE_DAT_FLAG: u8 = 0b0100_0000;

pub const TILE_COUNT: usize = 384;
pub const TILE_CACHE_LEN: usize = 24576;
pub const OBJ_COUNT: usize = 40;
pub const CHAR_DAT_LEN: u16 = 0x1800;
pub const MAP_LEN: u16 = 0x400;
pub const OAM_LEN: u16 = 0xA0;

/// An RGBA pixel.
#[derive(Copy, Clone, Debug, PartialEq, Eq, Structural)]
pub struct Pixel(pub u8, pub u8, pub u8, pub u8);

/// The four shades, lightest first.
pub open spec fn color_spec(i: u8) -> Pixel {
    if i == 0 {
        Pixel(234, 255, 186, 255)
    } else if i == 1 {
        Pixel(150, 187, 146, 255)
    } else if i == 2 {
        Pixel(68, 106, 81, 255)
    } else {
        Pixel(0, 14, 2, 255)
    }
}

pub fn color(i: u8) -> (r: Pixel)
    ensures
        r == color_spec(i),
{
    if i == 0 {
        Pixel(234, 255, 186, 255)
    } else if i == 1 {
        Pixel(150, 187, 146, 255)
    } else if i == 2 {
        Pixel(68, 106, 81, 255)
    } else {
        Pixel(0, 14, 2, 255)
    }
}

/// The shade that palette `p` gives color index `v`: bits `2v` and `2v+1` of `p`.
pub fn palette_convert(v: u8, p: u8) -> (r: u8)
    requires
        v < 4,
    ensures
        r == (p >> (v * 2) as u8) & 3,
        r < 4,
{
    let r = (p >> (v * 2)) & 0b11;
    assert((p >> (v * 2) as u8) & 3 < 4) by (bit_vector);
    r
}

/// The color index of pixel `x` (0 is leftmost) of a tile row stored as the
/// bit planes `lo` and `hi`.
pub open spec fn plane_color(lo: u8, hi: u8, x: int) -> u8 {
    (((hi >> (7 - x) as u8) & 1) * 2 + ((lo >> (7 - x) as u8) & 1)) as u8
}

fn plane_color_of(lo: u8, hi: u8, x: u8) -> (r: u8)
    requires
        x < 8,
    ensures
        r == plane_color(lo, hi, x as int),
        r < 4,
{
    let h = (hi >> (7 - x)) & 1;
    let l = (lo >> (7 - x)) & 1;
    assert((hi >> (7 - x) as u8) & 1 <= 1) by (bit_vector);
    assert((lo >> (7 - x) as u8) & 1 <= 1) by (bit_vector);
    h * 2 + l
}

/// A sprite: its OAM entry.
#[derive(Copy, Clone, Debug, PartialEq, Eq, Structural)]
pub struct Obj {
    pub y: u8,
    pub x: u8,
    pub char_: u8,
    pub flags: u8,
}

impl Obj {
    pub fn priority(&self) -> (r: bool)
        ensures
            r == (self.flags & 0x80 != 0),
    {
        self.flags & 0x80 != 0
    }

    pub fn yflip(&self) -> (r: bool)
        ensures
            r == (self.flags & 0x40 != 0),
    {
        self.flags & 0x40 != 0
    }

    pub fn xflip(&self) -> (r: bool)
        ensures
            r == (self.flags & 0x20 != 0),
    {
        self.flags & 0x20 != 0
    }

    pub fn high_palette(&self) -> (r: bool)
        ensures
            r == (self.flags & 0x10 != 0),
    {
        self.flags & 0x10 != 0
    }
}

/// The sprite that OAM entry `i` describes.
pub open spec fn obj_of(oam: Seq<u8>, i: int) -> Obj {
    Obj { y: oam[4 * i], x: oam[4 * i + 1], char_: oam[4 * i + 2], flags: oam[4 * i + 3] }
}

/// The LCD controller: registers, video memory, decoded caches, timing and frames.
pub struct Lcd {
    pub lcdc: u8,
    pub stat: u8,
    pub bgp: u8,
    pub obp0: u8,
    pub obp1: u8,
    pub wx: u8,
    pub wy: u8,
    pub sx: u8,
    pub sy: u8,
    pub lyc: u8,
    pub ly: u8,
    pub cdata: Ram,
    pub bgdd1: Ram,
    pub bgdd2: Ram,
    pub oam: Ram,
    pub fb0: Vec<Pixel>,
    pub fb1: Vec<Pixel>,
    pub fbi: usize,
    pub hblank_timer: j2ds::Timer,
    pub vblank_timer: j2ds::Timer,
    pub mode10_timer: j2ds::Timer,
    pub running_until_cycle: u64,
    pub pumped_until: u64,
    /// Color index of every pixel of every tile: tile `t`, row `r`, column `x`
    /// at `64 t + 8 r + x`.
    pub tiles: Vec<u8>,
    pub objs: Vec<Obj>,
}

/// The largest cycle count that the LCD may be pumped to.
pub const LCD_CYCLE_LIMIT: u64 = 0x4000_0000_0000_0000;

pub open spec fn timer_bounded(t: j2ds::Timer, now: u64) -> bool {
    &&& timer_period(t) > 0
    &&& timer_period(t) <= SCREEN_CYCLE_TIME
    &&& timer_start(t) <= now + timer_period(t)
    &&& timer_stop(t) <= now + 2 * timer_period(t)
}

pub open spec fn palette_of(v: u8, p: u8) -> u8 {
    (p >> (v * 2) as u8) & 3
}

/// The tile that character code `c` names: 0..255 directly, or, in signed mode,
/// -128..127 around tile 256.
pub open spec fn char_index(c: u8, signed: bool) -> int {
    if signed {
        256 + signed8_spec(c)
    } else {
        c as int
    }
}

pub open spec fn signed8_spec(c: u8) -> int {
    if c < 128 {
        c as int
    } else {
        c - 256
    }
}

/// The color index of pixel `x` of row `row` of tile `t`.
pub open spec fn tile_color(tiles: Seq<u8>, t: int, row: int, x: int) -> u8 {
    tiles[t * 64 + row * 8 + x]
}

pub open spec fn mode_bits(stat: u8, mode: u8) -> u8 {
    (stat & 0b1111_1100) | mode
}

pub open spec fn lyc_bit(stat: u8, ly: u8, lyc: u8) -> u8 {
    if ly == lyc {
        stat | LYC_MATCH_FLAG
    } else {
        stat & !LYC_MATCH_FLAG
    }
}

/// Setting the mode bits or the LY=LYC flag leaves STAT's interrupt enables alone.
proof fn lemma_stat_enables_kept(stat: u8, ly: u8, lyc: u8, mode: u8)
    requires
        mode < 4,
    ensures
        mode_bits(stat, mode) & 0x08 == stat & 0x08,
        mode_bits(stat, mode) & 0x20 == stat & 0x20,
        mode_bits(stat, mode) & 0x40 == stat & 0x40,
        lyc_bit(stat, ly, lyc) & 0x08 == stat & 0x08,
        lyc_bit(stat, ly, lyc) & 0x20 == stat & 0x20,
        lyc_bit(stat, ly, lyc) & 0x40 == stat & 0x40,
{
    assert(mode < 4 ==> ((stat & 0b1111_1100) | mode) & 0x08 == stat & 0x08 && ((stat & 0b1111_1100)
        | mode) & 0x20 == stat & 0x20 && ((stat & 0b1111_1100) | mode) & 0x40 == stat & 0x40)
        by (bit_vector);
    assert((stat | 0x04) & 0x08 == stat & 0x08 && (stat | 0x04) & 0x20 == stat & 0x20 && (stat | 0x04)
        & 0x40 == stat & 0x40) by (bit_vector);
    assert((stat & !0x04u8) & 0x08 == stat & 0x08 && (stat & !0x04u8) & 0x20 == stat & 0x20 && (stat
        & !0x04u8) & 0x40 == stat & 0x40) by (bit_vector);
}

/// Two states with the same drawing inputs draw the same sprites.
proof fn lemma_oam_fold_same(a: Lcd, b: Lcd, x: int, n: int, base: Pixel)
    requires
        a.same_drawing_inputs(b),
    ensures
        a.oam_fold(x, n, base) == b.oam_fold(x, n, base),
    decreases n,
{
    if n > 0 {
        lemma_oam_fold_same(a, b, x, n - 1, base);
    }
}

/// Two states with the same drawing inputs draw the same scanline.
proof fn lemma_line_pixel_same(a: Lcd, b: Lcd, x: int, under: Pixel)
    requires
        a.same_drawing_inputs(b),
    ensures
        a.line_pixel(x, under) == b.line_pixel(x, under),
{
    let adjusted_wx: int = if a.wx < 7 { 0 } else { a.wx - 7 };
    let b1 = if a.spec_bg_enabled() { a.tile_row_pixel(a.ly, a.sx, a.sy, a.bg_map2(), x) } else { under };
    let w = if a.spec_window_enabled() && a.wy <= a.ly && adjusted_wx < 160 && adjusted_wx <= x {
        a.tile_row_pixel((a.ly - a.wy) as u8, 0, 0, a.window_map2(), x)
    } else {
        b1
    };
    lemma_oam_fold_same(a, b, x, OBJ_COUNT as int, w);
}

proof fn lemma_timer_step_bounded(t: j2ds::Timer, t2: j2ds::Timer, e: Option<Edge>, now: u64, time: u64)
    requires
        timer_bounded(t, now),
        now <= time,
        time <= LCD_CYCLE_LIMIT,
        (timer_view(t2), e) == timer_step(timer_view(t), time),
    ensures
        timer_bounded(t2, time),
        e is None ==> t2 == t || timer_view(t2) == timer_view(t),
{
}

impl Lcd {
    pub open spec fn wf(&self) -> bool {
        &&& self.cdata.data@.len() == CHAR_DAT_LEN
        &&& self.bgdd1.data@.len() == MAP_LEN
        &&& self.bgdd2.data@.len() == MAP_LEN
        &&& self.oam.data@.len() == OAM_LEN
        &&& self.fb0@.len() == FRAME_PIXELS
        &&& self.fb1@.len() == FRAME_PIXELS
        &&& self.fbi < 2
        &&& self.tiles@.len() == TILE_CACHE_LEN
        &&& forall|i: int| 0 <= i < self.tiles@.len() ==> #[trigger] self.tiles@[i] < 4
        &&& self.objs@.len() == OBJ_COUNT
        &&& self.ly <= 153
        &&& self.pumped_until <= LCD_CYCLE_LIMIT
        &&& timer_bounded(self.hblank_timer, self.pumped_until)
        &&& timer_bounded(self.vblank_timer, self.pumped_until)
        &&& timer_period(self.vblank_timer) == SCREEN_CYCLE_TIME
        &&& timer_bounded(self.mode10_timer, self.pumped_until)
    }

    /// The frame that was last completed.
    pub open spec fn front(&self) -> Seq<Pixel> {
        if self.fbi == 0 {
            self.fb0@
        } else {
            self.fb1@
        }
    }

    /// The frame being drawn.
    pub open spec fn back(&self) -> Seq<Pixel> {
        if self.fbi == 0 {
            self.fb1@
        } else {
            self.fb0@
        }
    }

    /// What a register or video-memory read gives.
    pub open spec fn spec_read(&self, a: u16) -> Result<u8, ExecutionError> {
        if BGDD1_START <= a <= BGDD1_END {
            Ok(self.bgdd1.data@[a - BGDD1_START])
        } else if BGDD2_START <= a <= BGDD2_END {
            Ok(self.bgdd2.data@[a - BGDD2_START])
        } else if CHAR_DAT_START <= a <= CHAR_DAT_END {
            Ok(self.cdata.data@[a - CHAR_DAT_START])
        } else if OAM_START <= a <= OAM_END {
            Ok(self.oam.data@[a - OAM_START])
        } else if a == REG_LY {
            Ok(self.ly)
        } else if a == REG_LYC {
            Ok(self.lyc)
        } else if a == REG_STAT {
            Ok(self.stat)
        } else if a == REG_LCDC {
            Ok(self.lcdc)
        } else if a == REG_OBP0 {
            Ok(self.obp0)
        } else if a == REG_OBP1 {
            Ok(self.obp1)
        } else if a == REG_WX {
            Ok(self.wx)
        } else if a == REG_WY {
            Ok(self.wy)
        } else if a == REG_SCX {
            Ok(self.sx)
        } else if a == REG_SCY {
            Ok(self.sy)
        } else if a == REG_BGP {
            Ok(self.bgp)
        } else {
            Err(ExecutionError::BusError)
        }
    }

    pub fn new() -> (r: Lcd)
        ensures
            r.wf(),
            r.ly == 0,
            r.lcdc == 0x83,
            r.stat == 0,
            r.bgp == 0 && r.obp0 == 0 && r.obp1 == 0,
            r.sx == 0 && r.sy == 0 && r.wx == 0 && r.wy == 0 && r.lyc == 0,
            r.pumped_until == 0,
            r.running_until_cycle == 0,
            r.front() == Seq::new(FRAME_PIXELS as nat, |i: int| color_spec(0)),
            r.back() == Seq::new(FRAME_PIXELS as nat, |i: int| color_spec(0)),
            r.cdata.data@ == Seq::new(CHAR_DAT_LEN as nat, |i: int| 0u8),
            r.bgdd1.data@ == Seq::new(MAP_LEN as nat, |i: int| 0u8),
            r.bgdd2.data@ == Seq::new(MAP_LEN as nat, |i: int| 0u8),
            r.oam.data@ == Seq::new(OAM_LEN as nat, |i: int| 0u8),
            r.tiles@ == Seq::new(TILE_CACHE_LEN as nat, |i: int| 0u8),
            r.objs@ == Seq::new(OBJ_COUNT as nat, |i: int| Obj { y: 0, x: 0, char_: 0, flags: 0 }),
            timer_view(r.mode10_timer) == (LINE_CYCLE_TIME, 0u64, MODE_10_DURATION),
            timer_view(r.hblank_timer) == (LINE_CYCLE_TIME, (LINE_CYCLE_TIME - HBLANK_DURATION) as u64, LINE_CYCLE_TIME),
            timer_view(r.vblank_timer) == (SCREEN_CYCLE_TIME, VBLANK_START, SCREEN_CYCLE_TIME),
    {
        let mut fb0: Vec<Pixel> = Vec::new();
        let mut fb1: Vec<Pixel> = Vec::new();
        let mut i: usize = 0;
        while i < FRAME_PIXELS
            invariant
                i <= FRAME_PIXELS,
                fb0@ == Seq::new(i as nat, |j: int| color_spec(0)),
                fb1@ == Seq::new(i as nat, |j: int| color_spec(0)),
            decreases FRAME_PIXELS - i,
        {
            fb0.push(color(0));
            fb1.push(color(0));
            i = i + 1;
            assert(fb0@ =~= Seq::new(i as nat, |j: int| color_spec(0)));
            assert(fb1@ =~= Seq::new(i as nat, |j: int| color_spec(0)));
        }
        let mut tiles: Vec<u8> = Vec::new();
        let mut i: usize = 0;
        while i < TILE_CACHE_LEN
            invariant
                i <= TILE_CACHE_LEN,
                tiles@ == Seq::new(i as nat, |j: int| 0u8),
            decreases TILE_CACHE_LEN - i,
        {
            tiles.push(0);
            i = i + 1;
            assert(tiles@ =~= Seq::new(i as nat, |j: int| 0u8));
        }
        let mut objs: Vec<Obj> = Vec::new();
        let mut i: usize = 0;
        while i < OBJ_COUNT
            invariant
                i <= OBJ_COUNT,
                objs@ == Seq::new(i as nat, |j: int| Obj { y: 0, x: 0, char_: 0, flags: 0 }),
            decreases OBJ_COUNT - i,
        {
            objs.push(Obj { y: 0, x: 0, char_: 0, flags: 0 });
            i = i + 1;
            assert(objs@ =~= Seq::new(i as nat, |j: int| Obj { y: 0, x: 0, char_: 0, flags: 0 }));
        }
        Lcd {
            lcdc: 0x83,
            stat: 0,
            bgp: 0,
            obp0: 0,
            obp1: 0,
            wx: 0,
            wy: 0,
            sx: 0,
            sy: 0,
            lyc: 0,
            ly: 0,
            cdata: Ram::new(CHAR_DAT_LEN),
            bgdd1: Ram::new(MAP_LEN),
            bgdd2: Ram::new(MAP_LEN),
            oam: Ram::new(OAM_LEN),
            fb0,
            fb1,
            fbi: 0,
            hblank_timer: new_timer(LINE_CYCLE_TIME, LINE_CYCLE_TIME - HBLANK_DURATION, HBLANK_DURATION),
            vblank_timer: new_timer(
                SCREEN_CYCLE_TIME,
                SCREEN_HEIGHT as u64 * LINE_CYCLE_TIME,
                VBLANK_DURATION,
            ),
            mode10_timer: new_timer(LINE_CYCLE_TIME, 0, MODE_10_DURATION),
            running_until_cycle: 0,
            pumped_until: 0,
            tiles,
            objs,
        }
    }

    /// The most recently completed frame, row by row.
    pub fn get_framebuffer(&self) -> (r: &[Pixel])
        ensures
            r@ == self.front(),
    {
        if self.fbi == 0 {
            self.fb0.as_slice()
        } else {
            self.fb1.as_slice()
        }
    }

    fn set_back_pixel(&mut self, i: usize, p: Pixel)
        requires
            old(self).wf(),
            i < FRAME_PIXELS,
        ensures
            final(self).wf(),
            final(self).back() == old(self).back().update(i as int, p),
            final(self).front() == old(self).front(),
            final(self).fbi == old(self).fbi,
            final(self).same_state_but_frames(*old(self)),
    {
        if self.fbi == 0 {
            self.fb1.set(i, p);
        } else {
            self.fb0.set(i, p);
        }
    }

    fn back_pixel(&self, i: usize) -> (r: Pixel)
        requires
            self.wf(),
            i < FRAME_PIXELS,
        ensures
            r == self.back()[i as int],
    {
        if self.fbi == 0 {
            self.fb1[i]
        } else {
            self.fb0[i]
        }
    }

    /// Everything but the two frames is as in `o`.
    pub open spec fn same_state_but_frames(&self, o: Lcd) -> bool {
        &&& self.lcdc == o.lcdc
        &&& self.stat == o.stat
        &&& self.bgp == o.bgp
        &&& self.obp0 == o.obp0
        &&& self.obp1 == o.obp1
        &&& self.wx == o.wx
        &&& self.wy == o.wy
        &&& self.sx == o.sx
        &&& self.sy == o.sy
        &&& self.lyc == o.lyc
        &&& self.ly == o.ly
        &&& self.cdata.data@ == o.cdata.data@
        &&& self.bgdd1.data@ == o.bgdd1.data@
        &&& self.bgdd2.data@ == o.bgdd2.data@
        &&& self.oam.data@ == o.oam.data@
        &&& self.hblank_timer == o.hblank_timer
        &&& self.vblank_timer == o.vblank_timer
        &&& self.mode10_timer == o.mode10_timer
        &&& self.running_until_cycle == o.running_until_cycle
        &&& self.pumped_until == o.pumped_until
        &&& self.tiles@ == o.tiles@
        &&& self.objs@ == o.objs@
    }

    fn swap(&mut self)
        requires
            old(self).wf(),
        ensures
            final(self).wf(),
            final(self).front() == old(self).back(),
            final(self).back() == old(self).front(),
            final(self).same_state_but_frames(*old(self)),
            final(self).fbi == 1 - old(self).fbi,
            final(self).fb0 == old(self).fb0,
            final(self).fb1 == old(self).fb1,
    {
        if self.fbi == 0 {
            self.fbi = 1;
        } else {
            self.fbi = 0;
        }
    }

    /// The earliest cycle at which one of the LCD's timers reports an edge.
    pub fn get_next_event_cycle(&self) -> (r: u64)
        ensures
            r == min_u64(
                min_u64(timer_next_event(self.hblank_timer), timer_next_event(self.vblank_timer)),
                timer_next_event(self.mode10_timer),
            ),
    {
        next_event_of_three(&self.hblank_timer, &self.vblank_timer, &self.mode10_timer)
    }

    /// Records how far ahead the host is running, for the skipping of frames.
    pub fn set_running_until(&mut self, cycle: u64)
        requires
            old(self).wf(),
        ensures
            final(self).wf(),
            final(self).running_until_cycle == cycle,
            final(self).ly == old(self).ly,
            final(self).pumped_until == old(self).pumped_until,
            final(self).front() == old(self).front(),
    {
        self.running_until_cycle = cycle;
    }

    /// Reads video memory or an LCD register; BGP reads back what was written.
    pub fn read(&self, a: Address) -> (r: Result<u8, ExecutionError>)
        requires
            self.wf(),
        ensures
            r == self.spec_read(a.0),
    {
        if a.in_(BGDD1_START, BGDD1_END) {
            self.bgdd1.read(a.minus(Address(BGDD1_START)))
        } else if a.in_(BGDD2_START, BGDD2_END) {
            self.bgdd2.read(a.minus(Address(BGDD2_START)))
        } else if a.in_(CHAR_DAT_START, CHAR_DAT_END) {
            self.cdata.read(a.minus(Address(CHAR_DAT_START)))
        } else if a.in_(OAM_START, OAM_END) {
            self.oam.read(a.minus(Address(OAM_START)))
        } else if a.0 == REG_LY {
            Ok(self.ly)
        } else if a.0 == REG_LYC {
            Ok(self.lyc)
        } else if a.0 == REG_STAT {
            Ok(self.stat)
        } else if a.0 == REG_LCDC {
            Ok(self.lcdc)
        } else if a.0 == REG_OBP0 {
            Ok(self.obp0)
        } else if a.0 == REG_OBP1 {
            Ok(self.obp1)
        } else if a.0 == REG_WX {
            Ok(self.wx)
        } else if a.0 == REG_WY {
            Ok(self.wy)
        } else if a.0 == REG_SCX {
            Ok(self.sx)
        } else if a.0 == REG_SCY {
            Ok(self.sy)
        } else if a.0 == REG_BGP {
            Ok(self.bgp)
        } else {
            Err(ExecutionError::BusError)
        }
    }

    /// Writes video memory or an LCD register. A write into tile data refreshes
    /// the decoded row at once; a write into OAM refreshes that sprite. Writes to
    /// LY are ignored.
    pub fn write(&mut self, a: Address, v: u8) -> (r: Result<(), ExecutionError>)
        requires
            old(self).wf(),
        ensures
            final(self).wf(),
            final(self).front() == old(self).front(),
            final(self).back() == old(self).back(),
            final(self).fbi == old(self).fbi,
            final(self).hblank_timer == old(self).hblank_timer && final(self).vblank_timer == old(self).vblank_timer
                && final(self).mode10_timer == old(self).mode10_timer,
            final(self).running_until_cycle == old(self).running_until_cycle,
            final(self).ly == old(self).ly,
            final(self).pumped_until == old(self).pumped_until,
            r is Ok <==> old(self).spec_read(a.0) is Ok,
            r is Ok ==> final(self).spec_read(a.0) == if a.0 == REG_LY {
                Ok::<u8, ExecutionError>(old(self).ly)
            } else {
                Ok::<u8, ExecutionError>(v)
            },
            r is Err ==> r == Err::<(), ExecutionError>(ExecutionError::BusError) && *final(self) == *old(self),
            forall|b: u16| b != a.0 ==> final(self).spec_read(b) == old(self).spec_read(b),
            CHAR_DAT_START <= a.0 <= CHAR_DAT_END ==> {
                let e = ((a.0 - CHAR_DAT_START) / 2 * 2) as int;
                forall|x: int|
                    0 <= x < 8 ==> final(self).tiles@[4 * e + x] == #[trigger] plane_color(
                        final(self).cdata.data@[e],
                        final(self).cdata.data@[e + 1],
                        x,
                    )
            },
            OAM_START <= a.0 <= OAM_END ==> final(self).objs@ == old(self).objs@.update((a.0 - OAM_START) / 4, obj_of(
                final(self).oam.data@,
                (a.0 - OAM_START) / 4,
            )),
            !(OAM_START <= a.0 <= OAM_END) ==> final(self).objs@ == old(self).objs@,
            !(CHAR_DAT_START <= a.0 <= CHAR_DAT_END) ==> final(self).tiles@ == old(self).tiles@,
            CHAR_DAT_START <= a.0 <= CHAR_DAT_END ==> forall|i: int|
                0 <= i < TILE_CACHE_LEN && !(4 * ((a.0 - CHAR_DAT_START) / 2 * 2) <= i < 4 * ((a.0 - CHAR_DAT_START) / 2 * 2) + 8)
                    ==> #[trigger] final(self).tiles@[i] == old(self).tiles@[i],
    {
        if a.in_(BGDD1_START, BGDD1_END) {
            self.bgdd1.write(a.minus(Address(BGDD1_START)), v)
        } else if a.in_(BGDD2_START, BGDD2_END) {
            self.bgdd2.write(a.minus(Address(BGDD2_START)), v)
        } else if a.in_(CHAR_DAT_START, CHAR_DAT_END) {
            let off = a.0 - CHAR_DAT_START;
            let r = self.cdata.write(Address(off), v);
            self.update_tile_at(off / 2 * 2);
            r
        } else if a.in_(OAM_START, OAM_END) {
            let off = a.0 - OAM_START;
            let r = self.oam.write(Address(off), v);
            self.update_obj_at(off / 4);
            r
        } else if a.0 == REG_LY {
            Ok(())
        } else if a.0 == REG_LYC {
            self.lyc = v;
            Ok(())
        } else if a.0 == REG_LCDC {
            self.lcdc = v;
            Ok(())
        } else if a.0 == REG_STAT {
            self.stat = v;
            Ok(())
        } else if a.0 == REG_BGP {
            self.bgp = v;
            Ok(())
        } else if a.0 == REG_OBP0 {
            self.obp0 = v;
            Ok(())
        } else if a.0 == REG_OBP1 {
            self.obp1 = v;
            Ok(())
        } else if a.0 == REG_WX {
            self.wx = v;
            Ok(())
        } else if a.0 == REG_WY {
            self.wy = v;
            Ok(())
        } else if a.0 == REG_SCX {
            self.sx = v;
            Ok(())
        } else if a.0 == REG_SCY {
            self.sy = v;
            Ok(())
        } else {
            Err(ExecutionError::BusError)
        }
    }

    /// Decodes the tile row whose two bytes start at tile-data offset `off`.
    fn update_tile_at(&mut self, off: u16)
        requires
            old(self).wf(),
            off < CHAR_DAT_LEN,
            off % 2 == 0,
        ensures
            final(self).wf(),
            final(self).front() == old(self).front(),
            final(self).back() == old(self).back(),
            final(self).fbi == old(self).fbi,
            final(self).cdata.data@ == old(self).cdata.data@,
            forall|x: int|
                0 <= x < 8 ==> final(self).tiles@[4 * off + x] == #[trigger] plane_color(
                    old(self).cdata.data@[off as int],
                    old(self).cdata.data@[off + 1],
                    x,
                ),
            *final(self) == (Lcd { tiles: final(self).tiles, ..*old(self) }),
            forall|i: int| 0 <= i < TILE_CACHE_LEN && !(4 * off <= i < 4 * off + 8) ==> #[trigger] final(self).tiles@[i] == old(self).tiles@[i],
    {
        let b1 = self.cdata.data[off as usize];
        let b2 = self.cdata.data[off as usize + 1];
        let base = off as usize * 4;
        let mut x: u8 = 0;
        while x < 8
            invariant
                self.wf(),
                x <= 8,
                base == 4 * off,
                base + 8 <= TILE_CACHE_LEN,
                b1 == self.cdata.data@[off as int],
                b2 == self.cdata.data@[off + 1],
                forall|y: int| 0 <= y < x ==> self.tiles@[base + y] == #[trigger] plane_color(b1, b2, y),
                forall|i: int| 0 <= i < TILE_CACHE_LEN && !(base <= i < base + 8) ==> #[trigger] self.tiles@[i] == old(self).tiles@[i],
                *self == (Lcd { tiles: self.tiles, ..*old(self) }),
            decreases 8 - x,
        {
            let c = plane_color_of(b1, b2, x);
            self.tiles.set(base + x as usize, c);
            x = x + 1;
        }
    }

    /// The sprite that OAM entry `index` describes.
    fn read_obj(&self, index: u16) -> (r: Obj)
        requires
            self.wf(),
            index < OBJ_COUNT,
        ensures
            r == obj_of(self.oam.data@, index as int),
    {
        let a = index as usize * 4;
        Obj {
            y: self.oam.data[a],
            x: self.oam.data[a + 1],
            char_: self.oam.data[a + 2],
            flags: self.oam.data[a + 3],
        }
    }

    fn update_obj_at(&mut self, index: u16)
        requires
            old(self).wf(),
            index < OBJ_COUNT,
        ensures
            final(self).wf(),
            final(self).objs@ == old(self).objs@.update(index as int, obj_of(old(self).oam.data@, index as int)),
            *final(self) == (Lcd { objs: final(self).objs, ..*old(self) }),
    {
        let o = self.read_obj(index);
        self.objs.set(index as usize, o);
    }

    /// The background (or window) color index at map coordinates `(tx, ty)`.
    pub open spec fn map_color(&self, ty: u8, tx: u8, map2: bool) -> u8 {
        let off = (ty / 8) as int * 32 + (tx / 8) as int;
        let c = if map2 {
            self.bgdd2.data@[off]
        } else {
            self.bgdd1.data@[off]
        };
        tile_color(self.tiles@, char_index(c, self.lcdc & BGD_CHAR_DAT_FLAG == 0), (ty % 8) as int, (tx % 8) as int)
    }

    /// Pixel `x` of a background row drawn for screen row `y` with the given scroll.
    pub open spec fn tile_row_pixel(&self, y: u8, scx: u8, scy: u8, map2: bool, x: int) -> Pixel {
        color_spec(palette_of(self.map_color(((y + scy) % 256) as u8, ((x + scx) % 256) as u8, map2), self.bgp))
    }

    /// The eight color indices of row `row` of the tile that code `c` names; rows
    /// 8 to 15 are those of the following tile.
    fn read_char_row_at(&self, c: u8, row: u8, signed: bool) -> (r: Vec<u8>)
        requires
            self.wf(),
            row < 16,
            row >= 8 ==> !signed,
        ensures
            r@.len() == 8,
            forall|x: int|
                0 <= x < 8 ==> r@[x] == #[trigger] tile_color(
                    self.tiles@,
                    char_index(c, signed) + row / 8,
                    (row % 8) as int,
                    x,
                ),
            forall|x: int| 0 <= x < 8 ==> #[trigger] r@[x] < 4,
    {
        let index: usize = if signed {
            if c < 128 {
                256 + c as usize
            } else {
                c as usize
            }
        } else {
            c as usize
        };
        let t: usize = if row >= 8 {
            index + 1
        } else {
            index
        };
        let rr: usize = (row % 8) as usize;
        assert(t < 384);
        assert(t * 64 + rr * 8 + 8 <= 24576) by (nonlinear_arith)
            requires
                t < 384,
                rr < 8,
        ;
        let base = t * 64 + rr * 8;
        let mut out: Vec<u8> = Vec::new();
        let mut x: usize = 0;
        while x < 8
            invariant
                self.wf(),
                x <= 8,
                base + 8 <= 24576,
                base == t * 64 + rr * 8,
                t == char_index(c, signed) + row / 8,
                rr == row % 8,
                out@.len() == x,
                forall|y: int| 0 <= y < x ==> out@[y] == #[trigger] tile_color(self.tiles@, t as int, rr as int, y),
                forall|y: int| 0 <= y < x ==> #[trigger] out@[y] < 4,
            decreases 8 - x,
        {
            out.push(self.tiles[base + x]);
            x = x + 1;
        }
        out
    }

    /// One row of 160 background pixels for screen row `screen_y`, scrolled by
    /// `(scx, scy)` with wrap-around at 256, from the map at 0x9C00 if `map2`
    /// and at 0x9800 otherwise.
    fn render_tile_row(&self, screen_y: u8, scx: u8, scy: u8, map2: bool) -> (r: Vec<Pixel>)
        requires
            self.wf(),
        ensures
            r@.len() == SCREEN_WIDTH,
            forall|x: int| 0 <= x < SCREEN_WIDTH ==> r@[x] == #[trigger] self.tile_row_pixel(screen_y, scx, scy, map2, x),
    {
        let translated_y = screen_y.wrapping_add(scy);
        let signed = self.lcdc & BGD_CHAR_DAT_FLAG == 0;
        let mut row: Vec<Pixel> = Vec::new();
        let mut screen_x: usize = 0;
        while screen_x < SCREEN_WIDTH
            invariant
                self.wf(),
                screen_x <= SCREEN_WIDTH,
                translated_y == (screen_y + scy) % 256,
                signed == (self.lcdc & BGD_CHAR_DAT_FLAG == 0),
                row@.len() == screen_x,
                forall|x: int| 0 <= x < screen_x ==> row@[x] == #[trigger] self.tile_row_pixel(screen_y, scx, scy, map2, x),
            decreases SCREEN_WIDTH - screen_x,
        {
            let translated_x = (screen_x as u8).wrapping_add(scx);
            let off = (translated_y / 8) as usize * 32 + (translated_x / 8) as usize;
            let c = if map2 {
                self.bgdd2.data[off]
            } else {
                self.bgdd1.data[off]
            };
            let char_row = self.read_char_row_at(c, translated_y % 8, signed);
            let color_index = char_row[(translated_x % 8) as usize];
            let corrected = palette_convert(color_index, self.bgp);
            proof {
                let ty = translated_y % 8;
                assert(ty / 8 == 0 && ty % 8 == ty);
                assert(translated_x == (screen_x + scx) % 256);
                assert(c == (if map2 { self.bgdd2.data@[(translated_y / 8) as int * 32 + (translated_x / 8) as int] } else { self.bgdd1.data@[(translated_y / 8) as int * 32 + (translated_x / 8) as int] }));
                assert(char_row@[(translated_x % 8) as int] == tile_color(self.tiles@, char_index(c, signed) + ty / 8, (ty % 8) as int, (translated_x % 8) as int));
                assert(color_index == self.map_color(translated_y, translated_x, map2));
            }
            row.push(color(corrected));
            assert(row@[screen_x as int] == self.tile_row_pixel(screen_y, scx, scy, map2, screen_x as int));
            screen_x = screen_x + 1;
        }
        row
    }

    pub open spec fn bg_map2(&self) -> bool {
        self.lcdc & BGD_CODE_DAT_FLAG != 0
    }

    pub open spec fn window_map2(&self) -> bool {
        self.lcdc & WINDOW_CODE_DAT_FLAG != 0
    }

    pub open spec fn spec_bg_enabled(&self) -> bool {
        self.lcdc & BG_ENABLED_FLAG != 0
    }

    pub open spec fn spec_window_enabled(&self) -> bool {
        self.lcdc & WINDOW_ENABLED_FLAG != 0
    }

    fn is_bg_enabled(&self) -> (r: bool)
        ensures
            r == self.spec_bg_enabled(),
    {
        self.lcdc & BG_ENABLED_FLAG != 0
    }

    fn is_window_enabled(&self) -> (r: bool)
        ensures
            r == self.spec_window_enabled(),
    {
        self.lcdc & WINDOW_ENABLED_FLAG != 0
    }

    fn is_oam_enabled(&self) -> (r: bool)
        ensures
            r == (self.lcdc & OAM_ENABLED_FLAG != 0),
    {
        self.lcdc & OAM_ENABLED_FLAG != 0
    }

    fn is_lyc_int_enabled(&self) -> (r: bool)
        ensures
            r == (self.stat & LYC_MATCH_INT_FLAG != 0),
    {
        self.stat & LYC_MATCH_INT_FLAG != 0
    }

    fn is_hblank_int_enabled(&self) -> (r: bool)
        ensures
            r == (self.stat & MODE_00_INT_FLAG != 0),
    {
        self.stat & MODE_00_INT_FLAG != 0
    }

    fn is_mode_10_int_enabled(&self) -> (r: bool)
        ensures
            r == (self.stat & MODE_10_INT_FLAG != 0),
    {
        self.stat & MODE_10_INT_FLAG != 0
    }

    /// Whether tile codes of the background are signed (tile data at 0x8800).
    fn get_bg_char_addr_start(&self) -> (r: bool)
        ensures
            r == (self.lcdc & BGD_CHAR_DAT_FLAG == 0),
    {
        self.lcdc & BGD_CHAR_DAT_FLAG == 0
    }

    /// Whether the background map is the one at 0x9C00.
    fn get_bg_code_dat_start(&self) -> (r: bool)
        ensures
            r == self.bg_map2(),
    {
        self.lcdc & BGD_CODE_DAT_FLAG != 0
    }

    /// Whether the window map is the one at 0x9C00.
    fn get_window_code_dat_start(&self) -> (r: bool)
        ensures
            r == self.window_map2(),
    {
        self.lcdc & WINDOW_CODE_DAT_FLAG != 0
    }

    /// Draws the background into row LY of the back frame, if the background is on.
    fn render_background_row(&mut self)
        requires
            old(self).wf(),
            old(self).ly < SCREEN_HEIGHT,
        ensures
            final(self).wf(),
            final(self).same_state_but_frames(*old(self)),
            final(self).fbi == old(self).fbi,
            final(self).front() == old(self).front(),
            !old(self).spec_bg_enabled() ==> final(self).back() == old(self).back(),
            forall|i: int|
                0 <= i < FRAME_PIXELS && !(old(self).ly * 160 <= i < old(self).ly * 160 + 160) ==> #[trigger] final(self).back()[i]
                    == old(self).back()[i],
            old(self).spec_bg_enabled() ==> forall|x: int|
                0 <= x < SCREEN_WIDTH ==> final(self).back()[old(self).ly * 160 + x] == #[trigger] old(
                    self,
                ).tile_row_pixel(old(self).ly, old(self).sx, old(self).sy, old(self).bg_map2(), x),
    {
        if !self.is_bg_enabled() {
            return;
        }
        let map2 = self.get_bg_code_dat_start();
        let row = self.render_tile_row(self.ly, self.sx, self.sy, map2);
        let base = self.ly as usize * 160;
        let mut x: usize = 0;
        while x < SCREEN_WIDTH
            invariant
                self.wf(),
                x <= SCREEN_WIDTH,
                base == old(self).ly * 160,
                old(self).ly < SCREEN_HEIGHT,
                self.same_state_but_frames(*old(self)),
                self.fbi == old(self).fbi,
                self.front() == old(self).front(),
                row@.len() == SCREEN_WIDTH,
                forall|y: int| 0 <= y < SCREEN_WIDTH ==> row@[y] == #[trigger] old(self).tile_row_pixel(old(self).ly, old(self).sx, old(self).sy, map2, y),
                map2 == old(self).bg_map2(),
                forall|i: int|
                    0 <= i < FRAME_PIXELS && !(base <= i < base + x) ==> #[trigger] self.back()[i] == old(self).back()[i],
                forall|y: int| 0 <= y < x ==> #[trigger] self.back()[base + y] == row@[y],
            decreases SCREEN_WIDTH - x,
        {
            self.set_back_pixel(base + x, row[x]);
            x = x + 1;
        }
    }

    /// Whether a frame drawing step only touches row LY of the back frame.
    pub open spec fn row_local(&self, o: Lcd) -> bool {
        &&& self.wf()
        &&& self.same_state_but_frames(o)
        &&& self.fbi == o.fbi
        &&& self.front() == o.front()
        &&& forall|i: int|
            0 <= i < FRAME_PIXELS && !(o.ly * 160 <= i < o.ly * 160 + 160) ==> #[trigger] self.back()[i]
                == o.back()[i]
    }

    /// Draws the window into row LY of the back frame, if the window is on and
    /// covers that row.
    fn render_window_row(&mut self)
        requires
            old(self).wf(),
            old(self).ly < SCREEN_HEIGHT,
        ensures
            final(self).row_local(*old(self)),
            ({
                let adjusted_wx = if old(self).wx < 7 { 0 } else { old(self).wx - 7 };
                if old(self).spec_window_enabled() && old(self).wy <= old(self).ly && adjusted_wx < 160 {
                    &&& forall|x: int|
                        adjusted_wx <= x < SCREEN_WIDTH ==> final(self).back()[old(self).ly * 160 + x]
                            == #[trigger] old(self).tile_row_pixel((old(self).ly - old(self).wy) as u8, 0, 0, old(self).window_map2(), x)
                    &&& forall|x: int|
                        0 <= x < adjusted_wx ==> #[trigger] final(self).back()[old(self).ly * 160 + x]
                            == old(self).back()[old(self).ly * 160 + x]
                } else {
                    final(self).back() == old(self).back()
                }
            }),
    {
        if !self.is_window_enabled() {
            return;
        }
        let adjusted_wx: u8 = if self.wx < 7 { 0 } else { self.wx - 7 };
        if self.wy > self.ly || adjusted_wx >= 160 {
            return;
        }
        let translated_y = self.ly - self.wy;
        let map2 = self.get_window_code_dat_start();
        let row = self.render_tile_row(translated_y, 0, 0, map2);
        let base = self.ly as usize * 160;
        let mut x: usize = adjusted_wx as usize;
        while x < SCREEN_WIDTH
            invariant
                self.row_local(*old(self)),
                adjusted_wx <= x <= SCREEN_WIDTH,
                base == old(self).ly * 160,
                old(self).ly < SCREEN_HEIGHT,
                row@.len() == SCREEN_WIDTH,
                forall|y: int| 0 <= y < SCREEN_WIDTH ==> row@[y] == #[trigger] old(self).tile_row_pixel(translated_y, 0, 0, map2, y),
                map2 == old(self).window_map2(),
                translated_y == old(self).ly - old(self).wy,
                forall|i: int|
                    0 <= i < FRAME_PIXELS && !(base + adjusted_wx <= i < base + x) ==> #[trigger] self.back()[i] == old(self).back()[i],
                forall|y: int| adjusted_wx <= y < x ==> #[trigger] self.back()[base + y] == row@[y],
            decreases SCREEN_WIDTH - x,
        {
            self.set_back_pixel(base + x, row[x]);
            x = x + 1;
        }
        assert forall|y: int| 0 <= y < adjusted_wx implies #[trigger] self.back()[base + y] == old(self).back()[base + y] by {
            assert(!(base + adjusted_wx <= base + y < base + x));
        }
    }

    /// Whether a sprite lies wholly off screen: x of 0 or at least 168, or y of 0
    /// or at least 160.
    pub open spec fn obj_hidden(obj: Obj) -> bool {
        obj.x == 0 || obj.x >= 168 || obj.y == 0 || obj.y >= 160
    }

    /// The pixel at screen column `x` of row LY once sprite `obj` is drawn over
    /// `under`: the sprite's tile pixel (flipped as its flags say, through OBP0 or
    /// OBP1) where the sprite covers the column and that pixel is not color 0,
    /// and, for a sprite with the priority flag, only where `under` is white.
    pub open spec fn sprite_pixel(&self, obj: Obj, x: int, under: Pixel) -> Pixel {
        let tall = self.lcdc & OAM_TALL_FLAG != 0;
        let hi_y: int = if tall { 16 } else { 8 };
        let c: u8 = if tall { obj.char_ & 0b1111_1110 } else { obj.char_ };
        let y = self.ly + 16 - obj.y;
        let k = x + 8 - obj.x;
        if 0 <= y < hi_y && 0 <= k < 8 {
            let iy = if obj.flags & 0x40 != 0 { hi_y - 1 - y } else { y };
            let ix = if obj.flags & 0x20 != 0 { 7 - k } else { k };
            let ci = tile_color(self.tiles@, c as int + iy / 8, iy % 8, ix);
            if ci == 0 {
                under
            } else {
                let p = color_spec(palette_of(ci, if obj.flags & 0x10 != 0 { self.obp1 } else { self.obp0 }));
                if obj.flags & 0x80 == 0 || under == color_spec(0) {
                    p
                } else {
                    under
                }
            }
        } else {
            under
        }
    }

    /// Pixel `x` of row LY of the back frame, with sprite `obj` drawn over it or not.
    pub open spec fn obj_row_pixel(&self, obj: Obj, x: int, drawn: bool) -> Pixel {
        let under = self.back()[self.ly * 160 + x];
        if drawn {
            self.sprite_pixel(obj, x, under)
        } else {
            under
        }
    }

    /// `obj_row_pixel` once the sprite rows before `y` have been handled.
    pub open spec fn obj_rows_done(&self, obj: Obj, x: int, y: int) -> Pixel {
        self.obj_row_pixel(obj, x, self.ly + 16 - obj.y < y)
    }

    /// `obj_row_pixel` once the sprite columns before `k` have been handled.
    pub open spec fn obj_cols_done(&self, obj: Obj, x: int, k: int) -> Pixel {
        self.obj_row_pixel(obj, x, 0 <= x + 8 - obj.x < k)
    }

    /// Draws the part of one sprite that falls on row LY of the back frame.
    fn render_obj_row(&mut self, obj: Obj)
        requires
            old(self).wf(),
            old(self).ly < SCREEN_HEIGHT,
        ensures
            final(self).row_local(*old(self)),
            forall|x: int|
                0 <= x < SCREEN_WIDTH ==> final(self).back()[old(self).ly * 160 + x] == #[trigger] old(self).sprite_pixel(
                    obj,
                    x,
                    old(self).back()[old(self).ly * 160 + x],
                ),
            Self::obj_hidden(obj) ==> final(self).back() == old(self).back(),
    {
        let tall = self.lcdc & OAM_TALL_FLAG != 0;
        let c: u8 = if tall { obj.char_ & 0b1111_1110 } else { obj.char_ };
        let hi_y: u8 = if tall { 16 } else { 8 };
        let ly = self.ly;
        let ghost base = ly as int * 160;
        let ghost ystar = ly as int + 16 - obj.y as int;
        let mut y: u8 = 0;
        while y < hi_y
            invariant
                self.row_local(*old(self)),
                ly == old(self).ly,
                ly < SCREEN_HEIGHT,
                base == ly as int * 160,
                ystar == ly as int + 16 - obj.y as int,
                hi_y == (if tall { 16u8 } else { 8u8 }),
                tall == (old(self).lcdc & OAM_TALL_FLAG != 0),
                c == (if tall { obj.char_ & 0b1111_1110 } else { obj.char_ }),
                y <= hi_y,
                forall|x: int|
                    0 <= x < SCREEN_WIDTH ==> self.back()[base + x] == #[trigger] old(self).obj_rows_done(obj, x, y as int),
                Self::obj_hidden(obj) ==> self.back() == old(self).back(),
            decreases hi_y - y,
        {
            let full_y: i32 = y as i32 + obj.y as i32 - 16;
            if full_y >= 0 && full_y <= SCREEN_HEIGHT as i32 && full_y == ly as i32 {
                let index_y: u8 = if obj.yflip() { hi_y - 1 - y } else { y };
                let row = self.read_char_row_at(c, index_y, false);
                assert(self.tiles@ == old(self).tiles@);
                assert forall|k: int| 0 <= k < 8 implies row@[k] == #[trigger] tile_color(old(self).tiles@, c as int + index_y / 8, (index_y % 8) as int, k) by {
                    assert(row@[k] == tile_color(self.tiles@, char_index(c, false) + index_y / 8, (index_y % 8) as int, k));
                }
                assert forall|sx: int| 0 <= sx < SCREEN_WIDTH implies self.back()[base + sx] == #[trigger] old(self).obj_cols_done(obj, sx, 0) by {
                    assert(self.back()[base + sx] == old(self).obj_rows_done(obj, sx, y as int));
                }
                let mut x: u8 = 0;
                while x < 8
                    invariant
                        self.row_local(*old(self)),
                        ly == old(self).ly,
                        ly < SCREEN_HEIGHT,
                        base == ly as int * 160,
                        full_y == ly,
                        full_y == y as i32 + obj.y as i32 - 16,
                        ystar == y,
                        y < hi_y,
                        hi_y == (if tall { 16u8 } else { 8u8 }),
                        tall == (old(self).lcdc & OAM_TALL_FLAG != 0),
                        c == (if tall { obj.char_ & 0b1111_1110 } else { obj.char_ }),
                        index_y == (if obj.flags & 0x40 != 0 { hi_y - 1 - y } else { y as int }),
                        row@.len() == 8,
                        forall|k: int| 0 <= k < 8 ==> #[trigger] row@[k] < 4,
                        forall|k: int| 0 <= k < 8 ==> row@[k] == #[trigger] tile_color(old(self).tiles@, c as int + index_y / 8, (index_y % 8) as int, k),
                        x <= 8,
                        forall|sx: int|
                            0 <= sx < SCREEN_WIDTH ==> self.back()[base + sx] == #[trigger] old(self).obj_cols_done(obj, sx, x as int),
                        Self::obj_hidden(obj) ==> self.back() == old(self).back(),
                    decreases 8 - x,
                {
                    let full_x: i32 = x as i32 + obj.x as i32 - 8;
                    let ghost back0 = self.back();
                    if full_x >= 0 && full_x < SCREEN_WIDTH as i32 {
                        let index_x: usize = if obj.xflip() { 7 - x as usize } else { x as usize };
                        let color_index = row[index_x];
                        let idx = ly as usize * 160 + full_x as usize;
                        let ghost under = self.back()[base + full_x];
                        proof {
                            assert(self.back()[base + full_x] == old(self).obj_cols_done(obj, full_x as int, x as int));
                            assert(under == old(self).back()[base + full_x]);
                            assert(color_index == tile_color(old(self).tiles@, c as int + index_y / 8, (index_y % 8) as int, index_x as int));
                        }
                        if color_index != 0 {
                            let pal = if obj.high_palette() { self.obp1 } else { self.obp0 };
                            let corrected = palette_convert(color_index, pal);
                            let p = color(corrected);
                            if !obj.priority() || self.back_pixel(idx) == color(0) {
                                self.set_back_pixel(idx, p);
                            }
                        }
                        assert(self.back()[base + full_x] == old(self).sprite_pixel(obj, full_x as int, old(self).back()[base + full_x]));
                    }
                    assert forall|sx: int| 0 <= sx < SCREEN_WIDTH implies self.back()[base + sx] == #[trigger] old(self).obj_cols_done(obj, sx, x + 1) by {
                        if sx != full_x {
                            assert(back0[base + sx] == old(self).obj_cols_done(obj, sx, x as int));
                            assert(self.back()[base + sx] == back0[base + sx]);
                        }
                    }
                    x = x + 1;
                }
                assert forall|sx: int| 0 <= sx < SCREEN_WIDTH implies self.back()[base + sx] == #[trigger] old(self).obj_rows_done(obj, sx, y + 1) by {
                    assert(self.back()[base + sx] == old(self).obj_cols_done(obj, sx, 8));
                }
            } else {
                assert forall|sx: int| 0 <= sx < SCREEN_WIDTH implies self.back()[base + sx] == #[trigger] old(self).obj_rows_done(obj, sx, y + 1) by {
                    assert(self.back()[base + sx] == old(self).obj_rows_done(obj, sx, y as int));
                }
            }
            y = y + 1;
        }
        assert forall|x: int| 0 <= x < SCREEN_WIDTH implies final(self).back()[old(self).ly * 160 + x] == #[trigger] old(self).sprite_pixel(obj, x, old(self).back()[old(self).ly * 160 + x]) by {
            assert(self.back()[base + x] == old(self).obj_rows_done(obj, x, hi_y as int));
        }
    }

    /// Pixel `x` of row LY of the back frame after the first `n` sprites of the
    /// cache are drawn over it in order.
    pub open spec fn oam_fold(&self, x: int, n: int, base: Pixel) -> Pixel
        decreases n,
    {
        if n <= 0 {
            base
        } else {
            self.sprite_pixel(self.objs@[n - 1], x, self.oam_fold(x, n - 1, base))
        }
    }

    /// The inputs that drawing a scanline reads.
    pub open spec fn same_drawing_inputs(&self, o: Lcd) -> bool {
        &&& self.lcdc == o.lcdc
        &&& self.bgp == o.bgp
        &&& self.obp0 == o.obp0
        &&& self.obp1 == o.obp1
        &&& self.wx == o.wx
        &&& self.wy == o.wy
        &&& self.sx == o.sx
        &&& self.sy == o.sy
        &&& self.ly == o.ly
        &&& self.bgdd1.data@ == o.bgdd1.data@
        &&& self.bgdd2.data@ == o.bgdd2.data@
        &&& self.tiles@ == o.tiles@
        &&& self.objs@ == o.objs@
    }

    /// Pixel `x` of row LY once the scanline is drawn over `under`: the
    /// background (if on), then the window where it covers the column (if on),
    /// then the sprites (if on).
    pub open spec fn line_pixel(&self, x: int, under: Pixel) -> Pixel {
        let b = if self.spec_bg_enabled() {
            self.tile_row_pixel(self.ly, self.sx, self.sy, self.bg_map2(), x)
        } else {
            under
        };
        let adjusted_wx: int = if self.wx < 7 { 0 } else { self.wx - 7 };
        let w = if self.spec_window_enabled() && self.wy <= self.ly && adjusted_wx < 160 && adjusted_wx <= x {
            self.tile_row_pixel((self.ly - self.wy) as u8, 0, 0, self.window_map2(), x)
        } else {
            b
        };
        if self.lcdc & OAM_ENABLED_FLAG != 0 {
            self.oam_fold(x, OBJ_COUNT as int, w)
        } else {
            w
        }
    }

    /// Draws the sprites that fall on row LY, if sprites are on: all 40 in
    /// order, each over what the ones before it left.
    fn render_oam_row(&mut self)
        requires
            old(self).wf(),
            old(self).ly < SCREEN_HEIGHT,
        ensures
            final(self).row_local(*old(self)),
            old(self).lcdc & OAM_ENABLED_FLAG == 0 ==> final(self).back() == old(self).back(),
            old(self).lcdc & OAM_ENABLED_FLAG != 0 ==> forall|x: int|
                0 <= x < SCREEN_WIDTH ==> final(self).back()[old(self).ly * 160 + x] == #[trigger] old(self).oam_fold(x, OBJ_COUNT as int, old(self).back()[old(self).ly * 160 + x]),
            (forall|i: int| 0 <= i < OBJ_COUNT ==> Self::obj_hidden(#[trigger] old(self).objs@[i])) ==> final(self).back() == old(self).back(),
    {
        if !self.is_oam_enabled() {
            return;
        }
        let mut i: usize = 0;
        while i < OBJ_COUNT
            invariant
                self.row_local(*old(self)),
                self.ly == old(self).ly,
                old(self).ly < SCREEN_HEIGHT,
                i <= OBJ_COUNT,
                (forall|j: int| 0 <= j < OBJ_COUNT ==> Self::obj_hidden(#[trigger] old(self).objs@[j])) ==> self.back() == old(self).back(),
                forall|x: int| 0 <= x < SCREEN_WIDTH ==> self.back()[old(self).ly * 160 + x] == #[trigger] old(self).oam_fold(x, i as int, old(self).back()[old(self).ly * 160 + x]),
            decreases OBJ_COUNT - i,
        {
            let obj = self.objs[i];
            let ghost mid = *self;
            self.render_obj_row(obj);
            assert forall|x: int| 0 <= x < SCREEN_WIDTH implies self.back()[old(self).ly * 160 + x] == #[trigger] old(self).oam_fold(x, i + 1, old(self).back()[old(self).ly * 160 + x]) by {
                let u = old(self).back()[old(self).ly * 160 + x];
                assert(mid.back()[old(self).ly * 160 + x] == old(self).oam_fold(x, i as int, u));
                assert(mid.sprite_pixel(obj, x, mid.back()[old(self).ly * 160 + x]) == old(self).sprite_pixel(obj, x, old(self).oam_fold(x, i as int, u)));
            }
            i = i + 1;
        }
    }

    /// Whether frames are drawn at `cycle`: skipped only while more than two
    /// screens behind the host's horizon.
    pub open spec fn spec_should_render(&self, cycle: u64) -> bool {
        cycle >= self.running_until_cycle || self.running_until_cycle - cycle <= 2 * SCREEN_CYCLE_TIME
    }

    fn should_render_this_frame(&self, cycle: u64) -> (r: bool)
        ensures
            r == self.spec_should_render(cycle),
    {
        cycle >= self.running_until_cycle || self.running_until_cycle - cycle <= 2 * SCREEN_CYCLE_TIME
    }

    /// Sets the LY=LYC flag of STAT.
    fn update_lyc(&mut self)
        requires
            old(self).wf(),
        ensures
            final(self).wf(),
            *final(self) == (Lcd { stat: lyc_bit(old(self).stat, old(self).ly, old(self).lyc), ..*old(self) }),
    {
        if self.ly == self.lyc {
            self.stat = self.stat | LYC_MATCH_FLAG;
        } else {
            self.stat = self.stat & !LYC_MATCH_FLAG;
        }
    }

    /// Whether the horizontal blank starting at `cycle` draws row LY.
    pub open spec fn drawn_at(&self, cycle: u64) -> bool {
        self.ly < SCREEN_HEIGHT && self.spec_should_render(cycle)
    }

    /// Start of horizontal blank: on a visible row, draws it (unless frames are
    /// being skipped) and enters mode 00.
    fn do_hblank_start(&mut self, cycle: u64)
        requires
            old(self).wf(),
        ensures
            final(self).wf(),
            final(self).fbi == old(self).fbi,
            final(self).front() == old(self).front(),
            final(self).ly == old(self).ly,
            final(self).stat == if old(self).ly < SCREEN_HEIGHT { mode_bits(old(self).stat, MODE_00_MASK) } else { old(self).stat },
            final(self).same_state_but_frames(Lcd { stat: final(self).stat, ..*old(self) }),
            old(self).drawn_at(cycle) ==> forall|x: int|
                0 <= x < SCREEN_WIDTH ==> final(self).back()[old(self).ly * 160 + x] == #[trigger] old(self).line_pixel(
                    x,
                    old(self).back()[old(self).ly * 160 + x],
                ),
            old(self).drawn_at(cycle) ==> forall|i: int|
                0 <= i < FRAME_PIXELS && !(old(self).ly * 160 <= i < old(self).ly * 160 + 160) ==> #[trigger] final(self).back()[i]
                    == old(self).back()[i],
            !old(self).drawn_at(cycle) ==> final(self).back() == old(self).back(),
    {
        if (self.ly as usize) < SCREEN_HEIGHT {
            self.stat = (self.stat & 0b1111_1100) | MODE_00_MASK;
            if self.should_render_this_frame(cycle) {
                let ghost s0 = *self;
                self.render_background_row();
                let ghost s1 = *self;
                self.render_window_row();
                let ghost s2 = *self;
                self.render_oam_row();
                proof {
                    assert forall|x: int| 0 <= x < SCREEN_WIDTH implies self.back()[s0.ly * 160 + x] == #[trigger] s0.line_pixel(x, s0.back()[s0.ly * 160 + x]) by {
                        let u = s0.back()[s0.ly * 160 + x];
                        let adjusted_wx: int = if s0.wx < 7 { 0 } else { s0.wx - 7 };
                        let b1 = if s0.spec_bg_enabled() { s0.tile_row_pixel(s0.ly, s0.sx, s0.sy, s0.bg_map2(), x) } else { u };
                        assert(s1.back()[s0.ly * 160 + x] == b1);
                        let w = if s0.spec_window_enabled() && s0.wy <= s0.ly && adjusted_wx < 160 && adjusted_wx <= x {
                            s0.tile_row_pixel((s0.ly - s0.wy) as u8, 0, 0, s0.window_map2(), x)
                        } else {
                            b1
                        };
                        if s0.spec_window_enabled() && s0.wy <= s0.ly && adjusted_wx < 160 {
                            if adjusted_wx <= x {
                                assert(s2.back()[s0.ly * 160 + x] == s1.tile_row_pixel((s1.ly - s1.wy) as u8, 0, 0, s1.window_map2(), x));
                            } else {
                                assert(s2.back()[s1.ly * 160 + x] == s1.back()[s1.ly * 160 + x]);
                            }
                        } else {
                            assert(s2.back() == s1.back());
                        }
                        assert(s2.back()[s0.ly * 160 + x] == w);
                        lemma_oam_fold_same(s2, s0, x, OBJ_COUNT as int, w);
                    }
                    assert forall|i: int| 0 <= i < FRAME_PIXELS && !(s0.ly * 160 <= i < s0.ly * 160 + 160) implies #[trigger] self.back()[i] == s0.back()[i] by {
                        assert(s1.back()[i] == s0.back()[i]);
                        assert(s2.back()[i] == s1.back()[i]);
                        assert(self.back()[i] == s2.back()[i]);
                    }
                    assert(s0.back() == old(self).back());
                    assert forall|x: int| 0 <= x < SCREEN_WIDTH implies self.back()[old(self).ly * 160 + x] == #[trigger] old(self).line_pixel(x, old(self).back()[old(self).ly * 160 + x]) by {
                        assert(self.back()[s0.ly * 160 + x] == s0.line_pixel(x, s0.back()[s0.ly * 160 + x]));
                        lemma_line_pixel_same(s0, *old(self), x, old(self).back()[old(self).ly * 160 + x]);
                    }
                }
            }
        }
    }

    /// End of horizontal blank: LY moves to the next row (it stays at 153, the
    /// last, until vertical blank ends).
    fn do_hblank_end(&mut self)
        requires
            old(self).wf(),
        ensures
            final(self).wf(),
            final(self).ly == if old(self).ly < 153 { old(self).ly + 1 } else { 153 },
            *final(self) == (Lcd {
                ly: final(self).ly,
                stat: lyc_bit(old(self).stat, final(self).ly, old(self).lyc),
                ..*old(self)
            }),
    {
        if self.ly < 153 {
            self.ly = self.ly + 1;
        }
        self.update_lyc();
    }

    /// Start of vertical blank: the finished frame becomes visible and mode 01 begins.
    pub fn do_vblank_start(&mut self)
        requires
            old(self).wf(),
        ensures
            final(self).wf(),
            final(self).front() == old(self).back(),
            final(self).back() == old(self).front(),
            final(self).ly == old(self).ly,
            final(self).stat == mode_bits(lyc_bit(old(self).stat, old(self).ly, old(self).lyc), MODE_01_MASK),
            final(self).fbi != old(self).fbi,
            final(self).same_state_but_frames(Lcd { stat: final(self).stat, ..*old(self) }),
    {
        self.swap();
        self.update_lyc();
        self.stat = (self.stat & 0b1111_1100) | MODE_01_MASK;
    }

    /// End of vertical blank: LY returns to 0 and mode 00 begins.
    pub fn do_vblank_end(&mut self)
        requires
            old(self).wf(),
        ensures
            final(self).wf(),
            final(self).ly == 0,
            final(self).stat == mode_bits(lyc_bit(old(self).stat, 0, old(self).lyc), MODE_00_MASK),
            *final(self) == (Lcd { ly: 0, stat: final(self).stat, ..*old(self) }),
    {
        self.ly = 0;
        self.update_lyc();
        self.stat = (self.stat & 0b1111_1100) | MODE_00_MASK;
    }

    /// Advances the LCD to `cycle`: each of the horizontal-blank, OAM-scan and
    /// vertical-blank timers handles at most one edge, and every edge takes
    /// effect. Returns the interrupt-flag bits raised: VBlank (bit 0) on the
    /// start of vertical blank, LCDC (bit 1) when an enabled STAT condition
    /// begins.
    pub fn pump_cycle(&mut self, cycle: u64) -> (r: u8)
        requires
            old(self).wf(),
            old(self).pumped_until <= cycle,
            cycle <= LCD_CYCLE_LIMIT,
        ensures
            final(self).wf(),
            final(self).pumped_until == cycle,
            r & !3u8 == 0,
            ({
                let (h, he) = timer_step(timer_view(old(self).hblank_timer), cycle);
                let (m, me) = timer_step(timer_view(old(self).mode10_timer), cycle);
                let (v, ve) = timer_step(timer_view(old(self).vblank_timer), cycle);
                let ly1 = if he == Some(Edge::Falling) && old(self).ly < 153 { (old(self).ly + 1) as u8 } else { old(self).ly };
                &&& timer_view(final(self).hblank_timer) == h
                &&& timer_view(final(self).mode10_timer) == m
                &&& timer_view(final(self).vblank_timer) == v
                &&& final(self).ly == if ve == Some(Edge::Falling) { 0 } else { ly1 }
                &&& final(self).stat == ({
                    let s1 = if he == Some(Edge::Rising) {
                        if old(self).ly < SCREEN_HEIGHT { mode_bits(old(self).stat, MODE_00_MASK) } else { old(self).stat }
                    } else if he == Some(Edge::Falling) {
                        lyc_bit(old(self).stat, ly1, old(self).lyc)
                    } else {
                        old(self).stat
                    };
                    let s2 = if ly1 < SCREEN_HEIGHT && me == Some(Edge::Rising) {
                        mode_bits(s1, MODE_10_MASK)
                    } else if ly1 < SCREEN_HEIGHT && me == Some(Edge::Falling) {
                        mode_bits(s1, MODE_11_MASK)
                    } else {
                        s1
                    };
                    if ve == Some(Edge::Rising) {
                        mode_bits(lyc_bit(s2, ly1, old(self).lyc), MODE_01_MASK)
                    } else if ve == Some(Edge::Falling) {
                        mode_bits(lyc_bit(s2, 0, old(self).lyc), MODE_00_MASK)
                    } else {
                        s2
                    }
                })
                &&& (r & 1 != 0) == (ve == Some(Edge::Rising))
                &&& (r & 2 != 0) == (
                    (he == Some(Edge::Rising) && old(self).stat & MODE_00_INT_FLAG != 0 && old(self).ly < SCREEN_HEIGHT)
                    || (he == Some(Edge::Falling) && ly1 == old(self).lyc && old(self).stat & LYC_MATCH_INT_FLAG != 0)
                    || (me == Some(Edge::Rising) && ly1 < SCREEN_HEIGHT && old(self).stat & MODE_10_INT_FLAG != 0)
                    || (ve == Some(Edge::Falling) && old(self).lyc == 0 && old(self).stat & LYC_MATCH_INT_FLAG != 0))
                &&& (final(self).fbi != old(self).fbi) == (ve == Some(Edge::Rising))
                &&& ve != Some(Edge::Rising) ==> final(self).front() == old(self).front()
            }),
            final(self).ly == old(self).ly || final(self).ly == old(self).ly + 1 || final(self).ly == 0,
            final(self).lcdc == old(self).lcdc && final(self).bgp == old(self).bgp && final(self).obp0 == old(self).obp0
                && final(self).obp1 == old(self).obp1 && final(self).wx == old(self).wx && final(self).wy == old(self).wy
                && final(self).sx == old(self).sx && final(self).sy == old(self).sy && final(self).lyc == old(self).lyc,
            final(self).cdata.data@ == old(self).cdata.data@ && final(self).bgdd1.data@ == old(self).bgdd1.data@
                && final(self).bgdd2.data@ == old(self).bgdd2.data@ && final(self).oam.data@ == old(self).oam.data@
                && final(self).tiles@ == old(self).tiles@ && final(self).objs@ == old(self).objs@,
            final(self).running_until_cycle == old(self).running_until_cycle,
            timer_step(timer_view(old(self).vblank_timer), cycle).1 == Some(Edge::Rising) ==> final(self).back() == old(self).front(),
            ({
                let (h, he) = timer_step(timer_view(old(self).hblank_timer), cycle);
                let (v, ve) = timer_step(timer_view(old(self).vblank_timer), cycle);
                let drawn_frame = if ve == Some(Edge::Rising) { final(self).front() } else { final(self).back() };
                let drawing = he == Some(Edge::Rising) && old(self).drawn_at(cycle);
                &&& drawing ==> forall|x: int|
                    0 <= x < SCREEN_WIDTH ==> drawn_frame[old(self).ly * 160 + x] == #[trigger] old(self).line_pixel(
                        x,
                        old(self).back()[old(self).ly * 160 + x],
                    )
                &&& forall|i: int|
                    0 <= i < FRAME_PIXELS && !(drawing && old(self).ly * 160 <= i < old(self).ly * 160 + 160) ==> #[trigger] drawn_frame[i]
                        == old(self).back()[i]
            }),
            r & 1 != 0 ==> timer_start(final(self).vblank_timer) == timer_start(old(self).vblank_timer) + SCREEN_CYCLE_TIME,
    {
        let mut lcdc_raised = false;
        let mut vblank_raised = false;
        let ghost s0 = *self;
        let he = update_timer(&mut self.hblank_timer, cycle);
        proof {
            lemma_timer_step_bounded(s0.hblank_timer, self.hblank_timer, he, s0.pumped_until, cycle);
        }
        let me = update_timer(&mut self.mode10_timer, cycle);
        proof {
            lemma_timer_step_bounded(s0.mode10_timer, self.mode10_timer, me, s0.pumped_until, cycle);
        }
        let ve = update_timer(&mut self.vblank_timer, cycle);
        proof {
            lemma_timer_step_bounded(s0.vblank_timer, self.vblank_timer, ve, s0.pumped_until, cycle);
        }
        self.pumped_until = cycle;
        let ghost s_mid = *self;
        proof {
            assert forall|x: int, u: Pixel| #[trigger] s_mid.line_pixel(x, u) == s0.line_pixel(x, u) by {
                lemma_line_pixel_same(s_mid, s0, x, u);
            }
        }
        match he {
            Some(Edge::Rising) => {
                self.do_hblank_start(cycle);
                if self.is_hblank_int_enabled() && (self.ly as usize) < SCREEN_HEIGHT {
                    lcdc_raised = true;
                }
            },
            Some(Edge::Falling) => {
                self.do_hblank_end();
                if self.ly == self.lyc && self.is_lyc_int_enabled() {
                    lcdc_raised = true;
                }
            },
            None => {},
        }
        proof {
            lemma_stat_enables_kept(s0.stat, s0.ly, s0.lyc, 0);
            lemma_stat_enables_kept(s0.stat, self.ly, s0.lyc, 0);
        }
        let ghost stat1 = self.stat;
        let ghost s_h = *self;
        assert(stat1 & 0x08 == s0.stat & 0x08 && stat1 & 0x20 == s0.stat & 0x20 && stat1 & 0x40 == s0.stat & 0x40);
        if (self.ly as usize) < SCREEN_HEIGHT {
            match me {
                Some(Edge::Rising) => {
                    self.stat = (self.stat & 0b1111_1100) | MODE_10_MASK;
                    if self.is_mode_10_int_enabled() {
                        lcdc_raised = true;
                    }
                },
                Some(Edge::Falling) => {
                    self.stat = (self.stat & 0b1111_1100) | MODE_11_MASK;
                },
                None => {},
            }
        }
        proof {
            lemma_stat_enables_kept(stat1, 0, 0, 2);
            lemma_stat_enables_kept(stat1, 0, 0, 3);
        }
        assert(self.stat & 0x08 == s0.stat & 0x08 && self.stat & 0x20 == s0.stat & 0x20 && self.stat & 0x40 == s0.stat & 0x40);
        let ghost stat2 = self.stat;
        let ghost s_v = *self;
        proof {
            lemma_stat_enables_kept(stat2, self.ly, self.lyc, 1);
            lemma_stat_enables_kept(stat2, 0, self.lyc, 0);
            lemma_stat_enables_kept(lyc_bit(stat2, 0, self.lyc), 0, self.lyc, 0);
        }
        match ve {
            Some(Edge::Rising) => {
                self.do_vblank_start();
                vblank_raised = true;
            },
            Some(Edge::Falling) => {
                self.do_vblank_end();
                if self.ly == self.lyc && self.is_lyc_int_enabled() {
                    lcdc_raised = true;
                }
            },
            None => {},
        }
        let raised: u8 = if vblank_raised { 1 } else { 0 } + if lcdc_raised { 2 } else { 0 };
        proof {
            let drawn_frame = if ve == Some(Edge::Rising) { self.front() } else { self.back() };
            assert(s_mid.back() == s0.back());
            assert(s_v.back() == s_h.back() && s_v.front() == s_h.front());
            if he == Some(Edge::Rising) && s0.drawn_at(cycle) {
                assert forall|x: int| 0 <= x < SCREEN_WIDTH implies drawn_frame[s0.ly * 160 + x] == #[trigger] s0.line_pixel(x, s0.back()[s0.ly * 160 + x]) by {
                    assert(s_h.back()[s0.ly * 160 + x] == s_mid.line_pixel(x, s_mid.back()[s0.ly * 160 + x]));
                    if ve == Some(Edge::Rising) {
                        assert(self.front() == s_v.back());
                    } else {
                        assert(self.back() == s_v.back());
                    }
                }
            }
        }
        assert((raised & 2 != 0) == (raised == 2 || raised == 3)) by (bit_vector)
            requires
                raised == 0 || raised == 1 || raised == 2 || raised == 3,
        ;
        assert(raised & !3u8 == 0 && (raised & 1 != 0) == (raised == 1 || raised == 3)) by (bit_vector)
            requires
                raised == 0 || raised == 1 || raised == 2 || raised == 3,
        ;
        raised
    }

    /// Pixel `i` of the tile sheet: the 255 tiles (from code 0, signed if `high`)
    /// laid out 20 to a row, 8 by 8 pixels each, through BGP; the rest yellow.
    pub open spec fn char_sheet_pixel(&self, high: bool, i: int) -> Pixel {
        let row = i / 160;
        let col = i % 160;
        let c = (row / 8) * 20 + col / 8;
        if c < 255 {
            color_spec(palette_of(tile_color(self.tiles@, char_index(c as u8, high), row % 8, col % 8), self.bgp))
        } else {
            Pixel(255, 255, 0, 255)
        }
    }

    /// A 160 by 144 picture of the tile data, for debugging.
    pub fn render_char_dat(&self, high: bool) -> (r: Vec<Pixel>)
        requires
            self.wf(),
        ensures
            r@.len() == FRAME_PIXELS,
            forall|i: int| 0 <= i < FRAME_PIXELS ==> r@[i] == #[trigger] self.char_sheet_pixel(high, i),
    {
        let mut fb: Vec<Pixel> = Vec::new();
        let mut i: usize = 0;
        while i < FRAME_PIXELS
            invariant
                self.wf(),
                i <= FRAME_PIXELS,
                fb@.len() == i,
                forall|j: int| 0 <= j < i ==> fb@[j] == #[trigger] self.char_sheet_pixel(high, j),
            decreases FRAME_PIXELS - i,
        {
            let row = i / 160;
            let col = i % 160;
            let c = (row / 8) * 20 + col / 8;
            if c < 255 {
                let char_row = self.read_char_row_at(c as u8, (row % 8) as u8, high);
                proof {
                    let y = (row % 8) as u8;
                    assert(y / 8 == 0 && y % 8 == y);
                    assert(char_row@[(col % 8) as int] == tile_color(self.tiles@, char_index(c as u8, high) + y / 8, (y % 8) as int, (col % 8) as int));
                }
                let color_index = char_row[col % 8];
                fb.push(color(palette_convert(color_index, self.bgp)));
            } else {
                fb.push(Pixel(255, 255, 0, 255));
            }
            i = i + 1;
        }
        fb
    }

    /// Pixel `i` of the whole 256 by 256 background of one map (0x9800 if
    /// `first`, else 0x9C00), through BGP.
    pub open spec fn background_pixel(&self, first: bool, i: int) -> Pixel {
        color_spec(palette_of(self.map_color((i / 256) as u8, (i % 256) as u8, !first), self.bgp))
    }

    /// A 256 by 256 picture of a whole background map, for debugging.
    pub fn render_background(&self, first: bool) -> (r: Vec<Pixel>)
        requires
            self.wf(),
        ensures
            r@.len() == 65536,
            forall|i: int| 0 <= i < 65536 ==> r@[i] == #[trigger] self.background_pixel(first, i),
    {
        let signed = self.get_bg_char_addr_start();
        let mut fb: Vec<Pixel> = Vec::new();
        let mut i: usize = 0;
        while i < 65536
            invariant
                self.wf(),
                i <= 65536,
                signed == (self.lcdc & BGD_CHAR_DAT_FLAG == 0),
                fb@.len() == i,
                forall|j: int| 0 <= j < i ==> fb@[j] == #[trigger] self.background_pixel(first, j),
            decreases 65536 - i,
        {
            let ty = (i / 256) as u8;
            let tx = (i % 256) as u8;
            let off = (ty / 8) as usize * 32 + (tx / 8) as usize;
            let c = if first {
                self.bgdd1.data[off]
            } else {
                self.bgdd2.data[off]
            };
            let char_row = self.read_char_row_at(c, ty % 8, signed);
            proof {
                let y = ty % 8;
                assert(y / 8 == 0 && y % 8 == y);
                assert(char_row@[(tx % 8) as int] == tile_color(self.tiles@, char_index(c, signed) + y / 8, (y % 8) as int, (tx % 8) as int));
            }
            let color_index = char_row[(tx % 8) as usize];
            fb.push(color(palette_convert(color_index, self.bgp)));
            i = i + 1;
        }
        fb
    }
}

impl Default for Lcd {
    fn default() -> (r: Lcd)
        ensures
            r.wf(),
            r.ly == 0,
            r.lcdc == 0x83,
            r.pumped_until == 0,
            r.front() == Seq::new(FRAME_PIXELS as nat, |i: int| color_spec(0)),
    {
        Lcd::new()
    }
}

} // verus!
