//! The picture processing unit: video RAM, sprite table, the scanline
//! state machine and the renderer that fills the frame line by line.

use vstd::prelude::*;
use double_buffer::DoubleBuffer;
use crate::display::{
    drawn_word, drawn_words, new_display, set_drawn_word, shown_buffer, shown_words, swap_display,
    DisplayBuffer, DISPLAY_BUFFER_SIZE,
};
use crate::interrupts::{InterruptFlag, INT_LCD, INT_VBLANK};

verus! {

/// LCDC, the LCD control register.
#[derive(Clone, Copy, PartialEq, Eq, Structural, Debug)]
pub struct LCDControl(pub u8);

/// The STAT bits that choose which events raise the LCD interrupt.
#[derive(Clone, Copy, PartialEq, Eq, Structural, Debug)]
pub struct STATEnable(pub u8);

/// The attribute byte of a sprite.
#[derive(Clone, Copy, PartialEq, Eq, Structural, Debug)]
pub struct SpriteFlags(pub u8);

/// The PPU runs.
pub const LCDC_ENABLE: u8 = 0b1000_0000;

/// The window reads tile map 1 instead of tile map 0.
pub const LCDC_WINDOW_TILE_MAP: u8 = 0b0100_0000;

/// The window is drawn.
pub const LCDC_WINDOW_ENABLE: u8 = 0b0010_0000;

/// Background and window tiles are numbered from VRAM offset 0.
pub const LCDC_TILE_DATA_AREA: u8 = 0b0001_0000;

/// The background reads tile map 1 instead of tile map 0.
pub const LCDC_BG_TILE_MAP: u8 = 0b0000_1000;

/// Sprites are 8x16 instead of 8x8.
pub const LCDC_OBJ_SIZE: u8 = 0b0000_0100;

/// Sprites are drawn.
pub const LCDC_OBJ_ENABLE: u8 = 0b0000_0010;

/// Background and window are drawn.
pub const LCDC_BG_WINDOW_ENABLE: u8 = 0b0000_0001;

/// LY reaching LYC raises the LCD interrupt.
pub const STAT_LYC: u8 = 0b0100_0000;

/// Entering mode 2 (OAM scan) raises the LCD interrupt.
pub const STAT_MODE2: u8 = 0b0010_0000;

/// Entering mode 1 (VBlank) raises the LCD interrupt.
pub const STAT_MODE1: u8 = 0b0001_0000;

/// Entering mode 0 (HBlank) raises the LCD interrupt.
pub const STAT_MODE0: u8 = 0b0000_1000;

/// The four source bits together.
pub const STAT_SOURCES: u8 = 0b0111_1000;

/// Background colours 1 to 3 cover the sprite.
pub const SPRITE_PRIORITY: u8 = 0b1000_0000;

pub const SPRITE_Y_FLIP: u8 = 0b0100_0000;

pub const SPRITE_X_FLIP: u8 = 0b0010_0000;

/// The sprite takes its shades from OBP1 instead of OBP0.
pub const SPRITE_PALETTE: u8 = 0b0001_0000;

impl LCDControl {
    pub open spec fn has(self, mask: u8) -> bool {
        self.0 & mask != 0
    }

    pub fn from_bits_truncate(value: u8) -> (r: LCDControl)
        ensures
            r == LCDControl(value),
    {
        LCDControl(value)
    }

    pub fn bits(&self) -> (r: u8)
        ensures
            r == self.0,
    {
        self.0
    }

    pub fn intersects(&self, mask: u8) -> (r: bool)
        ensures
            r == self.has(mask),
    {
        self.0 & mask != 0
    }

    /// Height of a sprite in lines: 16 with the size bit, else 8.
    pub open spec fn sprite_height(self) -> u8 {
        if self.has(LCDC_OBJ_SIZE) {
            16
        } else {
            8
        }
    }
}

impl STATEnable {
    pub open spec fn of_byte(value: u8) -> STATEnable {
        STATEnable(value & STAT_SOURCES)
    }

    pub open spec fn has(self, mask: u8) -> bool {
        self.0 & mask != 0
    }

    pub fn from_bits_truncate(value: u8) -> (r: STATEnable)
        ensures
            r == Self::of_byte(value),
    {
        STATEnable(value & STAT_SOURCES)
    }

    pub fn bits(&self) -> (r: u8)
        ensures
            r == self.0,
    {
        self.0
    }

    pub fn intersects(&self, mask: u8) -> (r: bool)
        ensures
            r == self.has(mask),
    {
        self.0 & mask != 0
    }
}

impl SpriteFlags {
    pub open spec fn has(self, mask: u8) -> bool {
        self.0 & mask != 0
    }

    pub fn from_bits_retain(value: u8) -> (r: SpriteFlags)
        ensures
            r == SpriteFlags(value),
    {
        SpriteFlags(value)
    }

    pub fn bits(&self) -> (r: u8)
        ensures
            r == self.0,
    {
        self.0
    }

    pub fn intersects(&self, mask: u8) -> (r: bool)
        ensures
            r == self.has(mask),
    {
        self.0 & mask != 0
    }
}

/// One entry of the sprite table. `y` and `x` are in sprite space: the
/// sprite's top-left corner sits at screen position (`x` - 8, `y` - 16).
#[derive(Clone, Copy, PartialEq, Eq, Structural, Debug)]
pub struct OAMSprite {
    pub y: u8,
    pub x: u8,
    pub tile_index: u8,
    pub flags: SpriteFlags,
}

impl OAMSprite {
    pub open spec fn of_bytes(data: Seq<u8>) -> OAMSprite {
        OAMSprite { y: data[0], x: data[1], tile_index: data[2], flags: SpriteFlags(data[3]) }
    }

    /// Byte `index` (0..4) of the entry as OAM stores it.
    pub open spec fn byte(self, index: int) -> u8 {
        if index == 0 {
            self.y
        } else if index == 1 {
            self.x
        } else if index == 2 {
            self.tile_index
        } else {
            self.flags.0
        }
    }

    /// The entry with byte `index` (0..4) replaced.
    pub open spec fn with_byte(self, index: int, value: u8) -> OAMSprite {
        if index == 0 {
            OAMSprite { y: value, ..self }
        } else if index == 1 {
            OAMSprite { x: value, ..self }
        } else if index == 2 {
            OAMSprite { tile_index: value, ..self }
        } else {
            OAMSprite { flags: SpriteFlags(value), ..self }
        }
    }

    pub fn from(data: [u8; 4]) -> (r: OAMSprite)
        ensures
            r == Self::of_bytes(data@),
    {
        OAMSprite {
            y: data[0],
            x: data[1],
            tile_index: data[2],
            flags: SpriteFlags::from_bits_retain(data[3]),
        }
    }
}

/// Number of entries in the sprite table.
pub const OAM_SPRITES: usize = 40;

/// Object attribute memory: forty sprites of four bytes.
#[derive(Clone, Copy, Debug)]
pub struct OAM {
    pub sprites: [OAMSprite; OAM_SPRITES],
}

/// What a read of OAM byte `address` (0..160) returns.
pub open spec fn oam_byte(sprites: Seq<OAMSprite>, address: u16) -> u8 {
    sprites[address as int / 4].byte(address as int % 4)
}

/// The sprite table after a write to OAM byte `address` (0..160).
pub open spec fn oam_with_byte(sprites: Seq<OAMSprite>, address: u16, value: u8) -> Seq<OAMSprite> {
    sprites.update(
        address as int / 4,
        sprites[address as int / 4].with_byte(address as int % 4, value),
    )
}

impl OAM {
    pub fn new() -> (r: OAM)
        ensures
            r.sprites@ == Seq::new(OAM_SPRITES as nat, |i: int| OAMSprite::of_bytes(seq![0u8, 0, 0, 0])),
    {
        let blank: OAMSprite = OAMSprite::from([0u8;4]);
        let oam = OAM { sprites: [blank;OAM_SPRITES] };
        assert(oam.sprites@ =~= Seq::new(
            OAM_SPRITES as nat,
            |i: int| OAMSprite::of_bytes(seq![0u8, 0, 0, 0]),
        ));
        oam
    }

    pub fn read(&self, address: u16) -> (r: u8)
        requires
            address < 160,
        ensures
            r == oam_byte(self.sprites@, address),
    {
        let sprite: OAMSprite = self.sprites[(address / 4) as usize];
        let field: u16 = address % 4;
        if field == 0 {
            sprite.y
        } else if field == 1 {
            sprite.x
        } else if field == 2 {
            sprite.tile_index
        } else {
            sprite.flags.bits()
        }
    }

    pub fn write(&mut self, address: u16, value: u8)
        requires
            address < 160,
        ensures
            final(self).sprites@ == oam_with_byte(old(self).sprites@, address, value),
    {
        let index: usize = (address / 4) as usize;
        let mut sprite: OAMSprite = self.sprites[index];
        let field: u16 = address % 4;
        if field == 0 {
            sprite.y = value;
        } else if field == 1 {
            sprite.x = value;
        } else if field == 2 {
            sprite.tile_index = value;
        } else {
            sprite.flags = SpriteFlags::from_bits_retain(value);
        }
        self.sprites[index] = sprite;
    }
}

/// An OAM byte that was written reads back as written, and no other byte
/// of the table changes.
pub proof fn lemma_oam_write_then_read(sprites: Seq<OAMSprite>, address: u16, value: u8, other: u16)
    requires
        sprites.len() == OAM_SPRITES,
        address < 160,
        other < 160,
    ensures
        oam_byte(oam_with_byte(sprites, address, value), address) == value,
        other != address ==> oam_byte(oam_with_byte(sprites, address, value), other) == oam_byte(
            sprites,
            other,
        ),
{
}

/// BGP, OBP0 and OBP1.
#[derive(Clone, Copy, PartialEq, Eq, Structural, Debug)]
pub struct DMGPalettes {
    pub bg: u8,
    pub obj0: u8,
    pub obj1: u8,
}

/// What the PPU is doing on the current line.
#[derive(Clone, Copy, PartialEq, Eq, Structural, Debug)]
pub enum PPUMode {
    HBlank,
    VBlank,
    OAMScan,
    Drawing,
}

impl PPUMode {
    /// The mode number in STAT bits 1..0.
    pub open spec fn number(self) -> u8 {
        match self {
            PPUMode::HBlank => 0,
            PPUMode::VBlank => 1,
            PPUMode::OAMScan => 2,
            PPUMode::Drawing => 3,
        }
    }

    pub fn bits(&self) -> (r: u8)
        ensures
            r == self.number(),
    {
        match self {
            PPUMode::HBlank => 0,
            PPUMode::VBlank => 1,
            PPUMode::OAMScan => 2,
            PPUMode::Drawing => 3,
        }
    }
}

/// Whether the PPU runs.
#[derive(Clone, Copy, PartialEq, Eq, Structural, Debug)]
pub enum PPUState {
    /// Running and drawing.
    Active,
    /// Switched off: nothing advances and the screen is blank.
    Disabled,
    /// Switched on during this frame: everything advances, but nothing is
    /// drawn before the next frame starts.
    Starting,
}

/// The shade that `palette` gives to colour `color_id` (0..4).
pub open spec fn palette_color(color_id: u8, palette: u8) -> u8 {
    (palette >> ((2 * color_id) as u8)) & 0b11
}

pub fn get_palette_color(color_id: u8, palette: u8) -> (r: u8)
    requires
        color_id <= 3,
    ensures
        r == palette_color(color_id, palette),
{
    (palette >> (2 * color_id)) & 0b11
}

/// The tile number at pixel (`x`, `y`) of a 256x256 tile map; `second`
/// picks the map at VRAM offset 0x1C00 over the one at 0x1800.
#[verifier::opaque]
pub open spec fn map_tile(vram: Seq<u8>, x: u8, y: u8, second: bool) -> u8 {
    vram[(if second {
        0x1C00int
    } else {
        0x1800int
    }) + (y / 8) * 32 + x / 8]
}

/// Colour (0..4) of column `x` (taken modulo 8) in row `y` (modulo 8) of a
/// tile. With `signed_area` tiles 0..128 are read from VRAM offset 0x1000
/// on; every other tile sits at sixteen times its number. A row is two
/// bytes: the first holds the low colour bits, leftmost pixel in bit 7.
#[verifier::opaque]
pub open spec fn tile_color(vram: Seq<u8>, x: u8, y: u8, tile: u8, signed_area: bool) -> u8 {
    let row: int = 16 * tile + 2 * (y % 8) + (if signed_area && tile < 128 {
        0x1000int
    } else {
        0
    });
    let shift: u8 = (7 - x % 8) as u8;
    ((vram[row] >> shift) & 1) | (((vram[row + 1] >> shift) & 1) << 1)
}

/// A colour is two bits.
pub proof fn lemma_color_range(low: u8, high: u8, shift: u8, palette: u8)
    by (bit_vector)
    requires
        shift < 8,
    ensures
        ((low >> shift) & 1) | (((high >> shift) & 1) << 1) <= 3,
        (palette >> shift) & 0b11 <= 3,
{
}

/// Whether the sprite has pixels on screen line `y` when sprites are
/// `height` lines tall.
pub open spec fn sprite_covers(sprite: OAMSprite, y: u8, height: u8) -> bool {
    sprite.y <= y + 16 < sprite.y + height
}

/// Whether the sprite has pixels in screen column `x`.
pub open spec fn sprite_spans(sprite: OAMSprite, x: u8) -> bool {
    sprite.x <= x + 8 < sprite.x + 8
}

/// Where a sprite with the given X goes into a list that is ordered by X:
/// behind every sprite whose X is not larger.
pub open spec fn insert_position(list: Seq<OAMSprite>, x: u8) -> int
    decreases list.len(),
{
    if list.len() == 0 {
        0
    } else if list.last().x <= x {
        list.len() as int
    } else {
        insert_position(list.drop_last(), x)
    }
}

/// The sprites drawn on line `y`, as found in the first `n` entries of the
/// table: of the entries that cover the line the first ten in table order,
/// listed by ascending X, entries of equal X in table order.
pub open spec fn line_sprites(oam: Seq<OAMSprite>, y: u8, height: u8, n: int) -> Seq<OAMSprite>
    decreases n,
{
    if n <= 0 {
        Seq::empty()
    } else {
        let found = line_sprites(oam, y, height, n - 1);
        if found.len() < 10 && sprite_covers(oam[n - 1], y, height) {
            found.insert(insert_position(found, oam[n - 1].x), oam[n - 1])
        } else {
            found
        }
    }
}

pub proof fn lemma_insert_position_range(list: Seq<OAMSprite>, x: u8)
    ensures
        0 <= insert_position(list, x) <= list.len(),
    decreases list.len(),
{
    if list.len() > 0 && list.last().x > x {
        lemma_insert_position_range(list.drop_last(), x);
    }
}

/// No line shows more than ten sprites, every sprite it shows covers the
/// line, and the sprites are listed by ascending X.
pub proof fn lemma_line_sprites(oam: Seq<OAMSprite>, y: u8, height: u8, n: int)
    requires
        n <= oam.len(),
    ensures
        line_sprites(oam, y, height, n).len() <= 10,
        line_sprites(oam, y, height, n).len() <= n || n < 0,
        forall|k: int|
            0 <= k < line_sprites(oam, y, height, n).len() ==> sprite_covers(
                #[trigger] line_sprites(oam, y, height, n)[k],
                y,
                height,
            ),
        forall|i: int, j: int|
            0 <= i < j < line_sprites(oam, y, height, n).len() ==> (#[trigger] line_sprites(
                oam,
                y,
                height,
                n,
            )[i]).x <= (#[trigger] line_sprites(oam, y, height, n)[j]).x,
    decreases n,
{
    if n > 0 {
        lemma_line_sprites(oam, y, height, n - 1);
        let found = line_sprites(oam, y, height, n - 1);
        if found.len() < 10 && sprite_covers(oam[n - 1], y, height) {
            lemma_insert_position_range(found, oam[n - 1].x);
            lemma_insert_keeps_order(found, oam[n - 1]);
        }
    }
}

/// Inserting at the insert position keeps a list ordered by X.
pub proof fn lemma_insert_keeps_order(list: Seq<OAMSprite>, sprite: OAMSprite)
    requires
        forall|i: int, j: int| 0 <= i < j < list.len() ==> (#[trigger] list[i]).x <= (#[trigger] list[j]).x,
    ensures
        forall|i: int, j: int|
            0 <= i < j < list.len() + 1 ==> (#[trigger] list.insert(
                insert_position(list, sprite.x),
                sprite,
            )[i]).x <= (#[trigger] list.insert(insert_position(list, sprite.x), sprite)[j]).x,
{
    lemma_insert_position_bounds(list, sprite.x);
    lemma_insert_position_range(list, sprite.x);
}

/// Everything before the insert position has an X that is not larger,
/// everything from it on has a larger X.
pub proof fn lemma_insert_position_bounds(list: Seq<OAMSprite>, x: u8)
    requires
        forall|i: int, j: int| 0 <= i < j < list.len() ==> (#[trigger] list[i]).x <= (#[trigger] list[j]).x,
    ensures
        forall|k: int| 0 <= k < insert_position(list, x) ==> (#[trigger] list[k]).x <= x,
        forall|k: int| insert_position(list, x) <= k < list.len() ==> (#[trigger] list[k]).x > x,
    decreases list.len(),
{
    if list.len() > 0 && list.last().x > x {
        let front = list.drop_last();
        assert forall|i: int, j: int| 0 <= i < j < front.len() implies (#[trigger] front[i]).x <= (
        #[trigger] front[j]).x by {
            assert(front[i] == list[i] && front[j] == list[j]);
        }
        lemma_insert_position_bounds(front, x);
        lemma_insert_position_range(front, x);
        assert forall|k: int| 0 <= k < insert_position(list, x) implies (#[trigger] list[k]).x
            <= x by {
            assert(front[k] == list[k]);
        }
        assert forall|k: int| insert_position(list, x) <= k < list.len() implies (
        #[trigger] list[k]).x > x by {
            if k < front.len() {
                assert(front[k] == list[k]);
            }
        }
    } else if list.len() > 0 {
        assert forall|k: int| 0 <= k < insert_position(list, x) implies (#[trigger] list[k]).x
            <= x by {
            if k < list.len() - 1 {
                assert(list[k].x <= list[list.len() - 1].x);
            }
        }
    }
}

/// A sprite at Y 0, or at Y 160 and beyond, has no pixel on any of the 144
/// screen lines, so no line lists it.
pub proof fn lemma_hidden_sprite_never_covers(sprite: OAMSprite, y: u8, height: u8)
    requires
        y < 144,
        height == 8 || height == 16,
        sprite.y == 0 || sprite.y >= 160,
    ensures
        !sprite_covers(sprite, y, height),
{
}

/// A hidden sprite is on no line's list, whatever else the table holds.
pub proof fn lemma_hidden_sprite_not_listed(
    oam: Seq<OAMSprite>,
    y: u8,
    height: u8,
    sprite: OAMSprite,
)
    requires
        oam.len() == OAM_SPRITES,
        y < 144,
        height == 8 || height == 16,
        sprite.y == 0 || sprite.y >= 160,
    ensures
        !line_sprites(oam, y, height, OAM_SPRITES as int).contains(sprite),
{
    lemma_line_sprites(oam, y, height, OAM_SPRITES as int);
    lemma_hidden_sprite_never_covers(sprite, y, height);
}

/// Sum over the first `lines` screen lines of the number of sprites drawn,
/// where `tables[y]` is the sprite table as line `y` is drawn and
/// `heights[y]` the sprite height then.
pub open spec fn sprites_drawn(tables: Seq<Seq<OAMSprite>>, heights: Seq<u8>, lines: int) -> int
    decreases lines,
{
    if lines <= 0 {
        0
    } else {
        sprites_drawn(tables, heights, lines - 1) + line_sprites(
            tables[lines - 1],
            (lines - 1) as u8,
            heights[lines - 1],
            OAM_SPRITES as int,
        ).len()
    }
}

/// A frame draws at most ten sprites on each of its lines: 1440 over the
/// 144 lines, however the table changes from line to line.
pub proof fn lemma_frame_sprite_budget(tables: Seq<Seq<OAMSprite>>, heights: Seq<u8>, lines: int)
    requires
        0 <= lines <= 144,
        tables.len() == 144,
        heights.len() == 144,
        forall|y: int| 0 <= y < 144 ==> (#[trigger] tables[y]).len() == OAM_SPRITES,
    ensures
        sprites_drawn(tables, heights, lines) <= 10 * lines,
    decreases lines,
{
    if lines > 0 {
        lemma_frame_sprite_budget(tables, heights, lines - 1);
        lemma_line_sprites(
            tables[lines - 1],
            (lines - 1) as u8,
            heights[lines - 1],
            OAM_SPRITES as int,
        );
    }
}

/// Everything a pixel's shade depends on besides its position and the
/// sprites of its line.
pub struct Scene {
    pub vram: Seq<u8>,
    pub lcdc: LCDControl,
    pub bg_x: u8,
    pub bg_y: u8,
    pub win_x: u8,
    pub win_y: u8,
    pub win_line: u8,
    pub palettes: DMGPalettes,
}

impl Scene {
    /// Colour (0..4) that the sprite shows at screen position (`x`, `y`),
    /// which it covers. Flips mirror the sprite; an 8x16 sprite takes its
    /// upper half from the even tile of its pair and its lower half from
    /// the odd one.
    pub open spec fn sprite_color(self, sprite: OAMSprite, x: u8, y: u8) -> u8 {
        let height: int = self.lcdc.sprite_height() as int;
        let across: int = x + 8 - sprite.x;
        let column: int = if sprite.flags.has(SPRITE_X_FLIP) {
            7 - across
        } else {
            across
        };
        let down: int = y + 16 - sprite.y;
        let line: int = if sprite.flags.has(SPRITE_Y_FLIP) {
            height - 1 - down
        } else {
            down
        };
        if height == 16 {
            tile_color(
                self.vram,
                column as u8,
                (line % 8) as u8,
                (sprite.tile_index - sprite.tile_index % 2 + line / 8) as u8,
                false,
            )
        } else {
            tile_color(self.vram, column as u8, line as u8, sprite.tile_index, false)
        }
    }

    /// The shade a sprite gives to colour `color_id`.
    pub open spec fn sprite_shade(self, sprite: OAMSprite, color_id: u8) -> u8 {
        palette_color(
            color_id,
            if sprite.flags.has(SPRITE_PALETTE) {
                self.palettes.obj1
            } else {
                self.palettes.obj0
            },
        )
    }

    /// Index, from `from` on, of the first listed sprite that spans column
    /// `x` and is not transparent there; -1 when there is none.
    pub open spec fn sprite_at(self, sprites: Seq<OAMSprite>, x: u8, y: u8, from: int) -> int
        decreases sprites.len() - from,
    {
        if from < 0 || from >= sprites.len() {
            -1
        } else if sprite_spans(sprites[from], x) && self.sprite_color(sprites[from], x, y) != 0 {
            from
        } else {
            self.sprite_at(sprites, x, y, from + 1)
        }
    }

    /// Whether the window covers screen position (`x`, `y`).
    pub open spec fn in_window(self, x: u8, y: u8) -> bool {
        self.lcdc.has(LCDC_WINDOW_ENABLE) && x >= self.win_x && y >= self.win_y
    }

    /// Colour (0..4) of the background layer at (`x`, `y`): the window
    /// where it covers the position, the scrolled background elsewhere.
    pub open spec fn layer_color(self, x: u8, y: u8) -> u8 {
        if self.in_window(x, y) {
            tile_color(
                self.vram,
                (x - self.win_x) as u8,
                self.win_line,
                map_tile(
                    self.vram,
                    (x - self.win_x) as u8,
                    self.win_line,
                    self.lcdc.has(LCDC_WINDOW_TILE_MAP),
                ),
                !self.lcdc.has(LCDC_TILE_DATA_AREA),
            )
        } else {
            tile_color(
                self.vram,
                ((x + self.bg_x) % 256) as u8,
                ((y + self.bg_y) % 256) as u8,
                map_tile(
                    self.vram,
                    ((x + self.bg_x) % 256) as u8,
                    ((y + self.bg_y) % 256) as u8,
                    self.lcdc.has(LCDC_BG_TILE_MAP),
                ),
                !self.lcdc.has(LCDC_TILE_DATA_AREA),
            )
        }
    }

    /// The shade (0..4) of screen position (`x`, `y`). The first opaque
    /// sprite wins unless its priority bit yields to a background colour
    /// other than 0; with the background layer switched off the layer
    /// counts as colour 0 everywhere.
    pub open spec fn pixel(self, sprites: Seq<OAMSprite>, x: u8, y: u8) -> u8 {
        let hit: int = if self.lcdc.has(LCDC_OBJ_ENABLE) {
            self.sprite_at(sprites, x, y, 0)
        } else {
            -1
        };
        let layer: u8 = if self.lcdc.has(LCDC_BG_WINDOW_ENABLE) {
            self.layer_color(x, y)
        } else {
            0
        };
        if hit >= 0 && (!sprites[hit].flags.has(SPRITE_PRIORITY) || layer == 0) {
            self.sprite_shade(sprites[hit], self.sprite_color(sprites[hit], x, y))
        } else {
            palette_color(layer, self.palettes.bg)
        }
    }
}

/// Index of the frame word that holds pixel (`x`, `y`).
pub open spec fn pixel_word(x: u8, y: u8) -> int {
    y * 10 + x / 16
}

/// Position of pixel `x` inside its word, in bits.
pub open spec fn pixel_shift(x: u8) -> u32 {
    ((x % 16) * 2) as u32
}

/// The frame with pixel (`x`, `y`) set to `shade`.
pub open spec fn put_pixel(frame: Seq<u32>, x: u8, y: u8, shade: u8) -> Seq<u32> {
    frame.update(
        pixel_word(x, y),
        (frame[pixel_word(x, y)] & !(0b11u32 << pixel_shift(x))) | ((shade as u32) << pixel_shift(
            x,
        )),
    )
}

/// The shade that a frame holds for pixel (`x`, `y`).
pub open spec fn pixel_at(frame: Seq<u32>, x: u8, y: u8) -> u8 {
    ((frame[pixel_word(x, y)] >> pixel_shift(x)) & 0b11) as u8
}

/// Storing a shade changes the two bits of its pixel and nothing else in
/// the word.
pub proof fn lemma_put_pixel_bits(word: u32, shade: u8, shift: u32, other: u32)
    by (bit_vector)
    requires
        shade <= 3,
        shift < 32,
        shift % 2 == 0,
        other < 32,
        other % 2 == 0,
    ensures
        (((word & !(0b11u32 << shift)) | ((shade as u32) << shift)) >> shift) & 0b11 == shade,
        other != shift ==> (((word & !(0b11u32 << shift)) | ((shade as u32) << shift)) >> other)
            & 0b11 == (word >> other) & 0b11,
{
}

/// A pixel that was stored reads back, and storing it leaves every other
/// pixel of the frame as it was.
pub proof fn lemma_put_pixel(frame: Seq<u32>, x: u8, y: u8, shade: u8, ox: u8, oy: u8)
    requires
        frame.len() == DISPLAY_BUFFER_SIZE,
        x < 160,
        y < 144,
        ox < 160,
        oy < 144,
        shade <= 3,
    ensures
        pixel_at(put_pixel(frame, x, y, shade), x, y) == shade,
        (ox != x || oy != y) ==> pixel_at(put_pixel(frame, x, y, shade), ox, oy) == pixel_at(
            frame,
            ox,
            oy,
        ),
{
    lemma_put_pixel_bits(frame[pixel_word(x, y)], shade, pixel_shift(x), pixel_shift(ox));
}

/// The frame after a pixel is drawn: nothing is stored while the PPU is
/// starting up.
pub open spec fn plot(state: PPUState, frame: Seq<u32>, x: u8, y: u8, shade: u8) -> Seq<u32> {
    if state == PPUState::Starting {
        frame
    } else {
        put_pixel(frame, x, y, shade)
    }
}

/// The frame after the first `n` pixels of line `y` are drawn.
pub open spec fn render(
    scene: Scene,
    state: PPUState,
    sprites: Seq<OAMSprite>,
    frame: Seq<u32>,
    y: u8,
    n: int,
) -> Seq<u32>
    decreases n,
{
    if n <= 0 {
        frame
    } else {
        plot(
            state,
            render(scene, state, sprites, frame, y, n - 1),
            (n - 1) as u8,
            y,
            scene.pixel(sprites, (n - 1) as u8, y),
        )
    }
}

/// A tile holds colours 0 to 3.
pub proof fn lemma_tile_color_range(vram: Seq<u8>, x: u8, y: u8, tile: u8, signed_area: bool)
    ensures
        tile_color(vram, x, y, tile, signed_area) <= 3,
{
    reveal(tile_color);
    let row: int = 16 * tile + 2 * (y % 8) + (if signed_area && tile < 128 {
        0x1000int
    } else {
        0
    });
    lemma_color_range(vram[row], vram[row + 1], (7 - x % 8) as u8, 0);
}

/// A pixel holds shades 0 to 3.
pub proof fn lemma_pixel_range(scene: Scene, sprites: Seq<OAMSprite>, x: u8, y: u8)
    ensures
        scene.pixel(sprites, x, y) <= 3,
{
    let hit: int = if scene.lcdc.has(LCDC_OBJ_ENABLE) {
        scene.sprite_at(sprites, x, y, 0)
    } else {
        -1
    };
    let layer: u8 = if scene.lcdc.has(LCDC_BG_WINDOW_ENABLE) {
        scene.layer_color(x, y)
    } else {
        0
    };
    if scene.lcdc.has(LCDC_BG_WINDOW_ENABLE) {
        if scene.in_window(x, y) {
            lemma_tile_color_range(
                scene.vram,
                (x - scene.win_x) as u8,
                scene.win_line,
                map_tile(
                    scene.vram,
                    (x - scene.win_x) as u8,
                    scene.win_line,
                    scene.lcdc.has(LCDC_WINDOW_TILE_MAP),
                ),
                !scene.lcdc.has(LCDC_TILE_DATA_AREA),
            );
        } else {
            lemma_tile_color_range(
                scene.vram,
                ((x + scene.bg_x) % 256) as u8,
                ((y + scene.bg_y) % 256) as u8,
                map_tile(
                    scene.vram,
                    ((x + scene.bg_x) % 256) as u8,
                    ((y + scene.bg_y) % 256) as u8,
                    scene.lcdc.has(LCDC_BG_TILE_MAP),
                ),
                !scene.lcdc.has(LCDC_TILE_DATA_AREA),
            );
        }
    }
    if hit >= 0 && (!sprites[hit].flags.has(SPRITE_PRIORITY) || layer == 0) {
        let sprite = sprites[hit];
        let height: int = scene.lcdc.sprite_height() as int;
        let across: int = x + 8 - sprite.x;
        let column: int = if sprite.flags.has(SPRITE_X_FLIP) {
            7 - across
        } else {
            across
        };
        let down: int = y + 16 - sprite.y;
        let line: int = if sprite.flags.has(SPRITE_Y_FLIP) {
            height - 1 - down
        } else {
            down
        };
        if height == 16 {
            lemma_tile_color_range(
                scene.vram,
                column as u8,
                (line % 8) as u8,
                (sprite.tile_index - sprite.tile_index % 2 + line / 8) as u8,
                false,
            );
        } else {
            lemma_tile_color_range(
                scene.vram,
                column as u8,
                line as u8,
                sprite.tile_index,
                false,
            );
        }
        let color = scene.sprite_color(sprite, x, y);
        let palette: u8 = if sprite.flags.has(SPRITE_PALETTE) {
            scene.palettes.obj1
        } else {
            scene.palettes.obj0
        };
        lemma_color_range(0, 0, (2 * color) as u8, palette);
    } else {
        lemma_color_range(0, 0, (2 * layer) as u8, scene.palettes.bg);
    }
}

/// A line that was drawn holds, pixel for pixel, the shades of the scene,
/// and drawing it leaves every other pixel of the frame as it was.
pub proof fn lemma_rendered_line(
    scene: Scene,
    state: PPUState,
    sprites: Seq<OAMSprite>,
    frame: Seq<u32>,
    y: u8,
    n: int,
    x: u8,
    row: u8,
)
    requires
        frame.len() == DISPLAY_BUFFER_SIZE,
        state != PPUState::Starting,
        y < 144,
        0 <= n <= 160,
        x < 160,
        row < 144,
    ensures
        render(scene, state, sprites, frame, y, n).len() == DISPLAY_BUFFER_SIZE,
        row == y && x < n ==> pixel_at(render(scene, state, sprites, frame, y, n), x, row)
            == scene.pixel(sprites, x, y),
        row != y || x >= n ==> pixel_at(render(scene, state, sprites, frame, y, n), x, row)
            == pixel_at(frame, x, row),
    decreases n,
{
    if n > 0 {
        lemma_rendered_line(scene, state, sprites, frame, y, n - 1, x, row);
        lemma_pixel_range(scene, sprites, (n - 1) as u8, y);
        lemma_put_pixel(
            render(scene, state, sprites, frame, y, n - 1),
            (n - 1) as u8,
            y,
            scene.pixel(sprites, (n - 1) as u8, y),
            x,
            row,
        );
    }
}

/// While the PPU is starting up, drawing a line changes nothing.
pub proof fn lemma_render_suppressed(
    scene: Scene,
    sprites: Seq<OAMSprite>,
    frame: Seq<u32>,
    y: u8,
    n: int,
)
    ensures
        render(scene, PPUState::Starting, sprites, frame, y, n) == frame,
    decreases n,
{
    if n > 0 {
        lemma_render_suppressed(scene, sprites, frame, y, n - 1);
    }
}

/// The PPU as its operations see it.
pub struct PpuView {
    pub state: PPUState,
    /// The frame that is shown.
    pub front: Seq<u32>,
    /// The frame that is being drawn.
    pub back: Seq<u32>,
    pub vram: Seq<u8>,
    pub oam: Seq<OAMSprite>,
    pub oam_dma_source: u8,
    pub oam_dma_request: bool,
    pub lcdc: LCDControl,
    pub lx: u16,
    pub ly: u8,
    pub bg_x: u8,
    pub bg_y: u8,
    pub win_x: u8,
    pub win_y: u8,
    pub win_line: u8,
    pub palettes: DMGPalettes,
    pub interrupt_request: InterruptFlag,
    pub stat_enable: STATEnable,
    pub mode: PPUMode,
    pub lyc: u8,
}

/// A frame of blank pixels.
pub open spec fn blank_frame() -> Seq<u32> {
    Seq::new(DISPLAY_BUFFER_SIZE as nat, |i: int| 0u32)
}

impl PpuView {
    pub open spec fn power_on() -> PpuView {
        PpuView {
            state: PPUState::Active,
            front: blank_frame(),
            back: blank_frame(),
            vram: Seq::new(0x2000, |i: int| 0u8),
            oam: Seq::new(OAM_SPRITES as nat, |i: int| OAMSprite::of_bytes(seq![0u8, 0, 0, 0])),
            oam_dma_source: 0,
            oam_dma_request: false,
            lcdc: LCDControl(0),
            lx: 0,
            ly: 0,
            bg_x: 0,
            bg_y: 0,
            win_x: 0,
            win_y: 0,
            win_line: 0,
            palettes: DMGPalettes { bg: 0, obj0: 0, obj1: 0 },
            interrupt_request: InterruptFlag(0),
            stat_enable: STATEnable(0),
            mode: PPUMode::OAMScan,
            lyc: 0,
        }
    }

    pub open spec fn scene(self) -> Scene {
        Scene {
            vram: self.vram,
            lcdc: self.lcdc,
            bg_x: self.bg_x,
            bg_y: self.bg_y,
            win_x: self.win_x,
            win_y: self.win_y,
            win_line: self.win_line,
            palettes: self.palettes,
        }
    }

    /// Whether entering `mode` raises the LCD interrupt.
    pub open spec fn mode_raises(self, mode: PPUMode) -> bool {
        (mode == PPUMode::OAMScan && self.stat_enable.has(STAT_MODE2)) || (mode == PPUMode::VBlank
            && self.stat_enable.has(STAT_MODE1)) || (mode == PPUMode::HBlank
            && self.stat_enable.has(STAT_MODE0))
    }

    /// The PPU after it entered `mode`.
    pub open spec fn entered(self, mode: PPUMode) -> PpuView {
        PpuView {
            mode,
            interrupt_request: if self.mode_raises(mode) {
                self.interrupt_request.with(INT_LCD)
            } else {
                self.interrupt_request
            },
            ..self
        }
    }

    /// Whether the window shows on line `y`: it is on, it starts on the
    /// screen, and the line is not above it.
    pub open spec fn window_on_line(self, y: u8) -> bool {
        self.lcdc.has(LCDC_WINDOW_ENABLE) && self.win_x < 160 && self.win_y <= y
    }

    /// The PPU after line `y` was drawn into the back frame. The window's
    /// own line counter advances on lines that show the window.
    pub open spec fn draw_scanline(self, y: u8) -> PpuView {
        PpuView {
            back: render(
                self.scene(),
                self.state,
                line_sprites(self.oam, y, self.lcdc.sprite_height(), OAM_SPRITES as int),
                self.back,
                y,
                160,
            ),
            win_line: if self.window_on_line(y) {
                ((self.win_line + 1) % 256) as u8
            } else {
                self.win_line
            },
            ..self
        }
    }

    /// The PPU after LY was compared with LYC.
    pub open spec fn compared(self) -> PpuView {
        if self.stat_enable.has(STAT_LYC) && self.lyc == self.ly {
            PpuView { interrupt_request: self.interrupt_request.with(INT_LCD), ..self }
        } else {
            self
        }
    }

    /// The PPU at the end of a line (dot 455). A visible line is drawn as
    /// it ends. Then LY advances: into line 144 VBlank begins, the frames
    /// are swapped, the window counter is reset and the VBLANK interrupt
    /// is raised; past line 153 LY returns to 0 and a starting PPU becomes
    /// active; into any other visible line the OAM scan begins.
    pub open spec fn next_line(self) -> PpuView {
        let ended: PpuView = if self.ly < 144 {
            (PpuView { lx: 0, ..self }).draw_scanline(self.ly)
        } else {
            PpuView { lx: 0, ..self }
        };
        let begun: PpuView = if ended.ly == 143 {
            (PpuView {
                ly: 144,
                win_line: 0,
                interrupt_request: ended.interrupt_request.with(INT_VBLANK),
                front: ended.back,
                back: ended.front,
                ..ended
            }).entered(PPUMode::VBlank)
        } else if ended.ly >= 153 {
            (PpuView {
                ly: 0,
                state: if ended.state == PPUState::Starting {
                    PPUState::Active
                } else {
                    ended.state
                },
                ..ended
            }).entered(PPUMode::OAMScan)
        } else if ended.ly < 143 {
            (PpuView { ly: (ended.ly + 1) as u8, ..ended }).entered(PPUMode::OAMScan)
        } else {
            PpuView { ly: (ended.ly + 1) as u8, ..ended }
        };
        begun.compared()
    }

    /// The PPU one T-cycle later. A line is 456 dots: on a visible line
    /// the OAM scan gives way to drawing at dot 80 and drawing to HBlank at
    /// dot 252. A disabled PPU stands still.
    pub open spec fn tick(self) -> PpuView {
        let quiet: PpuView = PpuView { interrupt_request: InterruptFlag(0), ..self };
        if quiet.state == PPUState::Disabled {
            quiet
        } else if quiet.lx < 455 {
            let moved: PpuView = PpuView { lx: (quiet.lx + 1) as u16, ..quiet };
            if moved.mode != PPUMode::VBlank && moved.lx == 80 {
                moved.entered(PPUMode::Drawing)
            } else if moved.mode != PPUMode::VBlank && moved.lx == 252 {
                moved.entered(PPUMode::HBlank)
            } else {
                moved
            }
        } else {
            quiet.next_line()
        }
    }

    /// The PPU after it was switched off: both frames blank, mode HBlank,
    /// line and dot 0. A PPU that is off already stays as it is.
    pub open spec fn disabled(self) -> PpuView {
        if self.state == PPUState::Disabled {
            self
        } else {
            PpuView {
                state: PPUState::Disabled,
                mode: PPUMode::HBlank,
                lx: 0,
                ly: 0,
                front: blank_frame(),
                back: blank_frame(),
                ..self
            }
        }
    }

    /// STAT as it reads: the enabled sources, LY = LYC in bit 2, the mode
    /// in bits 1..0.
    pub open spec fn stat(self) -> u8 {
        self.stat_enable.0 | (if self.lyc == self.ly {
            4u8
        } else {
            0u8
        }) | self.mode.number()
    }

    /// What a read of `address` returns: video RAM, the sprite table, or
    /// one of the registers 0xFF40..0xFF4C; 0xFF for anything else.
    pub open spec fn read(self, address: u16) -> u8 {
        if 0x8000 <= address < 0xA000 {
            self.vram[address - 0x8000]
        } else if 0xFE00 <= address < 0xFEA0 {
            oam_byte(self.oam, (address - 0xFE00) as u16)
        } else if address == 0xFF40 {
            self.lcdc.0
        } else if address == 0xFF41 {
            self.stat()
        } else if address == 0xFF42 {
            self.bg_y
        } else if address == 0xFF43 {
            self.bg_x
        } else if address == 0xFF44 {
            self.ly
        } else if address == 0xFF45 {
            self.lyc
        } else if address == 0xFF46 {
            self.oam_dma_source
        } else if address == 0xFF47 {
            self.palettes.bg
        } else if address == 0xFF48 {
            self.palettes.obj0
        } else if address == 0xFF49 {
            self.palettes.obj1
        } else if address == 0xFF4A {
            self.win_y
        } else if address == 0xFF4B {
            ((self.win_x + 7) % 256) as u8
        } else {
            0xFF
        }
    }

    /// The PPU after a write of LCDC: clearing the enable bit switches a
    /// running PPU off, setting it starts a disabled one.
    pub open spec fn with_lcdc(self, value: u8) -> PpuView {
        let set: PpuView = PpuView { lcdc: LCDControl(value), ..self };
        if self.state != PPUState::Disabled && !LCDControl(value).has(LCDC_ENABLE) {
            set.disabled()
        } else if self.state == PPUState::Disabled && LCDControl(value).has(LCDC_ENABLE) {
            PpuView { state: PPUState::Starting, mode: PPUMode::OAMScan, ..set }
        } else {
            set
        }
    }

    /// The PPU after a write of `value` to `address`. LY is read-only; WX
    /// is stored less its hardware offset of 7; a write to 0xFF46 asks for
    /// an OAM DMA transfer.
    pub open spec fn write(self, address: u16, value: u8) -> PpuView {
        if 0x8000 <= address < 0xA000 {
            PpuView { vram: self.vram.update(address - 0x8000, value), ..self }
        } else if 0xFE00 <= address < 0xFEA0 {
            PpuView { oam: oam_with_byte(self.oam, (address - 0xFE00) as u16, value), ..self }
        } else if address == 0xFF40 {
            self.with_lcdc(value)
        } else if address == 0xFF41 {
            PpuView { stat_enable: STATEnable::of_byte(value), ..self }
        } else if address == 0xFF42 {
            PpuView { bg_y: value, ..self }
        } else if address == 0xFF43 {
            PpuView { bg_x: value, ..self }
        } else if address == 0xFF45 {
            PpuView { lyc: value, ..self }
        } else if address == 0xFF46 {
            PpuView { oam_dma_source: value, oam_dma_request: true, ..self }
        } else if address == 0xFF47 {
            PpuView { palettes: DMGPalettes { bg: value, ..self.palettes }, ..self }
        } else if address == 0xFF48 {
            PpuView { palettes: DMGPalettes { obj0: value, ..self.palettes }, ..self }
        } else if address == 0xFF49 {
            PpuView { palettes: DMGPalettes { obj1: value, ..self.palettes }, ..self }
        } else if address == 0xFF4A {
            PpuView { win_y: value, ..self }
        } else if address == 0xFF4B {
            PpuView {
                win_x: if value < 7 {
                    0
                } else {
                    (value - 7) as u8
                },
                ..self
            }
        } else {
            self
        }
    }
}

/// With WX below 7 and WY 0 the window, when on, covers the screen from
/// column 0 of line 0 on.
pub proof fn lemma_window_at_origin(ppu: PpuView, wx: u8, x: u8, y: u8)
    requires
        wx < 7,
        ppu.lcdc.has(LCDC_WINDOW_ENABLE),
    ensures
        ppu.write(0xFF4A, 0).write(0xFF4B, wx).win_x == 0,
        ppu.write(0xFF4A, 0).write(0xFF4B, wx).scene().in_window(x, y),
        ppu.write(0xFF4A, 0).write(0xFF4B, wx).window_on_line(y),
{
}

/// Video RAM and the sprite table give back what was written to them.
pub proof fn lemma_ppu_write_then_read(ppu: PpuView, address: u16, value: u8)
    requires
        ppu.vram.len() == 0x2000,
        ppu.oam.len() == OAM_SPRITES,
        0x8000 <= address < 0xA000 || 0xFE00 <= address < 0xFEA0,
    ensures
        ppu.write(address, value).read(address) == value,
{
}

/// The picture processing unit.
pub struct PPU {
    pub state: PPUState,
    pub display: DoubleBuffer<DisplayBuffer>,
    pub vram: [u8; 0x2000],
    pub oam: OAM,
    /// High byte of the source address of the OAM DMA transfer.
    pub oam_dma_source: u8,
    /// Set by a write to 0xFF46, cleared by whoever performs the transfer.
    pub oam_dma_request: bool,
    pub lcdc: LCDControl,
    /// Dot within the line, 0..456.
    pub lx: u16,
    /// Line within the frame, 0..154.
    pub ly: u8,
    pub bg_x: u8,
    pub bg_y: u8,
    /// Screen column where the window starts (WX less 7).
    pub win_x: u8,
    pub win_y: u8,
    /// Line of the window that is drawn next.
    pub win_line: u8,
    pub palettes: DMGPalettes,
    /// Interrupts raised by the latest cycle.
    pub interrupt_request: InterruptFlag,
    pub stat_enable: STATEnable,
    pub mode: PPUMode,
    pub lyc: u8,
}

impl View for PPU {
    type V = PpuView;

    open spec fn view(&self) -> PpuView {
        PpuView {
            state: self.state,
            front: shown_words(self.display),
            back: drawn_words(self.display),
            vram: self.vram@,
            oam: self.oam.sprites@,
            oam_dma_source: self.oam_dma_source,
            oam_dma_request: self.oam_dma_request,
            lcdc: self.lcdc,
            lx: self.lx,
            ly: self.ly,
            bg_x: self.bg_x,
            bg_y: self.bg_y,
            win_x: self.win_x,
            win_y: self.win_y,
            win_line: self.win_line,
            palettes: self.palettes,
            interrupt_request: self.interrupt_request,
            stat_enable: self.stat_enable,
            mode: self.mode,
            lyc: self.lyc,
        }
    }
}

/// A pair of blank frames.
pub fn empty_display() -> (display: DoubleBuffer<DisplayBuffer>)
    ensures
        shown_words(display) == blank_frame(),
        drawn_words(display) == blank_frame(),
{
    let shown: DisplayBuffer = [0u32;DISPLAY_BUFFER_SIZE];
    let drawn: DisplayBuffer = [0u32;DISPLAY_BUFFER_SIZE];
    assert(shown@ =~= blank_frame());
    assert(drawn@ =~= blank_frame());
    new_display(shown, drawn)
}

impl PPU {
    pub fn new() -> (ppu: PPU)
        ensures
            ppu@ == PpuView::power_on(),
    {
        let ppu = PPU {
            state: PPUState::Active,
            display: empty_display(),
            vram: [0u8;0x2000],
            oam: OAM::new(),
            oam_dma_source: 0,
            oam_dma_request: false,
            lcdc: LCDControl::from_bits_truncate(0),
            lx: 0,
            ly: 0,
            bg_x: 0,
            bg_y: 0,
            win_x: 0,
            win_y: 0,
            win_line: 0,
            palettes: DMGPalettes { bg: 0, obj0: 0, obj1: 0 },
            interrupt_request: InterruptFlag::empty(),
            stat_enable: STATEnable::from_bits_truncate(0),
            mode: PPUMode::OAMScan,
            lyc: 0,
        };
        assert(ppu.vram@ =~= Seq::new(0x2000, |i: int| 0u8));
        assert(STATEnable::of_byte(0) == STATEnable(0)) by {
            assert(0u8 & 0b0111_1000u8 == 0) by (bit_vector);
        }
        ppu
    }

    /// The frame that was completed last.
    pub fn frame(&self) -> (buffer: &DisplayBuffer)
        ensures
            buffer@ == self@.front,
    {
        shown_buffer(&self.display)
    }

    /// A copy of the PPU with frames of its own that hold what this one's
    /// frames hold.
    pub fn duplicate(&mut self) -> (copy: PPU)
        ensures
            final(self)@ == old(self)@,
            copy@ == old(self)@,
    {
        let shown: DisplayBuffer = *shown_buffer(&self.display);
        let mut drawn: DisplayBuffer = [0u32;DISPLAY_BUFFER_SIZE];
        let mut index: usize = 0;
        while index < DISPLAY_BUFFER_SIZE
            invariant
                index <= DISPLAY_BUFFER_SIZE,
                self@ == old(self)@,
                index > 0 ==> self@.back.len() == DISPLAY_BUFFER_SIZE,
                forall|k: int| 0 <= k < index ==> #[trigger] drawn@[k] == self@.back[k],
            decreases DISPLAY_BUFFER_SIZE - index,
        {
            let word: u32 = drawn_word(&mut self.display, index);
            drawn[index] = word;
            index = index + 1;
        }
        assert(drawn@ =~= self@.back);
        PPU {
            state: self.state,
            display: new_display(shown, drawn),
            vram: self.vram,
            oam: self.oam,
            oam_dma_source: self.oam_dma_source,
            oam_dma_request: self.oam_dma_request,
            lcdc: self.lcdc,
            lx: self.lx,
            ly: self.ly,
            bg_x: self.bg_x,
            bg_y: self.bg_y,
            win_x: self.win_x,
            win_y: self.win_y,
            win_line: self.win_line,
            palettes: self.palettes,
            interrupt_request: self.interrupt_request,
            stat_enable: self.stat_enable,
            mode: self.mode,
            lyc: self.lyc,
        }
    }

    /// Advances the PPU by one T-cycle.
    pub fn cycle(&mut self)
        ensures
            final(self)@ == old(self)@.tick(),
    {
        self.interrupt_request = InterruptFlag::empty();
        if self.state == PPUState::Disabled {
            return ;
        }
        if self.lx < 455 {
            self.lx = self.lx + 1;
            if self.mode != PPUMode::VBlank {
                if self.lx == 80 {
                    self.update_mode(PPUMode::Drawing);
                } else if self.lx == 252 {
                    self.update_mode(PPUMode::HBlank);
                }
            }
        } else {
            self.lx = 0;
            if self.ly < 144 {
                self.draw_scanline(self.ly);
            }
            if self.ly == 143 {
                self.ly = 144;
                self.win_line = 0;
                self.interrupt_request.insert(INT_VBLANK);
                swap_display(&mut self.display);
                self.update_mode(PPUMode::VBlank);
            } else if self.ly >= 153 {
                self.ly = 0;
                if self.state == PPUState::Starting {
                    self.state = PPUState::Active;
                }
                self.update_mode(PPUMode::OAMScan);
            } else if self.ly < 143 {
                self.ly = self.ly + 1;
                self.update_mode(PPUMode::OAMScan);
            } else {
                self.ly = self.ly + 1;
            }
            if self.stat_enable.intersects(STAT_LYC) && self.lyc == self.ly {
                self.interrupt_request.insert(INT_LCD);
            }
        }
    }

    fn update_mode(&mut self, mode: PPUMode)
        ensures
            final(self)@ == old(self)@.entered(mode),
    {
        self.mode = mode;
        if (mode == PPUMode::OAMScan && self.stat_enable.intersects(STAT_MODE2)) || (mode
            == PPUMode::VBlank && self.stat_enable.intersects(STAT_MODE1)) || (mode
            == PPUMode::HBlank && self.stat_enable.intersects(STAT_MODE0)) {
            self.interrupt_request.insert(INT_LCD);
        }
    }

    /// Stores a shade into the back frame.
    fn set_pixel(&mut self, x: u8, y: u8, shade: u8)
        requires
            x < 160,
            y < 144,
        ensures
            final(self)@ == (PpuView {
                back: plot(old(self).state, old(self)@.back, x, y, shade),
                ..old(self)@
            }),
    {
        if self.state == PPUState::Starting {
            return ;
        }
        let index: usize = (y as usize) * 10 + (x as usize) / 16;
        let shift: u32 = ((x % 16) as u32) * 2;
        let word: u32 = drawn_word(&mut self.display, index);
        set_drawn_word(
            &mut self.display,
            index,
            (word & !(0b11u32 << shift)) | ((shade as u32) << shift),
        );
    }

    /// The tile number that a tile map holds for pixel (`x`, `y`).
    fn get_tile_index(&self, x: u8, y: u8, second: bool) -> (tile: u8)
        ensures
            tile == map_tile(self.vram@, x, y, second),
    {
        reveal(map_tile);
        let root: usize = if second {
            0x1C00
        } else {
            0x1800
        };
        self.vram[root + ((y / 8) as usize) * 32 + (x / 8) as usize]
    }

    /// The colour of a tile at column `x`, row `y`.
    fn get_tile_color(&self, x: u8, y: u8, tile: u8, signed_area: bool) -> (color: u8)
        ensures
            color == tile_color(self.vram@, x, y, tile, signed_area),
            color <= 3,
    {
        let offset: usize = if signed_area && tile < 128 {
            0x1000
        } else {
            0
        };
        let row: usize = 16 * (tile as usize) + 2 * ((y % 8) as usize) + offset;
        let shift: u8 = 7 - x % 8;
        let low: u8 = self.vram[row];
        let high: u8 = self.vram[row + 1];
        proof {
            reveal(tile_color);
            lemma_color_range(low, high, shift, 0);
        }
        ((low >> shift) & 1) | (((high >> shift) & 1) << 1)
    }

    /// The sprites to draw on line `y`.
    pub fn get_sprites(&self, y: u8, sprite_height: u8) -> (sprites: Vec<OAMSprite>)
        ensures
            sprites@ == line_sprites(self.oam.sprites@, y, sprite_height, OAM_SPRITES as int),
            sprites@.len() <= 10,
            forall|k: int|
                0 <= k < sprites@.len() ==> sprite_covers(#[trigger] sprites@[k], y, sprite_height),
    {
        let line: u16 = y as u16 + 16;
        let mut sprites: Vec<OAMSprite> = Vec::new();
        let mut index: usize = 0;
        while index < OAM_SPRITES
            invariant
                index <= OAM_SPRITES,
                line == y + 16,
                sprites@ == line_sprites(self.oam.sprites@, y, sprite_height, index as int),
            decreases OAM_SPRITES - index,
        {
            let sprite: OAMSprite = self.oam.sprites[index];
            proof {
                lemma_line_sprites(self.oam.sprites@, y, sprite_height, index as int);
            }
            if sprites.len() < 10 && sprite.y as u16 <= line && line < sprite.y as u16
                + sprite_height as u16 {
                let mut position: usize = sprites.len();
                assert(sprites@.take(position as int) =~= sprites@);
                while position > 0 && sprites[position - 1].x > sprite.x
                    invariant
                        position <= sprites@.len(),
                        insert_position(sprites@, sprite.x) == insert_position(
                            sprites@.take(position as int),
                            sprite.x,
                        ),
                    decreases position,
                {
                    assert(sprites@.take(position as int).drop_last() =~= sprites@.take(
                        position as int - 1,
                    ));
                    position = position - 1;
                }
                assert(insert_position(sprites@.take(position as int), sprite.x) == position)
                    by {
                    reveal_with_fuel(insert_position, 2);
                }
                sprites.insert(position, sprite);
            }
            index = index + 1;
        }
        proof {
            lemma_line_sprites(self.oam.sprites@, y, sprite_height, OAM_SPRITES as int);
        }
        sprites
    }

    /// The colour a sprite shows at a screen position that it covers.
    fn sprite_color(&self, sprite: &OAMSprite, x: u8, y: u8) -> (color: u8)
        requires
            sprite_covers(*sprite, y, self.lcdc.sprite_height()),
            sprite_spans(*sprite, x),
        ensures
            color == self@.scene().sprite_color(*sprite, x, y),
            color <= 3,
    {
        let tall: bool = self.lcdc.intersects(LCDC_OBJ_SIZE);
        let height: u8 = if tall {
            16
        } else {
            8
        };
        let across: u8 = (x as u16 + 8 - sprite.x as u16) as u8;
        let column: u8 = if sprite.flags.intersects(SPRITE_X_FLIP) {
            7 - across
        } else {
            across
        };
        let down: u8 = (y as u16 + 16 - sprite.y as u16) as u8;
        let line: u8 = if sprite.flags.intersects(SPRITE_Y_FLIP) {
            height - 1 - down
        } else {
            down
        };
        if tall {
            let tile: u8 = sprite.tile_index - sprite.tile_index % 2 + line / 8;
            self.get_tile_color(column, line % 8, tile, false)
        } else {
            self.get_tile_color(column, line, sprite.tile_index, false)
        }
    }

    /// The colour of the background layer at a screen position.
    fn layer_color(&self, x: u8, y: u8) -> (color: u8)
        ensures
            color == self@.scene().layer_color(x, y),
            color <= 3,
    {
        let signed_area: bool = !self.lcdc.intersects(LCDC_TILE_DATA_AREA);
        if self.lcdc.intersects(LCDC_WINDOW_ENABLE) && x >= self.win_x && y >= self.win_y {
            let column: u8 = x - self.win_x;
            let second: bool = self.lcdc.intersects(LCDC_WINDOW_TILE_MAP);
            let tile: u8 = self.get_tile_index(column, self.win_line, second);
            self.get_tile_color(column, self.win_line, tile, signed_area)
        } else {
            let column: u8 = ((x as u16 + self.bg_x as u16) % 256) as u8;
            let line: u8 = ((y as u16 + self.bg_y as u16) % 256) as u8;
            let second: bool = self.lcdc.intersects(LCDC_BG_TILE_MAP);
            let tile: u8 = self.get_tile_index(column, line, second);
            self.get_tile_color(column, line, tile, signed_area)
        }
    }

    /// The shade of one pixel of line `y`.
    fn pixel(&self, sprites: &Vec<OAMSprite>, x: u8, y: u8) -> (shade: u8)
        requires
            forall|k: int|
                0 <= k < sprites@.len() ==> sprite_covers(
                    #[trigger] sprites@[k],
                    y,
                    self.lcdc.sprite_height(),
                ),
        ensures
            shade == self@.scene().pixel(sprites@, x, y),
    {
        let ghost scene = self@.scene();
        let mut hit: Option<usize> = None;
        let mut color: u8 = 0;
        if self.lcdc.intersects(LCDC_OBJ_ENABLE) {
            let column: u16 = x as u16 + 8;
            let mut index: usize = 0;
            while index < sprites.len() && hit.is_none()
                invariant
                    index <= sprites@.len(),
                    scene == self@.scene(),
                    column == x + 8,
                    color <= 3,
                    forall|k: int|
                        0 <= k < sprites@.len() ==> sprite_covers(
                            #[trigger] sprites@[k],
                            y,
                            self.lcdc.sprite_height(),
                        ),
                    match hit {
                        None => scene.sprite_at(sprites@, x, y, 0) == scene.sprite_at(
                            sprites@,
                            x,
                            y,
                            index as int,
                        ),
                        Some(found) => {
                            &&& found < sprites@.len()
                            &&& scene.sprite_at(sprites@, x, y, 0) == found
                            &&& color == scene.sprite_color(sprites@[found as int], x, y)
                        },
                    },
                decreases sprites@.len() - index + (if hit.is_none() { 1int } else { 0 }),
            {
                let sprite: OAMSprite = sprites[index];
                if sprite.x as u16 <= column && column < sprite.x as u16 + 8 {
                    let found: u8 = self.sprite_color(&sprite, x, y);
                    if found != 0 {
                        hit = Some(index);
                        color = found;
                    }
                }
                if hit.is_none() {
                    index = index + 1;
                }
            }
        }
        let layer: u8 = if self.lcdc.intersects(LCDC_BG_WINDOW_ENABLE) {
            self.layer_color(x, y)
        } else {
            0
        };
        match hit {
            Some(found) => {
                let sprite: OAMSprite = sprites[found];
                if !sprite.flags.intersects(SPRITE_PRIORITY) || layer == 0 {
                    let palette: u8 = if sprite.flags.intersects(SPRITE_PALETTE) {
                        self.palettes.obj1
                    } else {
                        self.palettes.obj0
                    };
                    get_palette_color(color, palette)
                } else {
                    get_palette_color(layer, self.palettes.bg)
                }
            },
            None => get_palette_color(layer, self.palettes.bg),
        }
    }

    /// Draws line `y` into the back frame.
    fn draw_scanline(&mut self, y: u8)
        requires
            y < 144,
        ensures
            final(self)@ == old(self)@.draw_scanline(y),
    {
        let sprite_height: u8 = if self.lcdc.intersects(LCDC_OBJ_SIZE) {
            16
        } else {
            8
        };
        let sprites: Vec<OAMSprite> = self.get_sprites(y, sprite_height);
        let ghost before = self@;
        let mut x: u8 = 0;
        while x < 160
            invariant
                x <= 160,
                y < 144,
                sprite_height == self.lcdc.sprite_height(),
                forall|k: int|
                    0 <= k < sprites@.len() ==> sprite_covers(
                        #[trigger] sprites@[k],
                        y,
                        sprite_height,
                    ),
                self@ == (PpuView {
                    back: render(before.scene(), before.state, sprites@, before.back, y, x as int),
                    ..before
                }),
            decreases 160 - x,
        {
            let shade: u8 = self.pixel(&sprites, x, y);
            self.set_pixel(x, y, shade);
            x = x + 1;
        }
        if self.lcdc.intersects(LCDC_WINDOW_ENABLE) && self.win_x < 160 && self.win_y <= y {
            self.win_line = self.win_line.wrapping_add(1);
        }
    }

    /// Blanks the frame that is drawn into.
    fn clear_drawn(&mut self)
        ensures
            final(self)@ == (PpuView { back: blank_frame(), ..old(self)@ }),
    {
        let ghost before = self@;
        let mut index: usize = 0;
        while index < DISPLAY_BUFFER_SIZE
            invariant
                index <= DISPLAY_BUFFER_SIZE,
                self@ == (PpuView { back: self@.back, ..before }),
                index > 0 ==> self@.back.len() == DISPLAY_BUFFER_SIZE,
                forall|k: int| 0 <= k < index ==> #[trigger] self@.back[k] == 0,
            decreases DISPLAY_BUFFER_SIZE - index,
        {
            set_drawn_word(&mut self.display, index, 0);
            index = index + 1;
        }
        assert(self@.back =~= blank_frame());
    }

    /// Switches the PPU off.
    fn disable(&mut self)
        ensures
            final(self)@ == old(self)@.disabled(),
    {
        if self.state == PPUState::Disabled {
            return ;
        }
        self.clear_drawn();
        swap_display(&mut self.display);
        self.clear_drawn();
        self.state = PPUState::Disabled;
        self.mode = PPUMode::HBlank;
        self.lx = 0;
        self.ly = 0;
    }

    pub fn mem_read(&self, address: u16) -> (r: u8)
        ensures
            r == self@.read(address),
    {
        if 0x8000 <= address && address < 0xA000 {
            self.vram[(address - 0x8000) as usize]
        } else if 0xFE00 <= address && address < 0xFEA0 {
            self.oam.read(address - 0xFE00)
        } else if address == 0xFF40 {
            self.lcdc.bits()
        } else if address == 0xFF41 {
            let equal: u8 = if self.lyc == self.ly {
                4
            } else {
                0
            };
            self.stat_enable.bits() | equal | self.mode.bits()
        } else if address == 0xFF42 {
            self.bg_y
        } else if address == 0xFF43 {
            self.bg_x
        } else if address == 0xFF44 {
            self.ly
        } else if address == 0xFF45 {
            self.lyc
        } else if address == 0xFF46 {
            self.oam_dma_source
        } else if address == 0xFF47 {
            self.palettes.bg
        } else if address == 0xFF48 {
            self.palettes.obj0
        } else if address == 0xFF49 {
            self.palettes.obj1
        } else if address == 0xFF4A {
            self.win_y
        } else if address == 0xFF4B {
            self.win_x.wrapping_add(7)
        } else {
            0xFF
        }
    }

    pub fn mem_write(&mut self, address: u16, value: u8)
        ensures
            final(self)@ == old(self)@.write(address, value),
    {
        if 0x8000 <= address && address < 0xA000 {
            self.vram[(address - 0x8000) as usize] = value;
        } else if 0xFE00 <= address && address < 0xFEA0 {
            self.oam.write(address - 0xFE00, value);
        } else if address == 0xFF40 {
            self.lcdc = LCDControl::from_bits_truncate(value);
            let enabled: bool = self.lcdc.intersects(LCDC_ENABLE);
            if self.state != PPUState::Disabled && !enabled {
                self.disable();
            } else if self.state == PPUState::Disabled && enabled {
                self.state = PPUState::Starting;
                self.mode = PPUMode::OAMScan;
            }
        } else if address == 0xFF41 {
            self.stat_enable = STATEnable::from_bits_truncate(value);
        } else if address == 0xFF42 {
            self.bg_y = value;
        } else if address == 0xFF43 {
            self.bg_x = value;
        } else if address == 0xFF45 {
            self.lyc = value;
        } else if address == 0xFF46 {
            self.oam_dma_source = value;
            self.oam_dma_request = true;
        } else if address == 0xFF47 {
            self.palettes.bg = value;
        } else if address == 0xFF48 {
            self.palettes.obj0 = value;
        } else if address == 0xFF49 {
            self.palettes.obj1 = value;
        } else if address == 0xFF4A {
            self.win_y = value;
        } else if address == 0xFF4B {
            self.win_x = value.saturating_sub(7);
        }
    }
}

} // verus!
