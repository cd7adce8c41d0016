//! The field that the market's goods grow on: a grid of tiles, each with the
//! crop that stands on it, and the tools that work them.
//!
//! A tile and a crop hold here what the tools read and change: whether the
//! soil is tilled, what grows, how far it has grown, whether it is watered,
//! and where on the sprite sheet the picture of that state lies. What a crop
//! inherits is carried along as `G` and never looked into.

use crate::anim::Rect;
use vstd::prelude::*;

verus! {

/// The side of a tile, and of a picture of a tile on a sprite sheet, in
/// pixels.
pub const TILE_SIZE: u32 = 80;

/// What grows on a tile.
#[derive(Clone, Copy, PartialEq, Eq, Structural, Debug)]
pub enum CropType {
    /// Nothing grows.
    Nothing,
    Carrot,
    Corn,
    Potato,
    Lettuce,
}

/// What a crop inherits.
#[derive(Clone, Copy, PartialEq, Eq, Structural, Debug)]
pub enum GeneType {
    GrowthRate,
    Value,
    WaterRetention,
    PestResistance,
}

/// What a pest inherits.
#[derive(Clone, Copy, PartialEq, Eq, Structural, Debug)]
pub enum PestGeneType {
    AttackRate,
    BreedSpeed,
    DmgToCarrot,
    DmgToCorn,
    DmgToPotato,
    DmgToLettuce,
}

/// The way a sprite faces.
#[derive(Clone, Copy, PartialEq, Eq, Structural, Debug)]
pub enum Direction {
    Down,
    Left,
    Right,
    Up,
}

/// The menus of the game.
#[derive(Clone, Copy, PartialEq, Eq, Structural, Debug)]
pub enum Menu {
    Sleep,
    ToMarket,
    ToHome,
    Shop,
}

/// The places of the game.
#[derive(Clone, Copy, PartialEq, Eq, Structural, Debug)]
pub enum Area {
    Home,
    Market,
}

/// The tools that a hand can hold.
#[derive(Clone, Copy, PartialEq, Eq, Structural, Debug)]
pub enum ToolType {
    Hand,
    Hoe,
    WateringCan,
}

/// The row of the crop sprite sheet that shows crops of type `t`.
pub open spec fn crop_row(t: CropType) -> int {
    match t {
        CropType::Nothing => 0,
        CropType::Carrot => 0,
        CropType::Corn => 1,
        CropType::Potato => 2,
        CropType::Lettuce => 3,
    }
}

/// Where on the crop sprite sheet the picture of a crop of type `t` at
/// `stage` lies: one row per type, one column per stage, and the first
/// picture for a tile on which nothing grows.
pub open spec fn crop_source(t: CropType, stage: u8) -> Rect {
    Rect {
        x: if t == CropType::Nothing {
            0
        } else {
            (stage * TILE_SIZE) as i32
        },
        y: (crop_row(t) * TILE_SIZE) as i32,
        w: TILE_SIZE,
        h: TILE_SIZE,
    }
}

/// Where on the tile sprite sheet the picture of bare soil lies.
pub open spec fn soil_source() -> Rect {
    Rect { x: 0, y: 0, w: TILE_SIZE, h: TILE_SIZE }
}

/// Where on the tile sprite sheet the picture of tilled soil lies, watered
/// or dry.
pub open spec fn tilled_source(watered: bool) -> Rect {
    Rect {
        x: if watered {
            (2 * TILE_SIZE) as i32
        } else {
            TILE_SIZE as i32
        },
        y: TILE_SIZE as i32,
        w: TILE_SIZE,
        h: TILE_SIZE,
    }
}

/// The picture of a crop of type `t` at `stage`.
fn source_of_crop(t: CropType, stage: u8) -> (src: Rect)
    ensures
        src == crop_source(t, stage),
{
    let side: i32 = 80;
    let (x, y): (i32, i32) = match t {
        CropType::Nothing => (0, 0),
        CropType::Carrot => (stage as i32 * side, 0),
        CropType::Corn => (stage as i32 * side, side),
        CropType::Potato => (stage as i32 * side, side * 2),
        CropType::Lettuce => (stage as i32 * side, side * 3),
    };
    Rect::new(x, y, TILE_SIZE, TILE_SIZE)
}

/// A crop on a tile.
pub struct Crop<G> {
    /// Where the crop stands on the field.
    pub pos: Rect,
    /// How far the crop has grown, from 0 to 3.
    pub stage: u8,
    /// Where on the sprite sheet its picture lies.
    pub src: Rect,
    /// Whether the crop has been watered.
    pub watered: bool,
    /// What grows.
    pub t: CropType,
    /// What the crop inherits.
    pub genes: G,
}

impl<G> Crop<G> {
    /// A crop of type `t` at `stage` that stands at `pos`.
    pub fn new(pos: Rect, stage: u8, watered: bool, t: CropType, genes: G) -> (crop: Crop<G>)
        ensures
            crop == (Crop { pos, stage, src: crop_source(t, stage), watered, t, genes }),
    {
        Crop { pos, stage, src: source_of_crop(t, stage), watered, t, genes }
    }

    /// Waters the crop, or lets it dry.
    pub fn set_water(&mut self, w: bool)
        ensures
            *final(self) == (Crop { watered: w, ..*old(self) }),
    {
        self.watered = w;
    }

    /// Whether the crop has been watered.
    pub fn get_watered(&self) -> (watered: bool)
        ensures
            watered == self.watered,
    {
        self.watered
    }

    /// How far the crop has grown.
    pub fn get_stage(&self) -> (stage: u8)
        ensures
            stage == self.stage,
    {
        self.stage
    }

    /// Sets how far the crop has grown. The picture stays until the type is
    /// next set.
    pub fn set_stage(&mut self, n: u8)
        ensures
            *final(self) == (Crop { stage: n, ..*old(self) }),
    {
        self.stage = n;
    }

    /// What grows.
    pub fn get_crop_type_enum(&self) -> (t: CropType)
        ensures
            t == self.t,
    {
        self.t
    }

    /// Sets what grows, and with it the picture of the crop at its stage.
    pub fn set_crop_type_enum(&mut self, new_crop_type: CropType)
        ensures
            *final(self) == (Crop {
                t: new_crop_type,
                src: crop_source(new_crop_type, old(self).stage),
                ..*old(self)
            }),
    {
        self.t = new_crop_type;
        self.src = source_of_crop(new_crop_type, self.stage);
    }

    /// Where the crop stands.
    pub fn get_pos(&self) -> (pos: Rect)
        ensures
            pos == self.pos,
    {
        self.pos
    }

    /// Moves the crop.
    pub fn set_pos(&mut self, new_pos: Rect)
        ensures
            *final(self) == (Crop { pos: new_pos, ..*old(self) }),
    {
        self.pos = new_pos;
    }

    /// Where on the sprite sheet the picture of the crop lies.
    pub fn get_src(&self) -> (src: Rect)
        ensures
            src == self.src,
    {
        self.src
    }
}

/// A tile of the field.
#[derive(Clone, Copy, PartialEq, Eq, Structural, Debug)]
pub struct Tile {
    /// Where the tile lies on the field.
    pub pos: Rect,
    /// Where on the sprite sheet its picture lies.
    pub src: Rect,
    /// Whether the soil is tilled.
    pub tilled: bool,
}

impl Tile {
    /// The tile with its soil tilled or bare.
    pub open spec fn with_tilled(self, till: bool) -> Tile {
        Tile {
            tilled: till,
            src: if till {
                tilled_source(false)
            } else {
                soil_source()
            },
            ..self
        }
    }

    /// The tile with its soil shown watered or dry. Bare soil shows no
    /// water.
    pub open spec fn with_water(self, water: bool) -> Tile {
        if self.tilled {
            Tile { src: tilled_source(water), ..self }
        } else {
            self
        }
    }

    /// A tile of bare soil at `pos`.
    pub fn new(pos: Rect) -> (tile: Tile)
        ensures
            tile == (Tile { pos, src: soil_source(), tilled: false }),
    {
        Tile { pos, src: Rect::new(0, 0, TILE_SIZE, TILE_SIZE), tilled: false }
    }

    /// Whether the soil is tilled.
    pub fn tilled(&self) -> (tilled: bool)
        ensures
            tilled == self.tilled,
    {
        self.tilled
    }

    /// Where the tile lies.
    pub fn pos(&self) -> (pos: Rect)
        ensures
            pos == self.pos,
    {
        self.pos
    }

    /// Where on the sprite sheet the picture of the tile lies.
    pub fn src(&self) -> (src: Rect)
        ensures
            src == self.src,
    {
        self.src
    }

    /// Tills the soil, or lets it lie bare.
    pub fn set_tilled(&mut self, till: bool)
        ensures
            *final(self) == old(self).with_tilled(till),
    {
        let side: i32 = 80;
        self.tilled = till;
        if till {
            self.src = Rect::new(side, side, TILE_SIZE, TILE_SIZE);
        } else {
            self.src = Rect::new(0, 0, TILE_SIZE, TILE_SIZE);
        }
    }

    /// Shows tilled soil watered or dry.
    pub fn set_water(&mut self, water: bool)
        ensures
            *final(self) == old(self).with_water(water),
    {
        let side: i32 = 80;
        if self.tilled {
            if water {
                self.src = Rect::new(2 * side, side, TILE_SIZE, TILE_SIZE);
            } else {
                self.src = Rect::new(side, side, TILE_SIZE, TILE_SIZE);
            }
        }
    }
}

/// A tile and the crop that stands on it.
pub struct CropTile<G> {
    pub tile: Tile,
    pub crop: Crop<G>,
}

impl<G> CropTile<G> {
    /// A tile with its crop.
    pub fn new(tile: Tile, crop: Crop<G>) -> (crop_tile: CropTile<G>)
        ensures
            crop_tile == (CropTile { tile, crop }),
    {
        CropTile { tile, crop }
    }

    /// Puts another crop on the tile.
    pub fn set_crop(&mut self, c: Crop<G>)
        ensures
            *final(self) == (CropTile { crop: c, ..*old(self) }),
    {
        self.crop = c;
    }

    /// The tile and crop after a harvest by hand: nothing grows, and the
    /// soil lies bare.
    pub open spec fn harvested(self) -> CropTile<G> {
        CropTile {
            tile: self.tile.with_tilled(false),
            crop: Crop {
                t: CropType::Nothing,
                src: crop_source(CropType::Nothing, self.crop.stage),
                stage: 0,
                watered: false,
                ..self.crop
            },
        }
    }

    /// The tile and crop after they were watered.
    pub open spec fn watered(self) -> CropTile<G> {
        CropTile { tile: self.tile.with_water(true), crop: Crop { watered: true, ..self.crop } }
    }

    /// The tile with `seed` planted where its crop stood.
    pub open spec fn planted(self, seed: Crop<G>) -> CropTile<G> {
        CropTile { crop: Crop { pos: self.crop.pos, ..seed }, ..self }
    }

    /// Whether the tile takes a seed: the soil is tilled and nothing grows.
    pub open spec fn takes_seed(self) -> bool {
        self.tile.tilled && self.crop.t == CropType::Nothing
    }

    /// The tile and crop after the tool of number `tool` was used on them.
    ///
    /// - The hand (0) harvests a crop that is fully grown.
    /// - The hoe (1) tills bare soil on which nothing grows.
    /// - The watering can (2) waters a crop that is dry.
    /// - The seed bags (3 to 6) plant `seed`, if there is one, where the
    ///   tile takes a seed.
    /// - Any other number does nothing.
    pub open spec fn after_tool(self, tool: i32, seed: Option<Crop<G>>) -> CropTile<G> {
        if tool == 0 {
            if self.crop.stage == 3 {
                self.harvested()
            } else {
                self
            }
        } else if tool == 1 {
            if self.crop.t == CropType::Nothing && !self.tile.tilled {
                CropTile { tile: self.tile.with_tilled(true), ..self }
            } else {
                self
            }
        } else if tool == 2 {
            if !self.crop.watered {
                self.watered()
            } else {
                self
            }
        } else if 3 <= tool <= 6 {
            if self.takes_seed() && seed.is_some() {
                self.planted(seed.unwrap())
            } else {
                self
            }
        } else {
            self
        }
    }
}

/// The kind of seed that the tool of number `tool` plants, if it is a seed
/// bag.
pub open spec fn seed_of_tool(tool: i32) -> Option<CropType> {
    if tool == 3 {
        Some(CropType::Carrot)
    } else if tool == 4 {
        Some(CropType::Corn)
    } else if tool == 5 {
        Some(CropType::Potato)
    } else if tool == 6 {
        Some(CropType::Lettuce)
    } else {
        None
    }
}

/// The lists of tiles that the columns of a field hold.
pub open spec fn columns<G>(field: Seq<Vec<CropTile<G>>>) -> Seq<Seq<CropTile<G>>> {
    field.map_values(|column: Vec<CropTile<G>>| column@)
}

/// The field: columns of tiles with their crops.
pub struct Population<G> {
    crop_tile_vec: Vec<Vec<CropTile<G>>>,
}

impl<G> View for Population<G> {
    type V = Seq<Seq<CropTile<G>>>;

    closed spec fn view(&self) -> Seq<Seq<CropTile<G>>> {
        columns(self.crop_tile_vec@)
    }
}

/// Whether the field has a tile at column `x` and row `y`.
pub open spec fn on_field<G>(field: Seq<Seq<CropTile<G>>>, x: int, y: int) -> bool {
    0 <= x < field.len() && 0 <= y < field[x].len()
}

/// The field with the tile at column `x` and row `y` replaced.
pub open spec fn with_tile<G>(field: Seq<Seq<CropTile<G>>>, x: int, y: int, tile: CropTile<G>) -> Seq<
    Seq<CropTile<G>>,
> {
    field.update(x, field[x].update(y, tile))
}

impl<G> Population<G> {
    /// A field of the given columns.
    pub fn new(crop_tile_vec: Vec<Vec<CropTile<G>>>) -> (pop: Population<G>)
        ensures
            pop@ == columns(crop_tile_vec@),
    {
        Population { crop_tile_vec }
    }

    /// The number of columns.
    pub fn width(&self) -> (n: usize)
        ensures
            n == self@.len(),
    {
        self.crop_tile_vec.len()
    }

    /// The number of tiles in column `x`.
    pub fn height(&self, x: usize) -> (n: usize)
        requires
            x < self@.len(),
        ensures
            n == self@[x as int].len(),
    {
        self.crop_tile_vec[x].len()
    }

    /// The tile at column `x` and row `y`.
    pub fn get_tile_with_index(&self, x: u32, y: u32) -> (tile: &Tile)
        requires
            on_field(self@, x as int, y as int),
        ensures
            *tile == self@[x as int][y as int].tile,
    {
        &self.crop_tile_vec[x as usize][y as usize].tile
    }

    /// The crop at column `x` and row `y`.
    pub fn get_crop_with_index(&self, x: u32, y: u32) -> (crop: &Crop<G>)
        requires
            on_field(self@, x as int, y as int),
        ensures
            *crop == self@[x as int][y as int].crop,
    {
        &self.crop_tile_vec[x as usize][y as usize].crop
    }

    /// Lends out the tile with its crop at column `x` and row `y`.
    pub fn get_crop_tile_with_index_mut(&mut self, x: u32, y: u32) -> (crop_tile: &mut CropTile<G>)
        requires
            on_field(old(self)@, x as int, y as int),
        ensures
            *crop_tile == old(self)@[x as int][y as int],
            final(self)@ == with_tile(old(self)@, x as int, y as int, *final(crop_tile)),
    {
        proof {
            assert forall|column: Vec<CropTile<G>>| #[trigger]
                columns(old(self).crop_tile_vec@.update(x as int, column)) == old(self)@.update(
                    x as int,
                    column@,
                ) by {
                assert(columns(old(self).crop_tile_vec@.update(x as int, column)) =~= old(
                    self,
                )@.update(x as int, column@));
            }
        }
        &mut self.crop_tile_vec[x as usize][y as usize]
    }

    /// Plants `tar_crop` at column `x` and row `y`, where the crop of that
    /// tile stood.
    pub fn set_crop_with_index(&mut self, x: u32, y: u32, tar_crop: Crop<G>)
        requires
            on_field(old(self)@, x as int, y as int),
        ensures
            final(self)@ == with_tile(
                old(self)@,
                x as int,
                y as int,
                old(self)@[x as int][y as int].planted(tar_crop),
            ),
    {
        let mut tar_crop = tar_crop;
        let crop_tile = self.get_crop_tile_with_index_mut(x, y);
        tar_crop.set_pos(crop_tile.crop.get_pos());
        crop_tile.set_crop(tar_crop);
    }
}

/// The kind of seed that the tool of number `tool` would plant at column `x`
/// and row `y`, if it is a seed bag and the tile takes a seed. This is the
/// seed to hand to [`use_tool`].
pub fn seed_wanted<G>(x: i32, y: i32, pop: &Population<G>, tool: i32) -> (kind: Option<CropType>)
    requires
        on_field(pop@, x as int, y as int),
    ensures
        kind == if pop@[x as int][y as int].takes_seed() {
            seed_of_tool(tool)
        } else {
            None
        },
{
    let tilled: bool = pop.get_tile_with_index(x as u32, y as u32).tilled();
    let empty: bool = pop.get_crop_with_index(x as u32, y as u32).get_crop_type_enum()
        == CropType::Nothing;
    if !(tilled && empty) {
        return None;
    }
    match tool {
        3 => Some(CropType::Carrot),
        4 => Some(CropType::Corn),
        5 => Some(CropType::Potato),
        6 => Some(CropType::Lettuce),
        _ => None,
    }
}

/// Uses the tool of number `tool` on the tile at column `x` and row `y`:
/// see [`CropTile::after_tool`]. `seed` is what the seed bag gives out.
pub fn use_tool<G>(x: i32, y: i32, pop: &mut Population<G>, tool: i32, seed: Option<Crop<G>>)
    requires
        on_field(old(pop)@, x as int, y as int),
    ensures
        final(pop)@ == with_tile(
            old(pop)@,
            x as int,
            y as int,
            old(pop)@[x as int][y as int].after_tool(tool, seed),
        ),
{
    proof {
        let field = old(pop)@;
        assert(field[x as int].update(y as int, field[x as int][y as int]) =~= field[x as int]);
        assert(with_tile(field, x as int, y as int, field[x as int][y as int]) =~= field);
    }
    match tool {
        0 => {
            if pop.get_crop_with_index(x as u32, y as u32).get_stage() == 3 {
                let crop_tile = pop.get_crop_tile_with_index_mut(x as u32, y as u32);
                crop_tile.crop.set_crop_type_enum(CropType::Nothing);
                crop_tile.crop.set_stage(0);
                crop_tile.crop.set_water(false);
                crop_tile.tile.set_tilled(false);
            }
        },
        1 => {
            if pop.get_crop_with_index(x as u32, y as u32).get_crop_type_enum() == CropType::Nothing
                && !pop.get_tile_with_index(x as u32, y as u32).tilled() {
                let crop_tile = pop.get_crop_tile_with_index_mut(x as u32, y as u32);
                crop_tile.tile.set_tilled(true);
            }
        },
        2 => {
            if !pop.get_crop_with_index(x as u32, y as u32).get_watered() {
                let crop_tile = pop.get_crop_tile_with_index_mut(x as u32, y as u32);
                crop_tile.crop.set_water(true);
                crop_tile.tile.set_water(true);
            }
        },
        3 | 4 | 5 | 6 => {
            if pop.get_tile_with_index(x as u32, y as u32).tilled() && pop.get_crop_with_index(
                x as u32,
                y as u32,
            ).get_crop_type_enum() == CropType::Nothing {
                if let Some(c) = seed {
                    pop.set_crop_with_index(x as u32, y as u32, c);
                }
            }
        },
        _ => {},
    }
}

} // verus!
