use vstd::prelude::*;

verus! {

/// The side of the square exploration map, in tiles.
pub const MAP_SIZE: usize = 1000;

/// What a cell of the exploration map is made of.
#[derive(Clone, Copy, Debug, PartialEq, Eq, Structural)]
pub enum Tile {
    Error,
    Rock,
    Ice,
    Oil,
    Iron,
    Air,
}

impl Tile {
    /// Everything but air blocks the way.
    pub fn is_solid(&self) -> (r: bool)
        ensures
            r == (*self != Tile::Air),
    {
        match self {
            Tile::Error | Tile::Rock | Tile::Ice | Tile::Oil | Tile::Iron => true,
            Tile::Air => false,
        }
    }
}

/// The low three bytes of the pixel read as a big-endian `u32`: the pixel's
/// bytes at 1, 2 and 3.
pub open spec fn color_key(color: [u8; 4]) -> int {
    color[1] * 65536 + color[2] * 256 + color[3]
}

/// The tile that a pixel of the map image stands for.
pub open spec fn tile_of_color(color: [u8; 4]) -> Tile {
    let k = color_key(color);
    if k == 0xFF_FF_FF {
        Tile::Air
    } else if k == 0xDD_DD_DD {
        Tile::Rock
    } else if k == 0x00_00_FF {
        Tile::Ice
    } else {
        Tile::Error
    }
}

/// Reads the tile that a pixel of the map image stands for.
pub fn tile_from_color(color: [u8; 4]) -> (r: Tile)
    ensures
        r == tile_of_color(color),
{
    let key: u32 = (color[1] as u32) * 65536 + (color[2] as u32) * 256 + color[3] as u32;
    if key == 0xFF_FF_FF {
        Tile::Air
    } else if key == 0xDD_DD_DD {
        Tile::Rock
    } else if key == 0x00_00_FF {
        Tile::Ice
    } else {
        Tile::Error
    }
}

/// An image as the map logic reads it: its size and its pixels, row by row.
pub struct PixelMap {
    pub width: u32,
    pub height: u32,
    pub pixels: Vec<[u8; 4]>,
}

/// The exploration map: `tiles[x][y]` is the tile of column `x`, row `y`.
pub struct MapAsset {
    pub tiles: Vec<Vec<Tile>>,
}

/// The image is a whole map: `MAP_SIZE` pixels on each side, every pixel
/// present.
pub open spec fn is_map_image(img: PixelMap) -> bool {
    img.width == MAP_SIZE && img.height == MAP_SIZE && img.pixels@.len() == MAP_SIZE * MAP_SIZE
}

impl MapAsset {
    /// Reads each pixel of a `MAP_SIZE` by `MAP_SIZE` image as a tile; any
    /// other image is refused.
    pub fn from_image(img: &PixelMap) -> (r: Option<MapAsset>)
        ensures
            r is Some <==> is_map_image(*img),
            r matches Some(m) ==> {
                &&& m.tiles@.len() == MAP_SIZE
                &&& forall|x: int| 0 <= x < MAP_SIZE ==> (#[trigger] m.tiles@[x])@.len() == MAP_SIZE
                &&& forall|x: int, y: int|
                    0 <= x < MAP_SIZE && 0 <= y < MAP_SIZE ==> #[trigger] m.tiles@[x]@[y]
                        == tile_of_color(img.pixels@[y * MAP_SIZE + x])
            },
    {
        if img.width as usize != MAP_SIZE || img.height as usize != MAP_SIZE || img.pixels.len()
            != MAP_SIZE * MAP_SIZE {
            return None;
        }
        let mut tiles: Vec<Vec<Tile>> = Vec::new();
        let mut x: usize = 0;
        while x < MAP_SIZE
            invariant
                is_map_image(*img),
                x <= MAP_SIZE,
                tiles@.len() == x,
                forall|i: int| 0 <= i < x ==> (#[trigger] tiles@[i])@.len() == MAP_SIZE,
                forall|i: int, j: int|
                    0 <= i < x && 0 <= j < MAP_SIZE ==> #[trigger] tiles@[i]@[j] == tile_of_color(
                        img.pixels@[j * MAP_SIZE + i],
                    ),
            decreases MAP_SIZE - x,
        {
            let mut row: Vec<Tile> = Vec::new();
            let mut y: usize = 0;
            while y < MAP_SIZE
                invariant
                    is_map_image(*img),
                    x < MAP_SIZE,
                    y <= MAP_SIZE,
                    row@.len() == y,
                    forall|j: int|
                        0 <= j < y ==> #[trigger] row@[j] == tile_of_color(img.pixels@[j * MAP_SIZE + x]),
                decreases MAP_SIZE - y,
            {
                row.push(tile_from_color(img.pixels[y * MAP_SIZE + x]));
                y = y + 1;
            }
            tiles.push(row);
            x = x + 1;
        }
        Some(MapAsset { tiles })
    }
}

/// Relies on image's `ImageReader::new(..).with_guessed_format()`, `decode`
/// and `DynamicImage::to_rgba8`: a decoded image, as RGBA, has one pixel for
/// each of its width times height positions, which `ImageBuffer::pixels`
/// yields row by row.
#[verifier::external_body]
fn decode_rgba(bytes: &[u8]) -> (r: Option<PixelMap>)
    ensures
        r matches Some(p) ==> p.pixels@.len() == p.width * p.height,
{
    let reader = image::ImageReader::new(std::io::Cursor::new(bytes)).with_guessed_format().ok()?;
    let rgba = reader.decode().ok()?.to_rgba8();
    let (width, height) = rgba.dimensions();
    Some(PixelMap { width, height, pixels: rgba.pixels().map(|p| p.0).collect() })
}

/// Decodes a map image and reads it as tiles. `None` where the bytes hold
/// no image that can be decoded, or an image that is not a whole map.
pub fn decode_map(bytes: &[u8]) -> (r: Option<MapAsset>)
    ensures
        r matches Some(m) ==> {
            &&& m.tiles@.len() == MAP_SIZE
            &&& forall|x: int| 0 <= x < MAP_SIZE ==> (#[trigger] m.tiles@[x])@.len() == MAP_SIZE
        },
{
    match decode_rgba(bytes) {
        Some(img) => MapAsset::from_image(&img),
        None => None,
    }
}

/// The direction of a step from the keys held: `right - left` across and
/// `up - down` along, each in -1..=1.
pub fn movement_axes(up: bool, down: bool, left: bool, right: bool) -> (r: (i8, i8))
    ensures
        r.0 == (right as int) - (left as int),
        r.1 == (up as int) - (down as int),
{
    let x: i8 = (right as i8) - (left as i8);
    let y: i8 = (up as i8) - (down as i8);
    (x, y)
}

} // verus!
