use std::io::Cursor;

use dating_sim::exploration::{
    decode_map, movement_axes, tile_from_color, MapAsset, PixelMap, Tile, MAP_SIZE,
};

fn png_bytes(img: &image::RgbaImage) -> Vec<u8> {
    let mut out = Cursor::new(Vec::new());
    img.write_to(&mut out, image::ImageFormat::Png).unwrap();
    out.into_inner()
}

#[test]
fn colors_map_to_tiles() {
    assert_eq!(tile_from_color([0xFF, 0xFF, 0xFF, 0xFF]), Tile::Air);
    assert_eq!(tile_from_color([0xFF, 0xDD, 0xDD, 0xDD]), Tile::Rock);
    assert_eq!(tile_from_color([0x12, 0x00, 0x00, 0xFF]), Tile::Ice);
    assert_eq!(tile_from_color([0xFF, 0xFF, 0xFF, 0xFE]), Tile::Error);
    assert_eq!(tile_from_color([0, 0, 0, 0]), Tile::Error);
}

#[test]
fn only_air_is_passable() {
    assert!(!Tile::Air.is_solid());
    for t in [Tile::Error, Tile::Rock, Tile::Ice, Tile::Oil, Tile::Iron] {
        assert!(t.is_solid());
    }
}

#[test]
fn map_of_wrong_size_is_refused() {
    let img = PixelMap { width: 2, height: 2, pixels: vec![[0xFF; 4]; 4] };
    assert!(MapAsset::from_image(&img).is_none());
    let short = PixelMap { width: MAP_SIZE as u32, height: MAP_SIZE as u32, pixels: vec![] };
    assert!(MapAsset::from_image(&short).is_none());
}

#[test]
fn map_reads_every_pixel() {
    let mut pixels = vec![[0u8, 0, 0, 0]; MAP_SIZE * MAP_SIZE];
    // column 3, row 7 is air; column 7, row 3 is rock
    pixels[7 * MAP_SIZE + 3] = [0xFF; 4];
    pixels[3 * MAP_SIZE + 7] = [0, 0xDD, 0xDD, 0xDD];
    let img = PixelMap { width: MAP_SIZE as u32, height: MAP_SIZE as u32, pixels };
    let map = MapAsset::from_image(&img).unwrap();
    assert_eq!(map.tiles.len(), MAP_SIZE);
    assert_eq!(map.tiles[3].len(), MAP_SIZE);
    assert_eq!(map.tiles[3][7], Tile::Air);
    assert_eq!(map.tiles[7][3], Tile::Rock);
    assert_eq!(map.tiles[0][0], Tile::Error);
}

#[test]
fn keys_give_direction() {
    assert_eq!(movement_axes(true, false, false, true), (1, 1));
    assert_eq!(movement_axes(false, true, true, false), (-1, -1));
    assert_eq!(movement_axes(true, true, true, true), (0, 0));
    assert_eq!(movement_axes(false, false, false, false), (0, 0));
}

#[test]
fn decoded_png_becomes_tiles() {
    let n = MAP_SIZE as u32;
    let mut img = image::RgbaImage::from_pixel(n, n, image::Rgba([0, 0, 0, 0]));
    img.put_pixel(3, 7, image::Rgba([0xFF, 0xFF, 0xFF, 0xFF]));
    img.put_pixel(7, 3, image::Rgba([0x10, 0xDD, 0xDD, 0xDD]));
    let map = decode_map(&png_bytes(&img)).unwrap();
    assert_eq!(map.tiles.len(), MAP_SIZE);
    assert_eq!(map.tiles[3][7], Tile::Air);
    assert_eq!(map.tiles[7][3], Tile::Rock);
    assert_eq!(map.tiles[5][5], Tile::Error);
}

#[test]
fn small_png_is_no_map() {
    let img = image::RgbaImage::from_pixel(2, 2, image::Rgba([0xFF; 4]));
    assert!(decode_map(&png_bytes(&img)).is_none());
}

#[test]
fn bytes_that_are_no_image_are_refused() {
    assert!(decode_map(&[1, 2, 3, 4, 5]).is_none());
    assert!(decode_map(&[]).is_none());
}
