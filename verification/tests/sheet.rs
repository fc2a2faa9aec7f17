use wgpu_learn::math::ceil_sqrt;
use wgpu_learn::sheet::{
    bmp_layout_fits, contact_sheet_bmp, contact_sheet_geometry, contact_sheet_ppm, padded_bytes_per_row,
    ppm_layout_fits, texture_holds_sheet, texture_readback_size,
};

fn texture(image: u32, layers: u32, padded: u32) -> Vec<u8> {
    (0..(padded * image * layers)).map(|i| (i * 7 % 251) as u8).collect()
}

fn reference_bmp(texture_bytes: &[u8], image_size: u32, layers: u32, padded_bytes_per_row: u32) -> Vec<u8> {
    let columns = (f64::from(layers).sqrt().ceil()) as u32;
    let rows = layers.div_ceil(columns);
    let width = columns * image_size;
    let height = rows * image_size;
    let bmp_row_size = (width * 3).div_ceil(4) * 4;
    let pixel_data_size = bmp_row_size * height;
    let file_size = 54 + pixel_data_size;
    let mut bmp = Vec::new();
    bmp.extend_from_slice(b"BM");
    bmp.extend_from_slice(&file_size.to_le_bytes());
    bmp.extend_from_slice(&[0; 4]);
    bmp.extend_from_slice(&54u32.to_le_bytes());
    bmp.extend_from_slice(&40u32.to_le_bytes());
    bmp.extend_from_slice(&(width as i32).to_le_bytes());
    bmp.extend_from_slice(&(-(height as i32)).to_le_bytes());
    bmp.extend_from_slice(&1u16.to_le_bytes());
    bmp.extend_from_slice(&24u16.to_le_bytes());
    bmp.extend_from_slice(&0u32.to_le_bytes());
    bmp.extend_from_slice(&pixel_data_size.to_le_bytes());
    bmp.extend_from_slice(&2835u32.to_le_bytes());
    bmp.extend_from_slice(&2835u32.to_le_bytes());
    bmp.extend_from_slice(&0u32.to_le_bytes());
    bmp.extend_from_slice(&0u32.to_le_bytes());
    let layer_stride = u64::from(padded_bytes_per_row) * u64::from(image_size);
    for atlas_y in 0..height {
        let tile_y = atlas_y / image_size;
        let source_y = atlas_y % image_size;
        for atlas_x in 0..width {
            let tile_x = atlas_x / image_size;
            let source_x = atlas_x % image_size;
            let layer = tile_y * columns + tile_x;
            if layer < layers {
                let offset = (u64::from(layer) * layer_stride
                    + u64::from(source_y) * u64::from(padded_bytes_per_row)
                    + u64::from(source_x) * 4) as usize;
                bmp.extend_from_slice(&[texture_bytes[offset + 2], texture_bytes[offset + 1], texture_bytes[offset]]);
            } else {
                bmp.extend_from_slice(&[0, 0, 0]);
            }
        }
        bmp.resize(bmp.len() + (bmp_row_size - width * 3) as usize, 0);
    }
    bmp
}

fn reference_ppm(texture_bytes: &[u8], image_size: u32, layers: u32, padded_bytes_per_row: u32) -> Vec<u8> {
    let columns = (f64::from(layers).sqrt().ceil()) as u32;
    let rows = layers.div_ceil(columns);
    let width = columns * image_size;
    let height = rows * image_size;
    let header = format!("P6\n{width} {height}\n255\n");
    let mut ppm = Vec::new();
    ppm.extend_from_slice(header.as_bytes());
    let layer_stride = u64::from(padded_bytes_per_row) * u64::from(image_size);
    for atlas_y in 0..height {
        let tile_y = atlas_y / image_size;
        let source_y = atlas_y % image_size;
        for atlas_x in 0..width {
            let tile_x = atlas_x / image_size;
            let source_x = atlas_x % image_size;
            let layer = tile_y * columns + tile_x;
            if layer < layers {
                let offset = (u64::from(layer) * layer_stride
                    + u64::from(source_y) * u64::from(padded_bytes_per_row)
                    + u64::from(source_x) * 4) as usize;
                ppm.extend_from_slice(&texture_bytes[offset..offset + 3]);
            } else {
                ppm.extend_from_slice(&[0, 0, 0]);
            }
        }
    }
    ppm
}

#[test]
fn ceil_sqrt_matches_float_ceiling() {
    for n in 0..2000u32 {
        assert_eq!(ceil_sqrt(n), (f64::from(n).sqrt().ceil()) as u32, "n = {n}");
    }
    assert_eq!(ceil_sqrt(u32::MAX), 65536);
}

#[test]
fn geometry_of_sixteen_layers() {
    let g = contact_sheet_geometry(64, 16, 256);
    assert_eq!((g.columns, g.rows, g.width, g.height), (4, 4, 256, 256));
    let g = contact_sheet_geometry(5, 3, 20);
    assert_eq!((g.columns, g.rows, g.width, g.height), (2, 2, 10, 10));
}

#[test]
fn bmp_matches_reference_layout() {
    for (image, layers, padded) in [(2u32, 3u32, 8u32), (3, 2, 16), (5, 5, 20), (1, 1, 4), (4, 16, 256)] {
        let tex = texture(image, layers, padded);
        let bmp = contact_sheet_bmp(&tex, image, layers, padded);
        assert_eq!(bmp, reference_bmp(&tex, image, layers, padded), "{image} {layers} {padded}");
        let file_size = u32::from_le_bytes(bmp[2..6].try_into().unwrap());
        assert_eq!(file_size as usize, bmp.len());
        let data = u32::from_le_bytes(bmp[34..38].try_into().unwrap());
        assert_eq!(data as usize, bmp.len() - 54);
    }
}

#[test]
fn ppm_matches_reference_layout() {
    for (image, layers, padded) in [(2u32, 3u32, 8u32), (3, 2, 16), (5, 5, 20), (1, 1, 4), (64, 16, 256)] {
        let tex = texture(image, layers, padded);
        let ppm = contact_sheet_ppm(&tex, image, layers, padded);
        assert_eq!(ppm, reference_ppm(&tex, image, layers, padded), "{image} {layers} {padded}");
    }
    let ppm = contact_sheet_ppm(&texture(64, 16, 256), 64, 16, 256);
    assert!(ppm.starts_with(b"P6\n256 256\n255\n"));
    assert_eq!(ppm.len(), 15 + 256 * 256 * 3);
}

#[test]
fn row_padding_and_readback_size() {
    assert_eq!(padded_bytes_per_row(64, 256), 256);
    assert_eq!(padded_bytes_per_row(65, 256), 512);
    assert_eq!(padded_bytes_per_row(32, 256), 256);
    assert_eq!(texture_readback_size(256, 64, 16), 256 * 64 * 16);
    assert_eq!(texture_readback_size(256, 65536, 65536), 256u64 << 32);
    assert_eq!(texture_readback_size(u32::MAX, u32::MAX, 1), u64::from(u32::MAX) * u64::from(u32::MAX));
}

#[test]
fn layout_fit_checks() {
    assert!(bmp_layout_fits(64, 16));
    assert!(ppm_layout_fits(64, 16));
    assert!(!bmp_layout_fits(64, 0));
    assert!(!ppm_layout_fits(64, 0));
    assert!(bmp_layout_fits(37000, 1));
    assert!(!bmp_layout_fits(38000, 1));
    assert!(ppm_layout_fits(37000, 1));
    assert!(!ppm_layout_fits(38000, 1));
    assert!(!bmp_layout_fits(u32::MAX, 2));
    assert!(!ppm_layout_fits(u32::MAX, 2));
    assert!(!bmp_layout_fits(1_500_000_000, 1));
    assert!(!ppm_layout_fits(1_500_000_000, 1));
}

#[test]
fn texture_length_checks() {
    assert!(texture_holds_sheet(2, 3, 8, 47));
    assert!(!texture_holds_sheet(2, 3, 8, 46));
    assert!(texture_holds_sheet(2, 3, 8, texture(2, 3, 8).len()));
    assert!(texture_holds_sheet(64, 16, 256, texture(64, 16, 256).len()));
    assert!(!texture_holds_sheet(64, 16, 256, 256 * 64 * 15));
    assert!(texture_holds_sheet(0, 3, 8, 0));
    assert!(texture_holds_sheet(2, 0, 8, 0));
}
