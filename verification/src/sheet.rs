use vstd::prelude::*;

use crate::math::{ceil_sqrt, div_ceil_u32, is_ceil_sqrt, lemma_ceil_sqrt, spec_ceil_sqrt, spec_div_ceil};

verus! {

/// Where each image of a texture array lands in a square-ish contact sheet.
/// The texture array holds `layers` square images of `image_size` texels,
/// four bytes (RGBA) per texel and `padded_bytes_per_row` bytes per row;
/// the sheet places them row by row in `columns` tiles per tile row.
#[derive(Clone, Copy)]
pub struct SheetGeometry {
    pub image_size: u32,
    pub layers: u32,
    pub padded_bytes_per_row: u32,
    pub columns: u32,
    pub rows: u32,
    pub width: u32,
    pub height: u32,
}

/// Number of tile columns: the ceiling of the square root of `layers`.
pub open spec fn spec_columns(layers: u32) -> int {
    spec_ceil_sqrt(layers as int)
}

/// Number of tile rows needed for `layers` tiles.
pub open spec fn spec_rows(layers: u32) -> int {
    spec_div_ceil(layers as int, spec_columns(layers))
}

/// Width of the sheet in texels.
pub open spec fn spec_sheet_width(image_size: u32, layers: u32) -> int {
    spec_columns(layers) * image_size as int
}

/// Height of the sheet in texels.
pub open spec fn spec_sheet_height(image_size: u32, layers: u32) -> int {
    spec_rows(layers) * image_size as int
}

/// The geometry of the contact sheet of `layers` images of `image_size` texels.
pub open spec fn spec_geometry(image_size: u32, layers: u32, padded_bytes_per_row: u32) -> SheetGeometry {
    SheetGeometry {
        image_size,
        layers,
        padded_bytes_per_row,
        columns: spec_columns(layers) as u32,
        rows: spec_rows(layers) as u32,
        width: spec_sheet_width(image_size, layers) as u32,
        height: spec_sheet_height(image_size, layers) as u32,
    }
}

/// The sheet's width and height fit the `u32` arithmetic that computes them.
pub open spec fn geometry_fits(image_size: u32, layers: u32) -> bool {
    &&& layers > 0
    &&& spec_sheet_width(image_size, layers) <= u32::MAX
    &&& spec_sheet_height(image_size, layers) <= u32::MAX
}

/// Index of the image that the sheet texel `(x, y)` shows, if below `layers`.
pub open spec fn spec_texel_layer(g: SheetGeometry, x: int, y: int) -> int {
    (y / g.image_size as int) * g.columns as int + x / g.image_size as int
}

/// Byte offset in the texture array of the RGBA texel that `(x, y)` shows.
pub open spec fn spec_texel_offset(g: SheetGeometry, x: int, y: int) -> int {
    spec_texel_layer(g, x, y) * (g.padded_bytes_per_row as int * g.image_size as int)
        + (y % g.image_size as int) * g.padded_bytes_per_row as int + (x % g.image_size as int) * 4
}

/// The texture array holds every byte that the sheet reads: the red, green
/// and blue bytes of the last texel of the last image.
pub open spec fn texture_covers(g: SheetGeometry, len: int) -> bool {
    g.image_size == 0 || (g.layers as int - 1) * (g.padded_bytes_per_row as int * g.image_size as int)
        + (g.image_size as int - 1) * g.padded_bytes_per_row as int + (g.image_size as int - 1) * 4 + 2
        < len
}

/// The three colour bytes of sheet texel `(x, y)`: blue, green, red when
/// `bgr`, else red, green, blue; black where the tile has no image.
pub open spec fn spec_pixel_bytes(tex: Seq<u8>, g: SheetGeometry, x: int, y: int, bgr: bool) -> Seq<u8> {
    if spec_texel_layer(g, x, y) < g.layers {
        let o = spec_texel_offset(g, x, y);
        if bgr {
            seq![tex[o + 2], tex[o + 1], tex[o]]
        } else {
            seq![tex[o], tex[o + 1], tex[o + 2]]
        }
    } else {
        seq![0u8, 0u8, 0u8]
    }
}

/// The colour bytes of the first `n` texels of sheet row `y`.
pub open spec fn spec_row_pixels(tex: Seq<u8>, g: SheetGeometry, y: int, n: nat, bgr: bool) -> Seq<u8>
    decreases n,
{
    if n == 0 {
        Seq::empty()
    } else {
        spec_row_pixels(tex, g, y, (n - 1) as nat, bgr) + spec_pixel_bytes(tex, g, n - 1, y, bgr)
    }
}

/// The first `h` rows of the sheet, each followed by `pad` zero bytes.
pub open spec fn spec_sheet_rows(tex: Seq<u8>, g: SheetGeometry, h: nat, bgr: bool, pad: nat) -> Seq<u8>
    decreases h,
{
    if h == 0 {
        Seq::empty()
    } else {
        spec_sheet_rows(tex, g, (h - 1) as nat, bgr, pad) + spec_row_pixels(tex, g, h - 1, g.width as nat, bgr)
            + Seq::new(pad, |i: int| 0u8)
    }
}

/// Computes the geometry of the contact sheet of `layers` images.
pub fn contact_sheet_geometry(image_size: u32, layers: u32, padded_bytes_per_row: u32) -> (g: SheetGeometry)
    requires
        geometry_fits(image_size, layers),
    ensures
        g == spec_geometry(image_size, layers, padded_bytes_per_row),
        g.columns >= 1,
        g.columns as int == spec_columns(layers),
        g.rows as int == spec_rows(layers),
        g.width as int == spec_sheet_width(image_size, layers),
        g.height as int == spec_sheet_height(image_size, layers),
{
    let columns = ceil_sqrt(layers);
    proof {
        lemma_ceil_sqrt(layers as int);
        if columns == 0 {
            assert(columns * columns == 0);
        }
    }
    let rows = div_ceil_u32(layers, columns);
    SheetGeometry {
        image_size,
        layers,
        padded_bytes_per_row,
        columns,
        rows,
        width: columns * image_size,
        height: rows * image_size,
    }
}

/// The texture offset of sheet texel `(x, y)`, or `None` where its tile
/// shows no image.
fn texel_offset(g: &SheetGeometry, tex_len: usize, x: u32, y: u32) -> (r: Option<usize>)
    requires
        g.image_size > 0,
        texture_covers(*g, tex_len as int),
    ensures
        match r {
            Some(o) => {
                &&& spec_texel_layer(*g, x as int, y as int) < g.layers
                &&& o == spec_texel_offset(*g, x as int, y as int)
                &&& o + 2 < tex_len
            },
            None => spec_texel_layer(*g, x as int, y as int) >= g.layers,
        },
{
    let image = g.image_size;
    let tile_y = y / image;
    let source_y = y % image;
    let tile_x = x / image;
    let source_x = x % image;
    proof {
        assert(tile_y as int * g.columns as int <= u32::MAX as int * u32::MAX as int) by (nonlinear_arith)
            requires
                tile_y <= u32::MAX,
                g.columns <= u32::MAX,
        ;
    }
    let layer: u64 = tile_y as u64 * g.columns as u64 + tile_x as u64;
    if layer < g.layers as u64 {
        proof {
            assert(g.padded_bytes_per_row as int * image as int <= u32::MAX as int * u32::MAX as int)
                by (nonlinear_arith)
                requires
                    g.padded_bytes_per_row <= u32::MAX,
                    image <= u32::MAX,
            ;
        }
        let stride: u64 = g.padded_bytes_per_row as u64 * image as u64;
        let ghost max_offset = (g.layers as int - 1) * stride + (image as int - 1) * g.padded_bytes_per_row as int
            + (image as int - 1) * 4;
        proof {
            assert(layer * stride <= (g.layers as int - 1) * stride) by (nonlinear_arith)
                requires
                    layer <= g.layers - 1,
                    stride >= 0,
            ;
            assert(source_y * g.padded_bytes_per_row <= (image as int - 1) * g.padded_bytes_per_row)
                by (nonlinear_arith)
                requires
                    source_y <= image - 1,
                    g.padded_bytes_per_row >= 0,
            ;
            assert(max_offset + 2 < tex_len);
        }
        let offset: u64 = layer * stride + source_y as u64 * g.padded_bytes_per_row as u64 + source_x as u64 * 4;
        Some(offset as usize)
    } else {
        None
    }
}

/// Appends the sheet's rows to `out`: for each row, the three colour bytes
/// of each texel, then `pad` zero bytes.
fn push_sheet_rows(out: &mut Vec<u8>, tex: &[u8], g: &SheetGeometry, bgr: bool, pad: u32)
    requires
        texture_covers(*g, tex@.len() as int),
        g.image_size > 0 || g.width == 0,
    ensures
        final(out)@ == old(out)@ + spec_sheet_rows(tex@, *g, g.height as nat, bgr, pad as nat),
{
    let ghost start = out@;
    let mut y: u32 = 0;
    while y < g.height
        invariant
            y <= g.height,
            texture_covers(*g, tex@.len() as int),
            g.image_size > 0 || g.width == 0,
            out@ == start + spec_sheet_rows(tex@, *g, y as nat, bgr, pad as nat),
        decreases g.height - y,
    {
        let ghost row_start = out@;
        let mut x: u32 = 0;
        while x < g.width
            invariant
                x <= g.width,
                texture_covers(*g, tex@.len() as int),
                g.image_size > 0 || g.width == 0,
                out@ == row_start + spec_row_pixels(tex@, *g, y as int, x as nat, bgr),
            decreases g.width - x,
        {
            let ghost before = out@;
            match texel_offset(g, tex.len(), x, y) {
                Some(o) => {
                    if bgr {
                        out.push(tex[o + 2]);
                        out.push(tex[o + 1]);
                        out.push(tex[o]);
                    } else {
                        out.push(tex[o]);
                        out.push(tex[o + 1]);
                        out.push(tex[o + 2]);
                    }
                },
                None => {
                    out.push(0u8);
                    out.push(0u8);
                    out.push(0u8);
                },
            }
            proof {
                let px = spec_pixel_bytes(tex@, *g, x as int, y as int, bgr);
                assert(out@ =~= before + px);
                assert(spec_row_pixels(tex@, *g, y as int, (x + 1) as nat, bgr)
                    == spec_row_pixels(tex@, *g, y as int, x as nat, bgr) + px);
                assert(out@ =~= row_start + spec_row_pixels(tex@, *g, y as int, (x + 1) as nat, bgr));
            }
            x += 1;
        }
        let ghost pixels_end = out@;
        let mut k: u32 = 0;
        while k < pad
            invariant
                k <= pad,
                out@ == pixels_end + Seq::new(k as nat, |i: int| 0u8),
            decreases pad - k,
        {
            out.push(0u8);
            proof {
                assert(out@ =~= pixels_end + Seq::new((k + 1) as nat, |i: int| 0u8));
            }
            k += 1;
        }
        proof {
            assert(out@ =~= start + spec_sheet_rows(tex@, *g, (y + 1) as nat, bgr, pad as nat));
        }
        y += 1;
    }
}

/// The four little-endian bytes of `x`.
pub open spec fn spec_le_bytes(x: u32) -> Seq<u8> {
    seq![
        (x % 256) as u8,
        ((x / 256) % 256) as u8,
        ((x / 65536) % 256) as u8,
        (x / 16777216) as u8,
    ]
}

/// Appends the little-endian bytes of `x` to `out`.
fn push_u32_le(out: &mut Vec<u8>, x: u32)
    ensures
        final(out)@ == old(out)@ + spec_le_bytes(x),
{
    let ghost before = out@;
    out.push((x % 256) as u8);
    out.push(((x / 256) % 256) as u8);
    out.push(((x / 65536) % 256) as u8);
    out.push((x / 16777216) as u8);
    proof {
        assert(out@ =~= before + spec_le_bytes(x));
    }
}

/// Bytes per BMP pixel row: three bytes per pixel, rounded up to a multiple of four.
pub open spec fn spec_bmp_row_size(width: int) -> int {
    spec_div_ceil(3 * width, 4) * 4
}

/// The 32-bit two's-complement pattern of `-(height as i32)`, which a BMP
/// header stores to mark a top-down image.
pub open spec fn spec_negated(height: u32) -> u32 {
    if height == 0 {
        0
    } else {
        (0x1_0000_0000int - height) as u32
    }
}

/// The 54-byte header of a 24-bit top-down BMP file of `width` x `height`
/// pixels with `pixel_data_size` bytes of pixel rows.
pub open spec fn spec_bmp_header(width: u32, height: u32, pixel_data_size: u32) -> Seq<u8> {
    seq![66u8, 77u8] + spec_le_bytes((54 + pixel_data_size) as u32) + seq![0u8, 0u8, 0u8, 0u8]
        + spec_le_bytes(54) + spec_le_bytes(40) + spec_le_bytes(width) + spec_le_bytes(spec_negated(height))
        + seq![1u8, 0u8] + seq![24u8, 0u8] + spec_le_bytes(0) + spec_le_bytes(pixel_data_size)
        + spec_le_bytes(2835) + spec_le_bytes(2835) + spec_le_bytes(0) + spec_le_bytes(0)
}

/// The `u32` arithmetic of the BMP layout does not overflow.
pub open spec fn bmp_fits(image_size: u32, layers: u32) -> bool {
    let width = spec_sheet_width(image_size, layers);
    let height = spec_sheet_height(image_size, layers);
    &&& geometry_fits(image_size, layers)
    &&& 3 * width <= u32::MAX
    &&& spec_bmp_row_size(width) <= u32::MAX
    &&& 54 + spec_bmp_row_size(width) * height <= u32::MAX
}

/// The BMP file of the contact sheet: header, then each pixel row in
/// blue-green-red order padded with zero bytes to the row size.
pub open spec fn spec_bmp_file(tex: Seq<u8>, image_size: u32, layers: u32, padded_bytes_per_row: u32) -> Seq<u8> {
    let g = spec_geometry(image_size, layers, padded_bytes_per_row);
    let row_size = spec_bmp_row_size(g.width as int);
    spec_bmp_header(g.width, g.height, (row_size * g.height) as u32)
        + spec_sheet_rows(tex, g, g.height as nat, true, (row_size - 3 * g.width) as nat)
}

/// Lays out the `layers` RGBA images of `texture_bytes` (rows of
/// `padded_bytes_per_row` bytes, images of `image_size` rows) as one 24-bit
/// top-down BMP contact sheet and returns the file's bytes.
pub fn contact_sheet_bmp(texture_bytes: &[u8], image_size: u32, layers: u32, padded_bytes_per_row: u32) -> (bmp: Vec<u8>)
    requires
        bmp_fits(image_size, layers),
        texture_covers(spec_geometry(image_size, layers, padded_bytes_per_row), texture_bytes@.len() as int),
    ensures
        bmp@ == spec_bmp_file(texture_bytes@, image_size, layers, padded_bytes_per_row),
{
    let g = contact_sheet_geometry(image_size, layers, padded_bytes_per_row);
    let width3 = g.width * 3;
    let bmp_row_size = div_ceil_u32(width3, 4) * 4;
    proof {
        assert(bmp_row_size as int * g.height as int <= u32::MAX);
    }
    let pixel_data_size = bmp_row_size * g.height;
    let file_size = 54 + pixel_data_size;
    let negated_height: u32 = if g.height == 0 { 0 } else { u32::MAX - g.height + 1 };
    let mut bmp: Vec<u8> = Vec::new();
    bmp.push(66u8);
    bmp.push(77u8);
    push_u32_le(&mut bmp, file_size);
    push_u32_le(&mut bmp, 0);
    push_u32_le(&mut bmp, 54);
    push_u32_le(&mut bmp, 40);
    push_u32_le(&mut bmp, g.width);
    push_u32_le(&mut bmp, negated_height);
    bmp.push(1u8);
    bmp.push(0u8);
    bmp.push(24u8);
    bmp.push(0u8);
    push_u32_le(&mut bmp, 0);
    push_u32_le(&mut bmp, pixel_data_size);
    push_u32_le(&mut bmp, 2835);
    push_u32_le(&mut bmp, 2835);
    push_u32_le(&mut bmp, 0);
    push_u32_le(&mut bmp, 0);
    proof {
        assert(spec_le_bytes(0) =~= seq![0u8, 0u8, 0u8, 0u8]);
        assert(bmp@ =~= spec_bmp_header(g.width, g.height, pixel_data_size));
    }
    push_sheet_rows(&mut bmp, texture_bytes, &g, true, bmp_row_size - width3);
    bmp
}

/// The ASCII decimal digits of `n`, without leading zeros.
pub open spec fn spec_decimal(n: nat) -> Seq<u8>
    decreases n,
{
    if n < 10 {
        seq![(48 + n) as u8]
    } else {
        spec_decimal(n / 10).push((48 + n % 10) as u8)
    }
}

/// Appends the ASCII decimal digits of `n` to `out`.
fn push_decimal(out: &mut Vec<u8>, n: u32)
    ensures
        final(out)@ == old(out)@ + spec_decimal(n as nat),
    decreases n,
{
    let ghost before = out@;
    if n >= 10 {
        push_decimal(out, n / 10);
    }
    out.push(48u8 + (n % 10) as u8);
    proof {
        assert(out@ =~= before + spec_decimal(n as nat));
    }
}

/// The `u32` arithmetic of the PPM layout does not overflow.
pub open spec fn ppm_fits(image_size: u32, layers: u32) -> bool {
    &&& geometry_fits(image_size, layers)
    &&& 3 * spec_sheet_width(image_size, layers) * spec_sheet_height(image_size, layers) <= u32::MAX
}

/// The binary PPM file of the contact sheet: the header
/// `P6\n{width} {height}\n255\n`, then the pixels in red-green-blue order.
pub open spec fn spec_ppm_file(tex: Seq<u8>, image_size: u32, layers: u32, padded_bytes_per_row: u32) -> Seq<u8> {
    let g = spec_geometry(image_size, layers, padded_bytes_per_row);
    seq![80u8, 54u8, 10u8] + spec_decimal(g.width as nat) + seq![32u8] + spec_decimal(g.height as nat)
        + seq![10u8, 50u8, 53u8, 53u8, 10u8] + spec_sheet_rows(tex, g, g.height as nat, false, 0)
}

/// Lays out the `layers` RGBA images of `texture_bytes` as one binary PPM
/// contact sheet and returns the file's bytes.
pub fn contact_sheet_ppm(texture_bytes: &[u8], image_size: u32, layers: u32, padded_bytes_per_row: u32) -> (ppm: Vec<u8>)
    requires
        ppm_fits(image_size, layers),
        texture_covers(spec_geometry(image_size, layers, padded_bytes_per_row), texture_bytes@.len() as int),
    ensures
        ppm@ == spec_ppm_file(texture_bytes@, image_size, layers, padded_bytes_per_row),
{
    let g = contact_sheet_geometry(image_size, layers, padded_bytes_per_row);
    let mut ppm: Vec<u8> = Vec::new();
    ppm.push(80u8);
    ppm.push(54u8);
    ppm.push(10u8);
    push_decimal(&mut ppm, g.width);
    ppm.push(32u8);
    push_decimal(&mut ppm, g.height);
    ppm.push(10u8);
    ppm.push(50u8);
    ppm.push(53u8);
    ppm.push(53u8);
    ppm.push(10u8);
    let ghost header = ppm@;
    proof {
        assert(header =~= seq![80u8, 54u8, 10u8] + spec_decimal(g.width as nat) + seq![32u8]
            + spec_decimal(g.height as nat) + seq![10u8, 50u8, 53u8, 53u8, 10u8]);
    }
    push_sheet_rows(&mut ppm, texture_bytes, &g, false, 0);
    ppm
}

/// Bytes per texture row in a texture-to-buffer copy: four per texel,
/// rounded up to the copy alignment that the GPU API requires.
pub fn padded_bytes_per_row(image_size: u32, alignment: u32) -> (padded: u32)
    requires
        alignment > 0,
        4 * image_size <= u32::MAX,
        spec_div_ceil(4 * image_size as int, alignment as int) * alignment <= u32::MAX,
    ensures
        padded == spec_div_ceil(4 * image_size as int, alignment as int) * alignment,
{
    div_ceil_u32(image_size * 4, alignment) * alignment
}

/// Bytes of the buffer that receives a copy of the whole texture array:
/// one padded row per texel row of every image.
pub fn texture_readback_size(padded_bytes_per_row: u32, image_size: u32, layers: u32) -> (bytes: u64)
    requires
        padded_bytes_per_row as int * image_size as int * layers as int <= u64::MAX,
    ensures
        bytes == padded_bytes_per_row as int * (image_size as int * layers as int),
{
    proof {
        assert(padded_bytes_per_row as int * image_size as int <= u32::MAX as int * u32::MAX as int) by (nonlinear_arith)
            requires
                padded_bytes_per_row <= u32::MAX,
                image_size <= u32::MAX,
        ;
        assert(padded_bytes_per_row as int * (image_size as int * layers as int)
            == padded_bytes_per_row as int * image_size as int * layers as int) by (nonlinear_arith);
    }
    let layer_size = padded_bytes_per_row as u64 * image_size as u64;
    layer_size * layers as u64
}

/// A texture readback of `padded_bytes_per_row * image_size * layers` bytes,
/// with rows padded to at least four bytes per texel, holds every byte that
/// the contact sheet of its images reads.
pub proof fn lemma_readback_covers_sheet(image_size: u32, layers: u32, padded_bytes_per_row: u32)
    requires
        layers > 0,
        padded_bytes_per_row >= 4 * image_size,
    ensures
        texture_covers(
            spec_geometry(image_size, layers, padded_bytes_per_row),
            padded_bytes_per_row as int * (image_size as int * layers as int),
        ),
{
    let p = padded_bytes_per_row as int;
    let i = image_size as int;
    let l = layers as int;
    if i > 0 {
        assert((l - 1) * (p * i) + (i - 1) * p + (i - 1) * 4 + 2 < p * (i * l)) by (nonlinear_arith)
            requires
                l >= 1,
                i >= 1,
                p >= 4 * i,
        ;
    }
}

/// Length of the first `n` texels of a sheet row: three bytes each.
pub proof fn lemma_row_pixels_len(tex: Seq<u8>, g: SheetGeometry, y: int, n: nat, bgr: bool)
    ensures
        spec_row_pixels(tex, g, y, n, bgr).len() == 3 * n,
    decreases n,
{
    if n > 0 {
        lemma_row_pixels_len(tex, g, y, (n - 1) as nat, bgr);
    }
}

/// Length of the first `h` sheet rows: `3 * width + pad` bytes each.
pub proof fn lemma_sheet_rows_len(tex: Seq<u8>, g: SheetGeometry, h: nat, bgr: bool, pad: nat)
    ensures
        spec_sheet_rows(tex, g, h, bgr, pad).len() == h * (3 * g.width + pad),
    decreases h,
{
    if h > 0 {
        lemma_sheet_rows_len(tex, g, (h - 1) as nat, bgr, pad);
        lemma_row_pixels_len(tex, g, h - 1, g.width as nat, bgr);
        let prev = spec_sheet_rows(tex, g, (h - 1) as nat, bgr, pad);
        let row = spec_row_pixels(tex, g, h - 1, g.width as nat, bgr);
        assert(spec_sheet_rows(tex, g, h, bgr, pad) == prev + row + Seq::new(pad, |i: int| 0u8));
        let k = 3 * g.width as int + pad as int;
        assert(prev.len() == (h as int - 1) * k);
        assert(row.len() == 3 * g.width as int);
        assert(h as int * k == (h as int - 1) * k + k) by (nonlinear_arith);
        assert(spec_sheet_rows(tex, g, h, bgr, pad).len() == (h as int - 1) * k + k);
        assert(spec_sheet_rows(tex, g, h, bgr, pad).len() == h * (3 * g.width + pad));
    } else {
        assert(h * (3 * g.width + pad) == 0) by (nonlinear_arith)
            requires
                h == 0,
        ;
    }
}

/// The header's length and the places of its two size fields.
proof fn lemma_bmp_header_fields(width: u32, height: u32, pixel_data_size: u32)
    ensures
        spec_bmp_header(width, height, pixel_data_size).len() == 54,
        spec_bmp_header(width, height, pixel_data_size).subrange(2, 6) == spec_le_bytes((54 + pixel_data_size) as u32),
        spec_bmp_header(width, height, pixel_data_size).subrange(34, 38) == spec_le_bytes(pixel_data_size),
{
    let h = spec_bmp_header(width, height, pixel_data_size);
    assert(h.subrange(2, 6) =~= spec_le_bytes((54 + pixel_data_size) as u32));
    assert(h.subrange(34, 38) =~= spec_le_bytes(pixel_data_size));
}

/// The BMP contact sheet is as long as its header says: the file-size field
/// holds the file's length and the pixel-data-size field the length after
/// the 54-byte header.
pub proof fn lemma_bmp_size_fields(tex: Seq<u8>, image_size: u32, layers: u32, padded_bytes_per_row: u32)
    requires
        bmp_fits(image_size, layers),
    ensures
        ({
            let file = spec_bmp_file(tex, image_size, layers, padded_bytes_per_row);
            let g = spec_geometry(image_size, layers, padded_bytes_per_row);
            let data = spec_bmp_row_size(g.width as int) * g.height;
            &&& file.len() == 54 + data
            &&& file.subrange(2, 6) == spec_le_bytes((54 + data) as u32)
            &&& file.subrange(34, 38) == spec_le_bytes(data as u32)
        }),
{
    let g = spec_geometry(image_size, layers, padded_bytes_per_row);
    lemma_ceil_sqrt(layers as int);
    let cols = spec_columns(layers);
    let rows = spec_rows(layers);
    assert(cols >= 1) by {
        if cols == 0 {
            assert(cols * cols == 0);
        }
    }
    assert(rows >= 0);
    assert(cols * image_size as int >= 0) by (nonlinear_arith)
        requires
            cols >= 0,
    ;
    assert(rows * image_size as int >= 0) by (nonlinear_arith)
        requires
            rows >= 0,
    ;
    let w = g.width as int;
    let row_size = spec_bmp_row_size(w);
    assert(row_size >= 3 * w);
    assert(row_size * g.height as int >= 0) by (nonlinear_arith)
        requires
            row_size >= 0,
    ;
    let data = row_size * g.height;
    lemma_sheet_rows_len(tex, g, g.height as nat, true, (row_size - 3 * w) as nat);
    assert(g.height as int * (3 * w + (row_size - 3 * w)) == data) by (nonlinear_arith)
        requires
            data == row_size * g.height,
    ;
    lemma_bmp_header_fields(g.width, g.height, data as u32);
    let header = spec_bmp_header(g.width, g.height, data as u32);
    let body = spec_sheet_rows(tex, g, g.height as nat, true, (row_size - 3 * w) as nat);
    let file = spec_bmp_file(tex, image_size, layers, padded_bytes_per_row);
    assert(file == header + body);
    assert(file.subrange(2, 6) =~= header.subrange(2, 6));
    assert(file.subrange(34, 38) =~= header.subrange(34, 38));
}

/// The PPM contact sheet's pixels take three bytes per texel of its
/// `width` x `height` texels, after the header.
pub proof fn lemma_ppm_pixel_len(tex: Seq<u8>, image_size: u32, layers: u32, padded_bytes_per_row: u32)
    ensures
        ({
            let g = spec_geometry(image_size, layers, padded_bytes_per_row);
            spec_sheet_rows(tex, g, g.height as nat, false, 0).len() == 3 * g.width * g.height
        }),
{
    let g = spec_geometry(image_size, layers, padded_bytes_per_row);
    lemma_sheet_rows_len(tex, g, g.height as nat, false, 0);
    assert(g.height as nat * (3 * g.width + 0) == 3 * g.width * g.height) by (nonlinear_arith);
}

/// Whether the BMP contact sheet of `layers` images of `image_size` texels
/// can be laid out: its width, height, row size and file size fit `u32`.
pub fn bmp_layout_fits(image_size: u32, layers: u32) -> (ok: bool)
    ensures
        ok == bmp_fits(image_size, layers),
{
    if layers == 0 {
        return false;
    }
    let columns = ceil_sqrt(layers);
    proof {
        assert(columns > 0) by (nonlinear_arith)
            requires
                columns as int * columns as int >= layers as int,
                layers > 0,
        ;
    }
    let rows = div_ceil_u32(layers, columns);
    proof {
        assert(columns as int * image_size as int <= u32::MAX as int * u32::MAX as int) by (nonlinear_arith)
            requires
                columns <= u32::MAX,
                image_size <= u32::MAX,
        ;
        assert(rows as int * image_size as int <= u32::MAX as int * u32::MAX as int) by (nonlinear_arith)
            requires
                rows <= u32::MAX,
                image_size <= u32::MAX,
        ;
    }
    let width = columns as u64 * image_size as u64;
    let height = rows as u64 * image_size as u64;
    if width > u32::MAX as u64 || height > u32::MAX as u64 || 3 * width > u32::MAX as u64 {
        return false;
    }
    let row_size = div_ceil_u32((3 * width) as u32, 4) as u64 * 4;
    if row_size > u32::MAX as u64 {
        return false;
    }
    proof {
        assert(row_size * height <= u32::MAX as int * u32::MAX as int) by (nonlinear_arith)
            requires
                row_size <= u32::MAX,
                height <= u32::MAX,
        ;
    }
    54 + row_size * height <= u32::MAX as u64
}

/// Whether the PPM contact sheet can be laid out: its width, height and
/// pixel count (three bytes each) fit `u32`.
pub fn ppm_layout_fits(image_size: u32, layers: u32) -> (ok: bool)
    ensures
        ok == ppm_fits(image_size, layers),
{
    if layers == 0 {
        return false;
    }
    let columns = ceil_sqrt(layers);
    proof {
        assert(columns > 0) by (nonlinear_arith)
            requires
                columns as int * columns as int >= layers as int,
                layers > 0,
        ;
    }
    let rows = div_ceil_u32(layers, columns);
    proof {
        assert(columns as int * image_size as int <= u32::MAX as int * u32::MAX as int) by (nonlinear_arith)
            requires
                columns <= u32::MAX,
                image_size <= u32::MAX,
        ;
        assert(rows as int * image_size as int <= u32::MAX as int * u32::MAX as int) by (nonlinear_arith)
            requires
                rows <= u32::MAX,
                image_size <= u32::MAX,
        ;
    }
    let width = columns as u64 * image_size as u64;
    let height = rows as u64 * image_size as u64;
    if width > u32::MAX as u64 || height > u32::MAX as u64 {
        return false;
    }
    proof {
        assert(3 * width * height <= 3 * (u32::MAX as int * u32::MAX as int)) by (nonlinear_arith)
            requires
                width <= u32::MAX,
                height <= u32::MAX,
        ;
    }
    3 * width as u128 * height as u128 <= u32::MAX as u128
}

/// The coverage condition split into the stride of one image and the
/// offset of the last colour byte within the last image.
proof fn lemma_texture_covers_parts(g: SheetGeometry, len: int, stride: int, within: int)
    requires
        g.image_size > 0,
        stride == g.padded_bytes_per_row as int * g.image_size as int,
        within == (g.image_size as int - 1) * g.padded_bytes_per_row as int + (g.image_size as int - 1) * 4 + 2,
    ensures
        texture_covers(g, len) == ((g.layers as int - 1) * stride + within < len),
{
}

/// Whether a texture readback of `len` bytes holds every byte that the
/// contact sheet of `layers` images of `image_size` texels reads.
#[verifier::spinoff_prover]
pub fn texture_holds_sheet(image_size: u32, layers: u32, padded_bytes_per_row: u32, len: usize) -> (ok: bool)
    ensures
        ok == texture_covers(spec_geometry(image_size, layers, padded_bytes_per_row), len as int),
{
    let ghost g = spec_geometry(image_size, layers, padded_bytes_per_row);
    proof {
        assert(g.image_size == image_size && g.layers == layers && g.padded_bytes_per_row == padded_bytes_per_row);
    }
    if image_size == 0 {
        return true;
    }
    let p = padded_bytes_per_row as u128;
    let i = image_size as u128;
    proof {
        assert(p * i <= u32::MAX as int * u32::MAX as int) by (nonlinear_arith)
            requires
                p <= u32::MAX,
                i <= u32::MAX,
        ;
        assert((i - 1) * p <= u32::MAX as int * u32::MAX as int) by (nonlinear_arith)
            requires
                p <= u32::MAX,
                1 <= i <= u32::MAX,
        ;
    }
    let stride = p * i;
    let within = (i - 1) * p + (i - 1) * 4 + 2;
    proof {
        lemma_texture_covers_parts(g, len as int, stride as int, within as int);
    }
    if layers == 0 {
        proof {
            assert((g.layers as int - 1) * stride == -(stride as int)) by (nonlinear_arith)
                requires
                    g.layers == 0,
            ;
        }
        within < len as u128 + stride
    } else {
        let before = layers as u128 - 1;
        proof {
            assert(before * stride <= u32::MAX as int * (u32::MAX as int * u32::MAX as int)) by (nonlinear_arith)
                requires
                    0 <= before <= u32::MAX,
                    0 <= stride <= u32::MAX as int * u32::MAX as int,
            ;
            assert(before * stride == (g.layers as int - 1) * stride) by (nonlinear_arith)
                requires
                    before == g.layers as int - 1,
            ;
        }
        before * stride + within < len as u128
    }
}

} // verus!
