use vstd::prelude::*;

use crate::bytes::{spec_word_bytes, words_encoded, words_to_bytes, FLOAT_BYTES};
use crate::math::{div_ceil_u32, lemma_div_ceil_covers, spec_div_ceil};

verus! {

/// Grid width used when no argument gives one.
pub const DEFAULT_WIDTH: u32 = 4096;

/// Grid height used when no argument gives one.
pub const DEFAULT_HEIGHT: u32 = 4096;

/// Number of diffusion steps used when no argument gives one.
pub const DEFAULT_STEPS: u32 = 1000;

/// Side of the square workgroup of the diffusion shader.
pub const WORKGROUP_SIZE: u32 = 16;

/// Bits of the `f32` diffusion coefficient 0.2.
pub const ALPHA_BITS: u32 = 0x3E4C_CCCD;

/// Bits of the `f32` temperature 100.0 of the hot disc.
pub const HOT_BITS: u32 = 0x42C8_0000;

/// The decimal value of the digit characters `d`.
pub open spec fn spec_digits_value(d: Seq<char>) -> int
    decreases d.len(),
{
    if d.len() == 0 {
        0
    } else {
        spec_digits_value(d.drop_last()) * 10 + (d.last() as int - '0' as int)
    }
}

/// Every character of `d` is an ASCII digit.
pub open spec fn all_digits(d: Seq<char>) -> bool {
    forall|i: int| 0 <= i < d.len() ==> '0' <= #[trigger] d[i] <= '9'
}

/// What parsing `s` as a `u32` gives: an optional `+`, then at least one
/// ASCII digit and nothing else, with a value that fits 32 bits.
pub open spec fn spec_parse_u32(s: Seq<char>) -> Option<u32> {
    let d = if s.len() > 0 && s[0] == '+' { s.subrange(1, s.len() as int) } else { s };
    if d.len() > 0 && all_digits(d) && spec_digits_value(d) <= u32::MAX {
        Some(spec_digits_value(d) as u32)
    } else {
        None
    }
}

/// A longer run of digits is worth at least as much as its prefixes.
proof fn lemma_digits_value_prefix(d: Seq<char>, k: int)
    requires
        all_digits(d),
        0 <= k <= d.len(),
    ensures
        spec_digits_value(d) >= spec_digits_value(d.subrange(0, k)) >= 0,
    decreases d.len(),
{
    if k == d.len() {
        assert(d.subrange(0, k) =~= d);
        if d.len() > 0 {
            lemma_digits_value_prefix(d.drop_last(), 0);
        }
    } else {
        let p = d.drop_last();
        assert(all_digits(p)) by {
            assert forall|i: int| 0 <= i < p.len() implies '0' <= #[trigger] p[i] <= '9' by {
                assert(p[i] == d[i]);
            }
        }
        lemma_digits_value_prefix(p, k);
        assert(p.subrange(0, k) =~= d.subrange(0, k));
        assert('0' <= d[d.len() - 1] <= '9');
    }
}

/// Parses `s` as a `u32` as `str::parse` does: an optional `+`, then at
/// least one ASCII digit and nothing else, of a value that fits 32 bits.
fn parse_u32(s: &str) -> (r: Option<u32>)
    ensures
        r == spec_parse_u32(s@),
{
    let n = s.unicode_len();
    let start: usize = if n > 0 && s.get_char(0) == '+' { 1 } else { 0 };
    let ghost d = s@.subrange(start as int, n as int);
    proof {
        if start == 0 {
            assert(d =~= s@);
        }
    }
    if start == n {
        return None;
    }
    let mut acc: u32 = 0;
    let mut i: usize = start;
    while i < n
        invariant
            n == s@.len(),
            start < n,
            start <= i <= n,
            d == s@.subrange(start as int, n as int),
            d == (if s@.len() > 0 && s@[0] == '+' { s@.subrange(1, s@.len() as int) } else { s@ }),
            all_digits(s@.subrange(start as int, i as int)),
            acc == spec_digits_value(s@.subrange(start as int, i as int)),
        decreases n - i,
    {
        let c = s.get_char(i);
        let prefix = Ghost(s@.subrange(start as int, i as int + 1));
        proof {
            assert(prefix@.drop_last() =~= s@.subrange(start as int, i as int));
            assert(prefix@.last() == c);
            assert(d[i - start] == c);
        }
        if c < '0' || c > '9' {
            proof {
                assert(!all_digits(d));
            }
            return None;
        }
        let digit = (c as u32) - ('0' as u32);
        proof {
            assert(all_digits(prefix@));
            assert(spec_digits_value(prefix@) == acc * 10 + digit);
            assert(prefix@ =~= d.subrange(0, i - start + 1));
        }
        if acc > 429_496_729 || (acc == 429_496_729 && digit > 5) {
            proof {
                if all_digits(d) {
                    lemma_digits_value_prefix(d, i - start + 1);
                }
                assert(spec_parse_u32(s@) is None);
            }
            return None;
        }
        acc = acc * 10 + digit;
        i += 1;
    }
    Some(acc)
}

/// Why the heat-diffusion arguments are refused.
#[derive(Debug, PartialEq, Eq)]
pub enum ConfigError {
    /// Argument `name` has the text `value`, which is no `u32`.
    InvalidNumber { name: String, value: String },
    /// More than three arguments were given.
    TooManyArguments,
    /// The width or the height is zero.
    ZeroSize,
    /// The grid has more cells than the shader's `u32` indexing reaches.
    GridTooLarge,
}

/// Reads one optional numeric argument: absent gives `default`.
pub fn parse_arg(value: Option<String>, default: u32, name: &str) -> (r: Result<u32, ConfigError>)
    ensures
        match value {
            None => r == Ok::<u32, ConfigError>(default),
            Some(v) => match spec_parse_u32(v@) {
                Some(n) => r == Ok::<u32, ConfigError>(n),
                None => r matches Err(ConfigError::InvalidNumber { name: n, value: t }) && n@ == name@ && t@ == v@,
            },
        },
{
    match value {
        Some(v) => match parse_u32(v.as_str()) {
            Some(n) => Ok(n),
            None => Err(ConfigError::InvalidNumber { name: name.to_owned(), value: v }),
        },
        None => Ok(default),
    }
}

/// Size and length of the heat-diffusion run.
#[derive(Clone, Copy, Debug)]
pub struct Config {
    pub width: u32,
    pub height: u32,
    pub steps: u32,
}

/// The value an optional argument stands for: `default` when absent.
pub open spec fn spec_arg(args: Seq<String>, i: int, default: u32) -> Option<u32> {
    if i < args.len() { spec_parse_u32(args[i]@) } else { Some(default) }
}

impl Config {
    /// The grid's cell count.
    pub open spec fn spec_cell_count(self) -> int {
        self.width as int * self.height as int
    }

    /// Reads `[width] [height] [steps]` (the program's arguments after its
    /// name); each that is absent takes its default. The numbers are read
    /// in order and the first that is not a `u32` is reported; then a fourth
    /// argument is refused, and so is a zero width or height.
    pub fn from_arg_values(args: &Vec<String>) -> (r: Result<Config, ConfigError>)
        ensures
            r matches Ok(c) ==> {
                &&& spec_arg(args@, 0, DEFAULT_WIDTH) == Some(c.width)
                &&& spec_arg(args@, 1, DEFAULT_HEIGHT) == Some(c.height)
                &&& spec_arg(args@, 2, DEFAULT_STEPS) == Some(c.steps)
                &&& args@.len() <= 3
                &&& c.width > 0 && c.height > 0
            },
            r is Ok <==> {
                &&& spec_arg(args@, 0, DEFAULT_WIDTH) is Some
                &&& spec_arg(args@, 1, DEFAULT_HEIGHT) is Some
                &&& spec_arg(args@, 2, DEFAULT_STEPS) is Some
                &&& args@.len() <= 3
                &&& spec_arg(args@, 0, DEFAULT_WIDTH) != Some(0u32)
                &&& spec_arg(args@, 1, DEFAULT_HEIGHT) != Some(0u32)
            },
            r matches Err(ConfigError::InvalidNumber { name, value }) ==> {
                ||| spec_arg(args@, 0, DEFAULT_WIDTH) is None && name@ == "width"@ && value@ == args@[0]@
                ||| spec_arg(args@, 0, DEFAULT_WIDTH) is Some && spec_arg(args@, 1, DEFAULT_HEIGHT) is None
                    && name@ == "height"@ && value@ == args@[1]@
                ||| spec_arg(args@, 0, DEFAULT_WIDTH) is Some && spec_arg(args@, 1, DEFAULT_HEIGHT) is Some
                    && spec_arg(args@, 2, DEFAULT_STEPS) is None && name@ == "steps"@ && value@ == args@[2]@
            },
            r matches Err(ConfigError::TooManyArguments) ==> {
                &&& spec_arg(args@, 0, DEFAULT_WIDTH) is Some
                &&& spec_arg(args@, 1, DEFAULT_HEIGHT) is Some
                &&& spec_arg(args@, 2, DEFAULT_STEPS) is Some
                &&& args@.len() > 3
            },
            r matches Err(ConfigError::ZeroSize) ==> {
                &&& spec_arg(args@, 0, DEFAULT_WIDTH) is Some
                &&& spec_arg(args@, 1, DEFAULT_HEIGHT) is Some
                &&& spec_arg(args@, 2, DEFAULT_STEPS) is Some
                &&& args@.len() <= 3
                &&& (spec_arg(args@, 0, DEFAULT_WIDTH) == Some(0u32) || spec_arg(args@, 1, DEFAULT_HEIGHT) == Some(0u32))
            },
            !(r matches Err(ConfigError::GridTooLarge)),
    {
        let first = if args.len() > 0 { Some(args[0].clone()) } else { None };
        let width = match parse_arg(first, DEFAULT_WIDTH, "width") {
            Ok(n) => n,
            Err(e) => {
                return Err(e);
            },
        };
        let second = if args.len() > 1 { Some(args[1].clone()) } else { None };
        let height = match parse_arg(second, DEFAULT_HEIGHT, "height") {
            Ok(n) => n,
            Err(e) => {
                return Err(e);
            },
        };
        let third = if args.len() > 2 { Some(args[2].clone()) } else { None };
        let steps = match parse_arg(third, DEFAULT_STEPS, "steps") {
            Ok(n) => n,
            Err(e) => {
                return Err(e);
            },
        };
        if args.len() > 3 {
            return Err(ConfigError::TooManyArguments);
        }
        if width == 0 || height == 0 {
            return Err(ConfigError::ZeroSize);
        }
        Ok(Config { width, height, steps })
    }

    /// Number of grid cells: `width * height`.
    pub fn cell_count(&self) -> (n: u64)
        ensures
            n == self.spec_cell_count(),
    {
        proof {
            assert(self.width as int * self.height as int <= u32::MAX as int * u32::MAX as int)
                by (nonlinear_arith)
                requires
                    self.width <= u32::MAX,
                    self.height <= u32::MAX,
            ;
        }
        self.width as u64 * self.height as u64
    }

    /// Bytes of one grid buffer: four per cell. Refused when the cells
    /// outnumber what the shader's `u32` indices reach.
    pub fn buffer_size(&self) -> (r: Result<u64, ConfigError>)
        ensures
            self.spec_cell_count() > u32::MAX ==> r == Err::<u64, ConfigError>(ConfigError::GridTooLarge),
            self.spec_cell_count() <= u32::MAX ==> r == Ok::<u64, ConfigError>((self.spec_cell_count() * FLOAT_BYTES) as u64),
    {
        let cells = self.cell_count();
        if cells > u32::MAX as u64 {
            return Err(ConfigError::GridTooLarge);
        }
        Ok(cells * FLOAT_BYTES)
    }

    /// Workgroups along x and y: enough 16 x 16 tiles to cover the grid.
    pub fn workgroups(&self) -> (g: (u32, u32))
        ensures
            g.0 == spec_div_ceil(self.width as int, WORKGROUP_SIZE as int),
            g.1 == spec_div_ceil(self.height as int, WORKGROUP_SIZE as int),
    {
        (div_ceil_u32(self.width, WORKGROUP_SIZE), div_ceil_u32(self.height, WORKGROUP_SIZE))
    }

    /// Byte offset of cell `(x, y)` in a row-major grid buffer, as `read_cell`
    /// computes it: `(y * width + x) * 4` in 64 bits, then cast to `usize`.
    pub fn cell_offset(&self, x: u32, y: u32) -> (offset: usize)
        requires
            (y as int * self.width as int + x as int) * FLOAT_BYTES <= u64::MAX,
        ensures
            offset == (((y as int * self.width as int + x as int) * FLOAT_BYTES) as u64) as usize,
    {
        proof {
            assert(y as int * self.width as int >= 0) by (nonlinear_arith);
        }
        ((y as u64 * self.width as u64 + x as u64) * FLOAT_BYTES) as usize
    }

    /// Whether `initial_grid_words` can lay out this grid: its distance
    /// arithmetic fits `u32` and its cells can be counted in `usize`.
    pub fn initial_grid_fits(&self) -> (ok: bool)
        ensures
            ok == grid_fits(*self),
    {
        let cells = self.cell_count();
        if cells > usize::MAX as u64 {
            return false;
        }
        if self.width == 0 || self.height == 0 {
            return true;
        }
        let cx = (self.width / 2) as u64;
        let cy = (self.height / 2) as u64;
        proof {
            assert(cx * cx <= 0x8000_0000u64 * 0x8000_0000u64) by (nonlinear_arith)
                requires
                    cx <= 0x8000_0000u64,
            ;
            assert(cy * cy <= 0x8000_0000u64 * 0x8000_0000u64) by (nonlinear_arith)
                requires
                    cy <= 0x8000_0000u64,
            ;
        }
        cx * cx + cy * cy <= u32::MAX as u64
    }

    /// The uniform parameters of the diffusion shader as 32-bit words:
    /// width, height, the bits of the coefficient 0.2, and a padding zero.
    pub fn params_words(&self) -> (w: Vec<u32>)
        ensures
            w@ == seq![self.width, self.height, ALPHA_BITS, 0u32],
    {
        vec![self.width, self.height, ALPHA_BITS, 0]
    }
}

/// Distance between two coordinates.
pub open spec fn spec_abs_diff(a: int, b: int) -> int {
    if a < b { b - a } else { a - b }
}

/// Cell `(x, y)` starts hot: it lies in the disc around the grid's centre
/// whose radius is a twentieth of the shorter side.
pub open spec fn spec_is_hot(c: Config, x: int, y: int) -> bool {
    let radius = (if c.width < c.height { c.width } else { c.height }) as int / 20;
    let dx = spec_abs_diff(x, c.width as int / 2);
    let dy = spec_abs_diff(y, c.height as int / 2);
    dx * dx + dy * dy <= radius * radius
}

/// The hot disc is centred on `(width / 2, height / 2)` and its radius is
/// a twentieth of the shorter side: a cell starts hot exactly when its
/// squared distance to the centre is at most the radius squared.
pub proof fn lemma_hot_disc(c: Config, x: int, y: int)
    ensures
        spec_is_hot(c, x, y) <==> (x - c.width as int / 2) * (x - c.width as int / 2)
            + (y - c.height as int / 2) * (y - c.height as int / 2)
            <= (vstd::math::min(c.width as int, c.height as int) / 20)
                * (vstd::math::min(c.width as int, c.height as int) / 20),
{
    let dx = x - c.width as int / 2;
    let dy = y - c.height as int / 2;
    let ax = spec_abs_diff(x, c.width as int / 2);
    let ay = spec_abs_diff(y, c.height as int / 2);
    assert(ax * ax == dx * dx) by (nonlinear_arith)
        requires
            ax == dx || ax == -dx,
    ;
    assert(ay * ay == dy * dy) by (nonlinear_arith)
        requires
            ay == dy || ay == -dy,
    ;
    assert((if c.width < c.height { c.width } else { c.height }) as int == vstd::math::min(c.width as int, c.height as int));
}

/// The `u32` distance arithmetic of the initial grid does not overflow: the
/// largest squared distance, from a corner to the centre, fits (an empty
/// grid computes none); and the grid's cells can be counted in `usize`.
pub open spec fn grid_fits(c: Config) -> bool {
    &&& c.width > 0 && c.height > 0 ==> (c.width as int / 2) * (c.width as int / 2)
        + (c.height as int / 2) * (c.height as int / 2) <= u32::MAX
    &&& c.spec_cell_count() <= usize::MAX
}

/// The initial temperature of each cell, row by row, as `f32` bits: 100 in
/// the hot disc, 0 elsewhere.
pub fn initial_grid_words(c: &Config) -> (w: Vec<u32>)
    requires
        grid_fits(*c),
    ensures
        w@.len() == c.spec_cell_count(),
        forall|y: int, x: int| 0 <= y < c.height && 0 <= x < c.width ==>
            #[trigger] w@[y * c.width as int + x] == if spec_is_hot(*c, x, y) { HOT_BITS } else { 0u32 },
        forall|y: int, x: int| 0 <= y < c.height && 0 <= x < c.width ==> {
            let r = vstd::math::min(c.width as int, c.height as int) / 20;
            let dx = x - c.width as int / 2;
            let dy = y - c.height as int / 2;
            &&& (#[trigger] w@[y * c.width as int + x] == HOT_BITS <==> dx * dx + dy * dy <= r * r)
            &&& (w@[y * c.width as int + x] == HOT_BITS || w@[y * c.width as int + x] == 0u32)
        },
{
    let hot_radius = if c.width < c.height { c.width } else { c.height } / 20;
    let center_x = c.width / 2;
    let center_y = c.height / 2;
    let mut w: Vec<u32> = Vec::new();
    let mut y: u32 = 0;
    while y < c.height
        invariant
            grid_fits(*c),
            y <= c.height,
            hot_radius as int == (if c.width < c.height { c.width } else { c.height }) as int / 20,
            center_x == c.width / 2,
            center_y == c.height / 2,
            w@.len() == y as int * c.width as int,
            forall|yy: int, x: int| 0 <= yy < y && 0 <= x < c.width ==>
                #[trigger] w@[yy * c.width as int + x] == if spec_is_hot(*c, x, yy) { HOT_BITS } else { 0u32 },
        decreases c.height - y,
    {
        let mut x: u32 = 0;
        let ghost row_start = w@.len();
        while x < c.width
            invariant
                grid_fits(*c),
                y < c.height,
                x <= c.width,
                hot_radius as int == (if c.width < c.height { c.width } else { c.height }) as int / 20,
                center_x == c.width / 2,
                center_y == c.height / 2,
                row_start == y as int * c.width as int,
                w@.len() == row_start + x,
                forall|yy: int, xx: int| 0 <= yy < y && 0 <= xx < c.width ==>
                    #[trigger] w@[yy * c.width as int + xx] == if spec_is_hot(*c, xx, yy) { HOT_BITS } else { 0u32 },
                forall|xx: int| 0 <= xx < x ==>
                    #[trigger] w@[row_start + xx] == if spec_is_hot(*c, xx, y as int) { HOT_BITS } else { 0u32 },
            decreases c.width - x,
        {
            let dx = if x < center_x { center_x - x } else { x - center_x };
            let dy = if y < center_y { center_y - y } else { y - center_y };
            proof {
                assert(dx <= center_x);
                assert(dy <= center_y);
                assert(dx as int * dx as int + dy as int * dy as int <= center_x as int * center_x as int
                    + center_y as int * center_y as int) by (nonlinear_arith)
                    requires
                        dx <= center_x,
                        dy <= center_y,
                ;
                assert(hot_radius as int * hot_radius as int <= center_x as int * center_x as int) by (nonlinear_arith)
                    requires
                        hot_radius <= center_x,
                ;
            }
            let value = if dx * dx + dy * dy <= hot_radius * hot_radius { HOT_BITS } else { 0u32 };
            let ghost prev = w@;
            w.push(value);
            proof {
                assert forall|yy: int, xx: int| 0 <= yy < y && 0 <= xx < c.width implies
                    #[trigger] w@[yy * c.width as int + xx] == if spec_is_hot(*c, xx, yy) { HOT_BITS } else { 0u32 } by {
                    assert(yy * c.width as int + xx < y as int * c.width as int) by (nonlinear_arith)
                        requires
                            0 <= yy < y,
                            0 <= xx < c.width,
                    ;
                    assert(w@[yy * c.width as int + xx] == prev[yy * c.width as int + xx]);
                }
            }
            x += 1;
        }
        proof {
            assert((y + 1) as int * c.width as int == y as int * c.width as int + c.width as int) by (nonlinear_arith);
            assert forall|yy: int, xx: int| 0 <= yy < y + 1 && 0 <= xx < c.width implies
                #[trigger] w@[yy * c.width as int + xx] == if spec_is_hot(*c, xx, yy) { HOT_BITS } else { 0u32 } by {
                if yy == y {
                    assert(w@[row_start + xx] == if spec_is_hot(*c, xx, y as int) { HOT_BITS } else { 0u32 });
                }
            }
        }
        y += 1;
    }
    proof {
        assert(c.height as int * c.width as int == c.spec_cell_count()) by (nonlinear_arith);
        assert forall|yy: int, xx: int| 0 <= yy < c.height && 0 <= xx < c.width implies {
            let r = vstd::math::min(c.width as int, c.height as int) / 20;
            let dx = xx - c.width as int / 2;
            let dy = yy - c.height as int / 2;
            &&& (#[trigger] w@[yy * c.width as int + xx] == HOT_BITS <==> dx * dx + dy * dy <= r * r)
            &&& (w@[yy * c.width as int + xx] == HOT_BITS || w@[yy * c.width as int + xx] == 0u32)
        } by {
            lemma_hot_disc(*c, xx, yy);
        }
    }
    w
}

/// `bytes` holds each cell's initial `f32` bits, row by row, four bytes
/// each in the byte order `le` (little-endian when true).
pub open spec fn initial_grid_encoded(c: Config, bytes: Seq<u8>, le: bool) -> bool {
    forall|y: int, x: int| 0 <= y < c.height && 0 <= x < c.width ==>
        #[trigger] bytes.subrange(4 * (y * c.width as int + x), 4 * (y * c.width as int + x) + 4)
            == spec_word_bytes(if spec_is_hot(c, x, y) { HOT_BITS } else { 0u32 }, le)
}

/// The bytes of the initial grid buffer: each cell's `f32` bits, row by
/// row, four bytes each in the machine's byte order.
pub fn initial_grid_bytes(c: &Config) -> (b: Vec<u8>)
    requires
        grid_fits(*c),
    ensures
        b@.len() == 4 * c.spec_cell_count(),
        exists|le: bool| initial_grid_encoded(*c, b@, le),
{
    let w = initial_grid_words(c);
    let b = words_to_bytes(&w);
    proof {
        let le = choose|le: bool| words_encoded(b@, w@, le);
        assert forall|y: int, x: int| 0 <= y < c.height && 0 <= x < c.width implies
            #[trigger] b@.subrange(4 * (y * c.width as int + x), 4 * (y * c.width as int + x) + 4)
                == spec_word_bytes(if spec_is_hot(*c, x, y) { HOT_BITS } else { 0u32 }, le) by {
            let i = y * c.width as int + x;
            assert(0 <= i < c.width as int * c.height as int) by (nonlinear_arith)
                requires
                    0 <= y < c.height,
                    0 <= x < c.width,
                    i == y * c.width as int + x,
            ;
            assert(w@[i] == if spec_is_hot(*c, x, y) { HOT_BITS } else { 0u32 });
        }
        assert(initial_grid_encoded(*c, b@, le));
    }
    b
}

/// Which way a diffusion step reads and writes the two grid buffers.
#[derive(Clone, Copy, Debug, PartialEq, Eq)]
pub enum StepDirection {
    CurrentToNext,
    NextToCurrent,
}

/// One of the two grid buffers.
#[derive(Clone, Copy, Debug, PartialEq, Eq)]
pub enum Grid {
    Current,
    Next,
}

/// The direction of step `step`: even steps read `current`, odd steps read `next`.
pub open spec fn spec_step_direction(step: u32) -> StepDirection {
    if step % 2 == 0 { StepDirection::CurrentToNext } else { StepDirection::NextToCurrent }
}

/// The buffer that a step writes.
pub open spec fn spec_written(d: StepDirection) -> Grid {
    match d {
        StepDirection::CurrentToNext => Grid::Next,
        StepDirection::NextToCurrent => Grid::Current,
    }
}

/// The bind group of diffusion step `step`.
pub fn step_direction(step: u32) -> (d: StepDirection)
    ensures
        d == spec_step_direction(step),
{
    if step % 2 == 0 {
        StepDirection::CurrentToNext
    } else {
        StepDirection::NextToCurrent
    }
}

/// The buffer that holds the grid after `steps` steps.
pub open spec fn spec_final_grid(steps: u32) -> Grid {
    if steps % 2 == 0 { Grid::Current } else { Grid::Next }
}

/// The buffer that holds the grid after `steps` steps, which is copied to the readback.
pub fn final_grid(steps: u32) -> (g: Grid)
    ensures
        g == spec_final_grid(steps),
{
    if steps % 2 == 0 {
        Grid::Current
    } else {
        Grid::Next
    }
}

/// The adapter can hold a grid buffer of `needed` bytes, both as a buffer
/// and as a storage binding.
pub fn adapter_fits(max_buffer_size: u64, max_storage_buffer_binding_size: u64, needed: u64) -> (ok: bool)
    ensures
        ok == (max_buffer_size >= needed && max_storage_buffer_binding_size >= needed),
{
    !(max_buffer_size < needed || max_storage_buffer_binding_size < needed)
}

/// The buffer that a step reads.
pub open spec fn spec_read(d: StepDirection) -> Grid {
    match d {
        StepDirection::CurrentToNext => Grid::Current,
        StepDirection::NextToCurrent => Grid::Next,
    }
}

/// The two buffers take turns: every step reads the buffer that the step
/// before it wrote and writes the other one, and after `steps > 0` steps the
/// grid that is read back is the one the last step wrote (after none, the
/// initial grid).
pub proof fn lemma_ping_pong(step: u32, steps: u32)
    requires
        step < u32::MAX,
    ensures
        spec_read(spec_step_direction((step + 1) as u32)) == spec_written(spec_step_direction(step)),
        spec_read(spec_step_direction(step)) != spec_written(spec_step_direction(step)),
        steps > 0 ==> spec_final_grid(steps) == spec_written(spec_step_direction((steps - 1) as u32)),
        steps == 0 ==> spec_final_grid(steps) == Grid::Current,
{
}

/// Each cell's four bytes lie inside the grid buffer, and distinct cells
/// occupy distinct bytes.
pub proof fn lemma_cell_offsets(c: Config, x1: int, y1: int, x2: int, y2: int)
    requires
        0 <= x1 < c.width,
        0 <= y1 < c.height,
        0 <= x2 < c.width,
        0 <= y2 < c.height,
    ensures
        (y1 * c.width + x1) * FLOAT_BYTES + FLOAT_BYTES <= c.spec_cell_count() * FLOAT_BYTES,
        (x1 != x2 || y1 != y2) ==> ({
            let o1 = (y1 * c.width + x1) * FLOAT_BYTES;
            let o2 = (y2 * c.width + x2) * FLOAT_BYTES;
            o1 + FLOAT_BYTES <= o2 || o2 + FLOAT_BYTES <= o1
        }),
{
    let w = c.width as int;
    assert(y1 * w + x1 + 1 <= w * c.height) by (nonlinear_arith)
        requires
            0 <= x1 < w,
            0 <= y1 < c.height,
    ;
    if x1 != x2 || y1 != y2 {
        assert(y1 * w + x1 != y2 * w + x2) by (nonlinear_arith)
            requires
                0 <= x1 < w,
                0 <= x2 < w,
                x1 != x2 || y1 != y2,
        {
            if y1 == y2 {
            } else if y1 < y2 {
                assert(y1 * w + x1 < y2 * w + x2) by (nonlinear_arith)
                    requires
                        0 <= x1 < w,
                        0 <= x2,
                        y1 < y2,
                ;
            } else {
                assert(y2 * w + x2 < y1 * w + x1) by (nonlinear_arith)
                    requires
                        0 <= x2 < w,
                        0 <= x1,
                        y2 < y1,
                ;
            }
        }
    }
}

/// The diffusion dispatch covers the grid: its 16 x 16 workgroups reach
/// every cell, and a row or column fewer would miss some.
pub proof fn lemma_workgroups_cover_grid(c: Config)
    requires
        c.width > 0,
        c.height > 0,
    ensures
        spec_div_ceil(c.width as int, WORKGROUP_SIZE as int) * WORKGROUP_SIZE >= c.width,
        spec_div_ceil(c.height as int, WORKGROUP_SIZE as int) * WORKGROUP_SIZE >= c.height,
        (spec_div_ceil(c.width as int, WORKGROUP_SIZE as int) - 1) * WORKGROUP_SIZE < c.width,
        (spec_div_ceil(c.height as int, WORKGROUP_SIZE as int) - 1) * WORKGROUP_SIZE < c.height,
{
    lemma_div_ceil_covers(c.width as int, WORKGROUP_SIZE as int);
    lemma_div_ceil_covers(c.height as int, WORKGROUP_SIZE as int);
}

} // verus!
