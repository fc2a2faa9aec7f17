use wgpu_learn::heat::{
    adapter_fits, final_grid, initial_grid_bytes, initial_grid_words, parse_arg, step_direction, Config, ConfigError, Grid,
    StepDirection, ALPHA_BITS, HOT_BITS,
};

fn args(list: &[&str]) -> Vec<String> {
    list.iter().map(|s| s.to_string()).collect()
}

#[test]
fn parse_arg_defaults_and_parses() {
    assert_eq!(parse_arg(None, 7, "width"), Ok(7));
    assert_eq!(parse_arg(Some("42".to_string()), 7, "width"), Ok(42));
    assert_eq!(parse_arg(Some("+42".to_string()), 7, "width"), Ok(42));
    assert_eq!(parse_arg(Some("4294967295".to_string()), 7, "width"), Ok(u32::MAX));
}

#[test]
fn parse_arg_rejects_non_numbers() {
    for bad in ["", "+", "-1", " 1", "1x", "4294967296", "ten"] {
        assert_eq!(
            parse_arg(Some(bad.to_string()), 7, "steps"),
            Err(ConfigError::InvalidNumber { name: "steps".to_string(), value: bad.to_string() })
        );
    }
}

#[test]
fn config_from_args() {
    let c = Config::from_arg_values(&args(&[])).unwrap();
    assert_eq!((c.width, c.height, c.steps), (4096, 4096, 1000));
    let c = Config::from_arg_values(&args(&["8", "6", "3"])).unwrap();
    assert_eq!((c.width, c.height, c.steps), (8, 6, 3));
    let c = Config::from_arg_values(&args(&["8"])).unwrap();
    assert_eq!((c.width, c.height, c.steps), (8, 4096, 1000));
}

#[test]
fn config_errors() {
    assert_eq!(Config::from_arg_values(&args(&["8", "6", "3", "1"])).unwrap_err(), ConfigError::TooManyArguments);
    assert_eq!(Config::from_arg_values(&args(&["0", "6"])).unwrap_err(), ConfigError::ZeroSize);
    assert_eq!(Config::from_arg_values(&args(&["8", "0"])).unwrap_err(), ConfigError::ZeroSize);
    assert_eq!(
        Config::from_arg_values(&args(&["8", "x", "y", "z"])).unwrap_err(),
        ConfigError::InvalidNumber { name: "height".to_string(), value: "x".to_string() }
    );
}

#[test]
fn buffer_size_and_cells() {
    let c = Config { width: 4096, height: 4096, steps: 1 };
    assert_eq!(c.cell_count(), 4096 * 4096);
    assert_eq!(c.buffer_size(), Ok(4096 * 4096 * 4));
    let big = Config { width: 65536, height: 65536, steps: 1 };
    assert_eq!(big.buffer_size(), Err(ConfigError::GridTooLarge));
    let edge = Config { width: 65535, height: 65537, steps: 1 };
    assert_eq!(edge.buffer_size(), Ok(65535u64 * 65537 * 4));
}

#[test]
fn workgroups_and_offsets() {
    let c = Config { width: 4096, height: 100, steps: 1 };
    assert_eq!(c.workgroups(), (256, 7));
    assert_eq!(c.cell_offset(0, 0), 0);
    assert_eq!(c.cell_offset(3, 2), (2 * 4096 + 3) * 4);
    assert_eq!(c.params_words(), vec![4096, 100, ALPHA_BITS, 0]);
    assert_eq!(f32::from_bits(ALPHA_BITS), 0.20f32);
}

#[test]
fn initial_grid_has_a_hot_disc() {
    let c = Config { width: 40, height: 60, steps: 1 };
    let w = initial_grid_words(&c);
    assert_eq!(w.len(), 2400);
    assert_eq!(f32::from_bits(HOT_BITS), 100.0f32);
    let radius = 40 / 20;
    for y in 0..60u32 {
        for x in 0..40u32 {
            let dx = x.abs_diff(20);
            let dy = y.abs_diff(30);
            let hot = dx * dx + dy * dy <= radius * radius;
            assert_eq!(w[(y * 40 + x) as usize], if hot { HOT_BITS } else { 0 });
        }
    }
    assert_eq!(w.iter().filter(|&&v| v == HOT_BITS).count(), 13);
}

#[test]
fn buffers_take_turns() {
    assert_eq!(step_direction(0), StepDirection::CurrentToNext);
    assert_eq!(step_direction(1), StepDirection::NextToCurrent);
    assert_eq!(step_direction(2), StepDirection::CurrentToNext);
    assert_eq!(final_grid(0), Grid::Current);
    assert_eq!(final_grid(1), Grid::Next);
    assert_eq!(final_grid(1000), Grid::Current);
}

#[test]
fn adapter_limits() {
    assert!(adapter_fits(100, 100, 100));
    assert!(!adapter_fits(99, 100, 100));
    assert!(!adapter_fits(100, 99, 100));
}

#[test]
fn workgroups_cover_the_grid() {
    for (w, h) in [(1u32, 1u32), (16, 16), (17, 33), (4096, 4096)] {
        let c = Config { width: w, height: h, steps: 0 };
        let (gx, gy) = c.workgroups();
        assert!(gx * 16 >= w && (gx - 1) * 16 < w);
        assert!(gy * 16 >= h && (gy - 1) * 16 < h);
    }
}

#[test]
fn initial_grid_fit_check() {
    assert!(Config { width: 4096, height: 4096, steps: 0 }.initial_grid_fits());
    assert!(!Config { width: 200_000, height: 10, steps: 0 }.initial_grid_fits());
}

#[test]
fn initial_grid_bytes_hold_each_cell() {
    let c = Config { width: 40, height: 60, steps: 1 };
    let expected: Vec<u8> = initial_grid_words(&c).iter().flat_map(|w| w.to_ne_bytes()).collect();
    let b = initial_grid_bytes(&c);
    assert_eq!(b.len(), 9600);
    assert_eq!(b, expected);
    assert_eq!(&b[(30 * 40 + 20) * 4..(30 * 40 + 20) * 4 + 4], &HOT_BITS.to_ne_bytes());
    assert_eq!(&b[0..4], &[0u8; 4]);
}

#[test]
fn parse_arg_agrees_with_str_parse() {
    for text in [
        "0", "007", "+0", "-0", "++1", "+-1", "429496729", "4294967290", "4294967299", "42949672950", "99999999999",
        "1 ", "\u{663}", "12\u{e9}", "0000000000004294967295", "1_000",
    ] {
        let expected = text.parse::<u32>().map_err(|_| ConfigError::InvalidNumber {
            name: "width".to_string(),
            value: text.to_string(),
        });
        assert_eq!(parse_arg(Some(text.to_string()), 7, "width"), expected, "{text:?}");
    }
}
