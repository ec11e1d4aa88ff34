use chunk_gen::{
    add_terrain, generate_chunk, sampling_bounds, BlockConfig, ChunkData, Config, Coord, Level, MapOptions,
    NoiseField, SamplingBounds,
};

fn lv(v: f64) -> Level {
    Level::from_bits(v.to_bits())
}

fn field_from(values: &[&[f64]]) -> NoiseField {
    let height = values[0].len();
    let columns: Vec<Vec<Level>> = values.iter().map(|c| c.iter().map(|v| lv(*v)).collect()).collect();
    NoiseField::from_columns(height, columns).unwrap()
}

fn cells(chunk: &ChunkData) -> Vec<Vec<u32>> {
    (0..chunk.width()).map(|x| (0..chunk.height()).map(|y| chunk.get(x, y)).collect()).collect()
}

#[test]
fn one_overwriting_rule_over_zero_field_paints_interior() {
    let field = NoiseField::filled(4, 4, lv(0.0));
    let config = Config::new(0, vec![BlockConfig::new(5, lv(-1.0), lv(1.0), true)], MapOptions::default());
    let chunk = generate_chunk(&config, &field);
    for x in 0..4 {
        for y in 0..4 {
            let expected = if x < 3 && y < 3 { 5 } else { 0 };
            assert_eq!(chunk.get(x, y), expected, "cell ({}, {})", x, y);
        }
    }
}

#[test]
fn empty_rule_list_fills_with_default_block() {
    let field = field_from(&[&[0.3, -0.7, 0.9], &[0.1, 0.2, -0.4], &[0.0, 0.5, 0.6]]);
    let config = Config::new(7, vec![], MapOptions::default());
    let chunk = generate_chunk(&config, &field);
    assert_eq!(chunk.width(), 3);
    assert_eq!(chunk.height(), 3);
    assert_eq!(cells(&chunk), vec![vec![7; 3]; 3]);
}

#[test]
fn generation_is_deterministic() {
    let field = field_from(&[&[0.3, -0.7, 0.9, 0.2], &[0.1, 0.2, -0.4, 0.0], &[0.0, 0.5, 0.6, -0.1]]);
    let rules = vec![
        BlockConfig::new(1, lv(-1.0), lv(0.0), false),
        BlockConfig::new(2, lv(0.0), lv(0.5), true),
    ];
    let a = generate_chunk(&Config::new(0, rules.clone(), MapOptions::default()), &field);
    let b = generate_chunk(&Config::new(0, rules, MapOptions::default()), &field);
    assert_eq!(cells(&a), cells(&b));
}

#[test]
fn later_overwriting_rule_wins() {
    let field = NoiseField::filled(3, 3, lv(0.25));
    let rules = vec![
        BlockConfig::new(1, lv(0.0), lv(1.0), false),
        BlockConfig::new(2, lv(0.0), lv(1.0), true),
    ];
    let chunk = generate_chunk(&Config::new(0, rules, MapOptions::default()), &field);
    assert_eq!(chunk.get(0, 0), 2);
    assert_eq!(chunk.get(1, 1), 2);
    assert_eq!(chunk.get(2, 1), 0);
}

#[test]
fn later_rule_without_overwrite_is_blocked() {
    let field = NoiseField::filled(3, 3, lv(0.25));
    let rules = vec![
        BlockConfig::new(1, lv(0.0), lv(1.0), false),
        BlockConfig::new(2, lv(0.0), lv(1.0), false),
    ];
    let chunk = generate_chunk(&Config::new(0, rules, MapOptions::default()), &field);
    assert_eq!(cells(&chunk), vec![vec![1, 1, 0], vec![1, 1, 0], vec![0, 0, 0]]);
}

#[test]
fn rule_without_overwrite_leaves_nonzero_fill() {
    let field = NoiseField::filled(3, 3, lv(0.25));
    let rules = vec![BlockConfig::new(4, lv(0.0), lv(1.0), false)];
    let chunk = generate_chunk(&Config::new(9, rules, MapOptions::default()), &field);
    assert_eq!(cells(&chunk), vec![vec![9; 3]; 3]);
}

#[test]
fn end_level_is_excluded_start_level_included() {
    let field = field_from(&[&[0.5, 0.25, 0.0], &[1.0, 0.75, 0.0], &[0.0, 0.0, 0.0]]);
    let rules = vec![BlockConfig::new(3, lv(0.5), lv(1.0), true)];
    let chunk = generate_chunk(&Config::new(0, rules, MapOptions::default()), &field);
    assert_eq!(chunk.get(0, 0), 3);
    assert_eq!(chunk.get(0, 1), 0);
    assert_eq!(chunk.get(1, 0), 0);
    assert_eq!(chunk.get(1, 1), 3);
}

#[test]
fn border_cells_keep_default_block() {
    let field = NoiseField::filled(5, 3, lv(0.0));
    let rules = vec![
        BlockConfig::new(6, lv(-1.0), lv(1.0), true),
        BlockConfig::new(8, lv(f64::NEG_INFINITY), lv(f64::INFINITY), true),
    ];
    let chunk = generate_chunk(&Config::new(2, rules, MapOptions::default()), &field);
    for x in 0..5 {
        for y in 0..3 {
            let expected = if x < 4 && y < 2 { 8 } else { 2 };
            assert_eq!(chunk.get(x, y), expected, "cell ({}, {})", x, y);
        }
    }
}

#[test]
fn inverted_thresholds_paint_nothing() {
    let field = NoiseField::filled(3, 3, lv(0.5));
    let rules = vec![BlockConfig::new(4, lv(1.0), lv(0.0), true)];
    let chunk = generate_chunk(&Config::new(0, rules, MapOptions::default()), &field);
    assert_eq!(cells(&chunk), vec![vec![0; 3]; 3]);
}

#[test]
fn add_terrain_paints_one_rule_in_place() {
    let field = field_from(&[&[-0.5, 0.5, 0.0], &[0.2, -0.2, 0.0], &[0.0, 0.0, 0.0]]);
    let mut chunk = ChunkData::new(3, 3, 0);
    chunk.set(0, 1, 4);
    add_terrain(&BlockConfig::new(1, lv(0.0), lv(1.0), false), &field, &mut chunk);
    assert_eq!(cells(&chunk), vec![vec![0, 4, 0], vec![1, 0, 0], vec![0, 0, 0]]);
}

#[test]
fn sampling_bounds_of_origin_chunk() {
    let b = sampling_bounds(Coord::new(0, 0), 250, 250);
    assert_eq!(b, SamplingBounds { x_lo: 0, x_hi: 249, y_lo: 0, y_hi: 249 });
}

#[test]
fn sampling_bounds_of_offset_chunk() {
    let b = sampling_bounds(Coord::new(2, -3), 4, 5);
    assert_eq!(b, SamplingBounds { x_lo: 8, x_hi: 11, y_lo: -15, y_hi: -11 });
}

#[test]
fn sampling_bounds_at_integer_extremes() {
    let b = sampling_bounds(Coord::new(i64::MAX, i64::MIN), usize::MAX, usize::MAX);
    let n = usize::MAX as i128;
    assert_eq!(b.x_lo, i64::MAX as i128 * n);
    assert_eq!(b.x_hi, (i64::MAX as i128 + 1) * n - 1);
    assert_eq!(b.y_lo, i64::MIN as i128 * n);
    assert_eq!(b.y_hi, (i64::MIN as i128 + 1) * n - 1);
}

#[test]
fn from_columns_rejects_ragged_columns() {
    assert!(NoiseField::from_columns(2, vec![vec![lv(0.0), lv(0.0)], vec![lv(0.0)]]).is_none());
    let f = NoiseField::from_columns(2, vec![vec![lv(0.0), lv(0.5)], vec![lv(1.0), lv(-1.0)]]).unwrap();
    assert_eq!(f.width(), 2);
    assert_eq!(f.height(), 2);
    assert_eq!(f.get(1, 1), lv(-1.0));
    assert_eq!(f.get(0, 1), lv(0.5));
}
