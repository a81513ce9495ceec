use tone_generator::noise::get_noise_table;
use tone_generator::saw::get_saw_table;
use tone_generator::sin::get_sin_table;
use tone_generator::square::get_square_table;
use tone_generator::triangle::get_triangle_table;
use tone_generator::wavetable::{initialize_tables, Table, AMPLITUDE, TABLE_SIZE, TABLE_SIZE_MASK};

/// Fixed-point sample as an amplitude in [-1.0, 1.0].
fn amp(v: i64) -> f64 {
    v as f64 / AMPLITUDE as f64
}

fn assert_close(actual: f64, expected: f64, epsilon: f64) {
    assert!(
        (actual - expected).abs() <= epsilon,
        "expected {expected}, got {actual}"
    );
}

fn assert_sized_and_bounded(table: &Table) {
    let t = table.get_table();
    assert_eq!(t.len(), TABLE_SIZE);
    for &v in t.iter() {
        assert!(-AMPLITUDE <= v && v <= AMPLITUDE);
    }
}

#[test]
fn test_sin_table() {
    let half = TABLE_SIZE / 2;

    let table = get_sin_table();
    let t = table.get_table();

    assert_close(amp(t[0]), 0.0, 0.01);
    assert_close(amp(t[half / 2]), 1.0, 0.01);
    assert_close(amp(t[half]), 0.0, 0.01);
    assert_close(amp(t[half + half / 2]), -1.0, 0.01);
    assert_close(amp(t[TABLE_SIZE_MASK]), 0.0, 0.01);
}

#[test]
fn test_triangle_table() {
    let table = get_triangle_table();
    let t = table.get_table();

    let half = TABLE_SIZE / 2;

    assert_close(amp(t[0]), -1.0, 0.01);
    assert_close(amp(t[half / 2]), 0.0, 0.01);
    assert_close(amp(t[half]), 1.0, 0.01);
    assert_close(amp(t[half + half / 2]), 0.0, 0.01);
    assert_close(amp(t[TABLE_SIZE_MASK]), -1.0, 0.01);
}

#[test]
fn test_saw_table() {
    let table = get_saw_table();
    let t = table.get_table();

    let half = TABLE_SIZE / 2;

    assert_close(amp(t[0]), -1.0, 0.01);
    assert_close(amp(t[half - 1]), 1.0, 0.01);
    assert_close(amp(t[half]), -1.0, 0.01);
    assert_close(amp(t[TABLE_SIZE_MASK]), 1.0, 0.01);
}

#[test]
fn test_square_table() {
    let table = get_square_table();
    let t = table.get_table();

    let half = TABLE_SIZE / 2;

    assert_eq!(amp(t[0]), 0.0);
    assert_eq!(amp(t[half - 1]), 0.0);
    assert_eq!(amp(t[half]), 1.0);
    assert_eq!(amp(t[TABLE_SIZE_MASK]), 1.0);
}

#[test]
fn test_all_tables_sized_and_bounded() {
    let store = initialize_tables();
    assert_sized_and_bounded(&store.sine);
    assert_sized_and_bounded(&store.triangle);
    assert_sized_and_bounded(&store.saw);
    assert_sized_and_bounded(&store.square);
    assert_sized_and_bounded(&store.noise);
    assert_sized_and_bounded(&get_noise_table());
}

#[test]
fn test_initialization_deterministic() {
    let a = initialize_tables();
    let b = initialize_tables();
    assert_eq!(a.sine.get_table(), b.sine.get_table());
    assert_eq!(a.triangle.get_table(), b.triangle.get_table());
    assert_eq!(a.saw.get_table(), b.saw.get_table());
    assert_eq!(a.square.get_table(), b.square.get_table());
}

#[test]
fn test_sine_quarter_peak() {
    let table = get_sin_table();
    let t = table.get_table();
    // the positive peak sits at one quarter of the table
    assert_close(amp(t[TABLE_SIZE / 4]), 1.0, 0.002);
    assert_close(amp(t[3 * TABLE_SIZE / 4]), -1.0, 0.002);
}
