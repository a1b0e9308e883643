use ror2_command::{analyze_bitmap, average_distance2, AnalysisOptions, Win32Bitmap};

/// A bitmap `width` pixels wide and one row high, pixel `i` colored `row[i]`.
fn row_bitmap(row: &[(u8, u8, u8)]) -> Win32Bitmap {
    let mut data = Vec::new();
    for &(r, g, b) in row {
        data.extend_from_slice(&[r, g, b, 0]);
    }
    Win32Bitmap::new(data, row.len(), 1).unwrap()
}

fn options(left: i32, right: i32, span: i32, ppm: u32, max_distance: i32) -> AnalysisOptions {
    AnalysisOptions {
        left,
        right,
        y: 0,
        span,
        permitted_deviation_ppm: ppm,
        max_distance,
    }
}

const RED: (i32, i32, i32) = (212, 83, 54);
const GREEN: (i32, i32, i32) = (118, 237, 34);

#[test]
fn uniform_span_average_equals_distance() {
    let bmp = row_bitmap(&[(200, 80, 50); 6]);
    // 12^2 + 3^2 + 4^2
    assert_eq!(average_distance2(&bmp, &RED, 0, 0, 6), 169);
    assert_eq!(average_distance2(&bmp, &RED, 2, 0, 3), 169);
}

#[test]
fn span_average_truncates() {
    let bmp = row_bitmap(&[(1, 0, 0), (1, 0, 0), (0, 0, 0)]);
    // distances 1, 1, 0 to black: 2 / 3 == 0
    assert_eq!(average_distance2(&bmp, &(0, 0, 0), 0, 0, 3), 0);
    // distances 1, 0: 1 / 2 == 0; distances 1, 1: 1
    assert_eq!(average_distance2(&bmp, &(0, 0, 0), 1, 0, 2), 0);
    assert_eq!(average_distance2(&bmp, &(0, 0, 0), 0, 0, 2), 1);
    let bmp = row_bitmap(&[(3, 0, 0), (0, 0, 0)]);
    // distances 9, 0: 4
    assert_eq!(average_distance2(&bmp, &(0, 0, 0), 0, 0, 2), 4);
}

#[test]
fn exact_color_on_both_spots_is_found() {
    let bmp = row_bitmap(&[(212, 83, 54); 8]);
    let table = [(RED, "Red"), (GREEN, "Green")];
    let opts = options(0, 4, 4, 50_000, 40_000);
    assert!(opts.fits(&bmp));
    assert_eq!(analyze_bitmap(&opts, &table, &bmp), Some("Red"));
}

#[test]
fn nothing_within_max_distance_is_no_match() {
    let bmp = row_bitmap(&[(0, 0, 0); 8]);
    let table = [(RED, "Red"), (GREEN, "Green")];
    // left distances 54749 and 71249, equal on the right
    let opts = options(0, 4, 4, 1_000_000, 40_000);
    assert_eq!(analyze_bitmap(&opts, &table, &bmp), None);
}

#[test]
fn zero_right_distance_rejects_nonzero_left() {
    // left spot slightly off red, right spot exactly red
    let mut row = vec![(210, 83, 54); 4];
    row.extend_from_slice(&[(212, 83, 54); 4]);
    let bmp = row_bitmap(&row);
    let table = [(RED, "Red")];
    let opts = options(0, 4, 4, 1_000_000, 40_000);
    assert_eq!(analyze_bitmap(&opts, &table, &bmp), None);
}

#[test]
fn asymmetric_spots_are_rejected() {
    // left: distance 100 to red; right: distance 400
    let mut row = vec![(202, 83, 54); 2];
    row.extend_from_slice(&[(192, 83, 54); 2]);
    let bmp = row_bitmap(&row);
    let table = [(RED, "Red")];
    // |1 - 100/400| = 0.75
    assert_eq!(analyze_bitmap(&options(0, 2, 2, 740_000, 40_000), &table, &bmp), None);
    assert_eq!(
        analyze_bitmap(&options(0, 2, 2, 750_000, 40_000), &table, &bmp),
        Some("Red")
    );
}

#[test]
fn closest_accepted_entry_wins_and_first_on_tie() {
    let bmp = row_bitmap(&[(100, 100, 100); 4]);
    let table = [
        ((110, 100, 100), "far"),
        ((100, 105, 100), "near"),
        ((100, 100, 95), "also near"),
    ];
    let opts = options(0, 2, 2, 0, 40_000);
    assert_eq!(analyze_bitmap(&opts, &table, &bmp), Some("near"));
}

#[test]
fn empty_table_is_no_match() {
    let bmp = row_bitmap(&[(100, 100, 100); 4]);
    let table: [((i32, i32, i32), &str); 0] = [];
    assert_eq!(analyze_bitmap(&options(0, 2, 2, 0, 40_000), &table, &bmp), None);
}

#[test]
fn options_fit_only_on_the_bitmap() {
    let bmp = row_bitmap(&[(0, 0, 0); 8]);
    assert!(options(0, 4, 4, 0, 0).fits(&bmp));
    assert!(!options(0, 5, 4, 0, 0).fits(&bmp));
    assert!(!options(0, 4, 0, 0, 0).fits(&bmp));
    assert!(!options(-1, 4, 4, 0, 0).fits(&bmp));
}
