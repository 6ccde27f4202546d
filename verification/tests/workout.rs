use ergconv::model::{Interval, ParseError, WorkoutData};
use ergconv::parse::{CellValue, parse_workout};

fn num(v: i64) -> CellValue {
    CellValue::Num(v)
}

fn text(s: &str) -> CellValue {
    CellValue::Text(String::from(s))
}

fn header_rows(ftp_milli: i64, file_name: &str, description: &str) -> Vec<Vec<CellValue>> {
    vec![
        vec![text("FTP"), num(ftp_milli)],
        vec![text("File"), text(file_name)],
        vec![text("Description"), text(description)],
        vec![CellValue::Empty, CellValue::Empty],
    ]
}

#[test]
fn interval_from_steady_half_intensity() {
    // Ten minutes at half of a 200 W threshold power.
    let p1 = WorkoutData { time_milli: 0, intensity_milli: 500 };
    let p2 = WorkoutData { time_milli: 10_000, intensity_milli: 500 };
    let interval = Interval::new(&p1, &p2, 200_000);
    assert_eq!(interval.duration_milli, 10_000); // 10 minutes
    assert_eq!(interval.watt_scaled, 200_000_000); // 100 W * WATT_SCALE
    assert_eq!(interval.intensity_factor_scaled, 1_000); // 0.5 * FACTOR_SCALE
    // (10 / 60) * 0.5^2 * 100 = 4.1666..., exactly 10^10 / TSS_SCALE.
    assert_eq!(interval.tss_scaled, 10_000_000_000);
}

#[test]
fn interval_of_zero_duration_has_zero_stress() {
    let p1 = WorkoutData { time_milli: 3_000, intensity_milli: 800 };
    let p2 = WorkoutData { time_milli: 3_000, intensity_milli: 900 };
    let interval = Interval::new(&p1, &p2, 250_000);
    assert_eq!(interval.duration_milli, 0);
    assert_eq!(interval.tss_scaled, 0);
    assert_eq!(interval.intensity_factor_scaled, 1_700);
}

#[test]
fn parse_pairs_points_into_intervals() {
    let mut rows = header_rows(250_000, "test.erg", "Test");
    rows.push(vec![num(0), num(500)]);
    rows.push(vec![num(5_000), num(500)]);
    rows.push(vec![num(5_000), num(800)]);
    rows.push(vec![num(10_000), num(800)]);
    let (result, skipped) = parse_workout(&rows);
    assert!(skipped.is_empty());
    let workout = result.expect("sheet is well formed");
    assert_eq!(workout.ftp_milli, 250_000);
    assert_eq!(workout.file_name, "test.erg");
    assert_eq!(workout.description, "Test");
    assert_eq!(workout.workout_data.len(), 4);
    assert_eq!(workout.intervals.len(), 2);
    // 5 min at 0.5: 5000 * 1000^2; 5 min at 0.8: 5000 * 1600^2.
    assert_eq!(workout.intervals[0].tss_scaled, 5_000_000_000);
    assert_eq!(workout.intervals[1].tss_scaled, 12_800_000_000);
    assert_eq!(workout.tss_scaled, 17_800_000_000);
}

#[test]
fn parse_without_end_row_reads_to_sheet_end() {
    let mut rows = header_rows(200_000, "a.erg", "A");
    rows.push(vec![num(0), num(1_000)]);
    rows.push(vec![num(60_000), num(1_000)]);
    let (result, skipped) = parse_workout(&rows);
    assert!(skipped.is_empty());
    let workout = result.unwrap();
    assert_eq!(workout.workout_data.len(), 2);
    // One hour at threshold power is exactly 100 TSS.
    assert_eq!(workout.tss_scaled, 60_000 * 2_000 * 2_000);
    assert_eq!(workout.tss_scaled, 100 * 2_400_000_000);
}

#[test]
fn odd_data_length_is_fatal() {
    let mut rows = header_rows(200_000, "odd.erg", "Odd");
    rows.push(vec![num(0), num(500)]);
    rows.push(vec![num(5_000), num(500)]);
    rows.push(vec![num(10_000), num(700)]);
    let (result, skipped) = parse_workout(&rows);
    assert!(skipped.is_empty());
    assert_eq!(result.unwrap_err(), ParseError::OddDataLength { count: 3 });
}

#[test]
fn malformed_row_is_skipped_and_empty_row_still_terminates() {
    let mut rows = header_rows(200_000, "skip.erg", "Skip");
    rows.push(vec![num(0), num(500)]); // row 4
    rows.push(vec![num(2_000), text("oops")]); // row 5: mixed, skipped
    rows.push(vec![num(5_000), num(500)]); // row 6
    rows.push(vec![CellValue::Empty, CellValue::Empty]); // row 7: end of data
    rows.push(vec![num(9_000), num(900)]); // beyond the end row, ignored
    let (result, skipped) = parse_workout(&rows);
    assert_eq!(skipped, vec![5]);
    let workout = result.unwrap();
    assert_eq!(
        workout.workout_data,
        vec![
            WorkoutData { time_milli: 0, intensity_milli: 500 },
            WorkoutData { time_milli: 5_000, intensity_milli: 500 },
        ]
    );
    assert_eq!(workout.intervals.len(), 1);
}

#[test]
fn wrong_arity_and_out_of_range_rows_are_skipped() {
    let mut rows = header_rows(200_000, "r.erg", "R");
    rows.push(vec![num(0), num(500), num(1)]); // row 4: three cells
    rows.push(vec![num(-1), num(500)]); // row 5: negative time
    rows.push(vec![num(0), num(10_001)]); // row 6: intensity out of range
    rows.push(vec![num(0), num(500)]); // row 7
    rows.push(vec![num(1_000), num(500)]); // row 8
    let (result, skipped) = parse_workout(&rows);
    assert_eq!(skipped, vec![4, 5, 6]);
    assert_eq!(result.unwrap().workout_data.len(), 2);
}

#[test]
fn decreasing_time_within_a_pair_is_fatal() {
    let mut rows = header_rows(200_000, "m.erg", "M");
    rows.push(vec![num(0), num(500)]);
    rows.push(vec![num(5_000), num(500)]);
    rows.push(vec![num(4_000), num(500)]);
    rows.push(vec![num(3_000), num(500)]);
    let (result, _) = parse_workout(&rows);
    assert_eq!(result.unwrap_err(), ParseError::NonMonotonicPair { pair_index: 1 });
}

#[test]
fn missing_or_mistyped_header_cells_default() {
    // Threshold power cell holds text, file-name cell holds a number, and
    // the description row is absent entirely.
    let rows = vec![
        vec![text("FTP"), text("not a number")],
        vec![text("File"), num(7)],
    ];
    let (result, skipped) = parse_workout(&rows);
    assert!(skipped.is_empty());
    let workout = result.unwrap();
    assert_eq!(workout.ftp_milli, 0);
    assert_eq!(workout.file_name, "");
    assert_eq!(workout.description, "");
    assert!(workout.workout_data.is_empty());
    assert!(workout.intervals.is_empty());
    assert_eq!(workout.tss_scaled, 0);
}

#[test]
fn empty_grid_parses_to_empty_workout() {
    let rows: Vec<Vec<CellValue>> = Vec::new();
    let (result, skipped) = parse_workout(&rows);
    assert!(skipped.is_empty());
    let workout = result.unwrap();
    assert_eq!(workout.workout_data.len(), 0);
    assert_eq!(workout.tss_scaled, 0);
}

#[test]
fn out_of_range_threshold_power_defaults_to_zero() {
    let mut rows = header_rows(10_000_001, "big.erg", "Big");
    rows.push(vec![num(0), num(500)]);
    rows.push(vec![num(1_000), num(500)]);
    let (result, _) = parse_workout(&rows);
    let workout = result.unwrap();
    assert_eq!(workout.ftp_milli, 0);
    // Intensity factor and training stress do not depend on threshold power.
    assert_eq!(workout.intervals[0].intensity_factor_scaled, 1_000);
    assert_eq!(workout.intervals[0].watt_scaled, 0);
}

#[test]
fn boundary_values_are_accepted() {
    // Exactly the largest representable time and intensity form a valid
    // data row; one unit more is malformed.
    let mut rows = header_rows(10_000_000, "max.erg", "Max");
    rows.push(vec![num(0), num(10_000)]);
    rows.push(vec![num(10_000_000_000), num(10_000)]);
    rows.push(vec![num(10_000_000_001), num(500)]); // row 6: time too large
    let (result, skipped) = parse_workout(&rows);
    assert_eq!(skipped, vec![6]);
    let workout = result.unwrap();
    assert_eq!(workout.workout_data.len(), 2);
    assert_eq!(workout.ftp_milli, 10_000_000);
    // duration * (i1 + i2)^2 at the representable maximum.
    assert_eq!(workout.intervals[0].tss_scaled, 4_000_000_000_000_000_000);
}
