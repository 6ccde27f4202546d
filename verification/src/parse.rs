//! Workout parser: classifies the rows of one worksheet, extracts the
//! header fields, scans the data points, and pairs them into intervals.

use vstd::prelude::*;

use crate::model::{
    Interval, MAX_FTP_MILLI, MAX_INTENSITY_MILLI, MAX_TIME_MILLI, MAX_TSS_SCALED, ParseError,
    Workout, WorkoutData, interval_spec, sum_tss,
};

verus! {

/// First worksheet row that may hold a data pair; the rows above it are the
/// header block.
pub const DATA_START_ROW: usize = 4;

/// Worksheet row of the threshold-power header cell.
pub const FTP_ROW: usize = 0;

/// Worksheet row of the file-name header cell.
pub const FILE_NAME_ROW: usize = 1;

/// Worksheet row of the description header cell.
pub const DESCRIPTION_ROW: usize = 2;

/// Worksheet column of the three header cells.
pub const HEADER_COL: usize = 1;

/// The value of one worksheet cell, as the parser sees it. Numeric cells
/// carry their value in thousandths, so that every later computation is
/// exact; a cell of any other shape (boolean, error marker, ...) is
/// `Other`.
#[derive(Clone, Debug, PartialEq)]
pub enum CellValue {
    /// A numeric cell, in thousandths of its unit.
    Num(i64),
    /// A text cell.
    Text(String),
    /// An empty cell.
    Empty,
    /// Any other cell content.
    Other,
}

/// Whether `c` is a numeric cell whose value lies in `[0, max]`.
pub open spec fn is_num_in(c: CellValue, max: u64) -> bool {
    c matches CellValue::Num(v) && 0 <= v <= max
}

/// The value of a numeric cell (zero on any other cell).
pub open spec fn num_val(c: CellValue) -> i64 {
    match c {
        CellValue::Num(v) => v,
        _ => 0,
    }
}

/// The text of a text cell (empty on any other cell).
pub open spec fn text_val(c: CellValue) -> Seq<char> {
    match c {
        CellValue::Text(s) => s@,
        _ => Seq::empty(),
    }
}

/// A well-formed data row: exactly two numeric cells, the time and the
/// intensity each within its representable range.
pub open spec fn is_data_row(r: Seq<CellValue>) -> bool {
    &&& r.len() == 2
    &&& is_num_in(r[0], MAX_TIME_MILLI)
    &&& is_num_in(r[1], MAX_INTENSITY_MILLI)
}

/// A terminating row: exactly two empty cells.
pub open spec fn is_end_row(r: Seq<CellValue>) -> bool {
    r.len() == 2 && r[0] is Empty && r[1] is Empty
}

/// The data point held by a data row.
pub open spec fn row_point(r: Seq<CellValue>) -> WorkoutData {
    WorkoutData {
        time_milli: num_val(r[0]) as u64,
        intensity_milli: num_val(r[1]) as u64,
    }
}

/// The worksheet grid as a sequence of cell-value rows.
pub open spec fn grid_view(rows: Seq<Vec<CellValue>>) -> Seq<Seq<CellValue>> {
    rows.map_values(|r: Vec<CellValue>| r@)
}

/// The data points scanned from grid `g` starting at row `i`: each data row
/// contributes one point, an end row stops the scan, and any other row is
/// skipped.
pub open spec fn scan_points(g: Seq<Seq<CellValue>>, i: int) -> Seq<WorkoutData>
    decreases g.len() - i,
{
    if i >= g.len() {
        Seq::empty()
    } else if is_end_row(g[i]) {
        Seq::empty()
    } else if is_data_row(g[i]) {
        seq![row_point(g[i])] + scan_points(g, i + 1)
    } else {
        scan_points(g, i + 1)
    }
}

/// The indices of the malformed rows that the scan starting at row `i`
/// skips, in increasing order.
pub open spec fn scan_skipped(g: Seq<Seq<CellValue>>, i: int) -> Seq<int>
    decreases g.len() - i,
{
    if i >= g.len() {
        Seq::empty()
    } else if is_end_row(g[i]) {
        Seq::empty()
    } else if is_data_row(g[i]) {
        scan_skipped(g, i + 1)
    } else {
        seq![i] + scan_skipped(g, i + 1)
    }
}

/// The threshold power of grid `g`, in thousandths of a watt: the numeric
/// header cell if it is present and in range, zero otherwise.
pub open spec fn header_ftp(g: Seq<Seq<CellValue>>) -> u64 {
    if g.len() > FTP_ROW && g[FTP_ROW as int].len() > HEADER_COL && is_num_in(
        g[FTP_ROW as int][HEADER_COL as int],
        MAX_FTP_MILLI,
    ) {
        num_val(g[FTP_ROW as int][HEADER_COL as int]) as u64
    } else {
        0
    }
}

/// The text header cell of grid `g` at row `row`, or the empty string when
/// that cell is missing or not text.
pub open spec fn header_text(g: Seq<Seq<CellValue>>, row: int) -> Seq<char> {
    if g.len() > row && g[row].len() > HEADER_COL {
        text_val(g[row][HEADER_COL as int])
    } else {
        Seq::empty()
    }
}

/// Every point a scan yields comes from a data row, so it is valid.
pub proof fn lemma_scan_points_valid(g: Seq<Seq<CellValue>>, i: int)
    ensures
        forall|j: int|
            0 <= j < scan_points(g, i).len() ==> (#[trigger] scan_points(g, i)[j]).valid(),
    decreases g.len() - i,
{
    if i >= g.len() || is_end_row(g[i]) {
    } else if is_data_row(g[i]) {
        lemma_scan_points_valid(g, i + 1);
        assert(row_point(g[i]).valid());
        assert forall|j: int| 0 <= j < scan_points(g, i).len() implies (#[trigger] scan_points(
            g,
            i,
        )[j]).valid() by {
            if j > 0 {
                assert(scan_points(g, i)[j] == scan_points(g, i + 1)[j - 1]);
            }
        }
    } else {
        lemma_scan_points_valid(g, i + 1);
        assert forall|j: int| 0 <= j < scan_points(g, i).len() implies (#[trigger] scan_points(
            g,
            i,
        )[j]).valid() by {
            assert(scan_points(g, i)[j] == scan_points(g, i + 1)[j]);
        }
    }
}

/// The pair of points at indices `2k` and `2k + 1` has non-decreasing time.
pub open spec fn pair_monotonic(pts: Seq<WorkoutData>, k: int) -> bool {
    pts[2 * k].time_milli <= pts[2 * k + 1].time_milli
}

/// Every consecutive pair of the sequence has non-decreasing time.
pub open spec fn pairs_monotonic(pts: Seq<WorkoutData>) -> bool {
    forall|k: int| 0 <= k < pts.len() / 2 ==> #[trigger] pair_monotonic(pts, k)
}

/// `w` is exactly the workout that grid `g` describes: the header fields,
/// the scanned data points, one interval per consecutive pair of points,
/// and the total training stress as the exact sum over the intervals.
pub open spec fn parsed_workout(w: Workout, g: Seq<Seq<CellValue>>) -> bool {
    let pts = scan_points(g, DATA_START_ROW as int);
    &&& w.ftp_milli == header_ftp(g)
    &&& w.file_name@ == header_text(g, FILE_NAME_ROW as int)
    &&& w.description@ == header_text(g, DESCRIPTION_ROW as int)
    &&& w.workout_data@ == pts
    &&& w.intervals@.len() == pts.len() / 2
    &&& forall|k: int|
        0 <= k < pts.len() / 2 ==> #[trigger] w.intervals@[k] == interval_spec(
            pts[2 * k],
            pts[2 * k + 1],
            header_ftp(g),
        )
    &&& w.tss_scaled == sum_tss(w.intervals@)
    &&& w.wf()
}

/// The grid alone determines the parsed workout: any two workouts that
/// parse from the same grid agree on every field, so re-running the
/// conversion on unchanged input reproduces the same workout exactly.
pub proof fn lemma_parse_unique(w1: Workout, w2: Workout, g: Seq<Seq<CellValue>>)
    requires
        parsed_workout(w1, g),
        parsed_workout(w2, g),
    ensures
        w1.ftp_milli == w2.ftp_milli,
        w1.file_name@ == w2.file_name@,
        w1.description@ == w2.description@,
        w1.workout_data@ == w2.workout_data@,
        w1.intervals@ == w2.intervals@,
        w1.tss_scaled == w2.tss_scaled,
{
    assert(w1.intervals@ =~= w2.intervals@);
}

/// Parses one worksheet, given its full cell grid. Returns the parsed
/// workout, or the fatal condition that the sheet's data violates, together
/// with the indices of the malformed rows that were skipped.
pub fn parse_workout(rows: &Vec<Vec<CellValue>>) -> (r: (
    Result<Workout, ParseError>,
    Vec<usize>,
))
    ensures
        ({
            let g = grid_view(rows@);
            let pts = scan_points(g, DATA_START_ROW as int);
            &&& r.1@.map_values(|u: usize| u as int) == scan_skipped(g, DATA_START_ROW as int)
            &&& r.0 is Ok <==> pts.len() % 2 == 0 && pairs_monotonic(pts)
            &&& r.0 matches Ok(w) ==> parsed_workout(w, g)
            &&& pts.len() % 2 != 0 ==> (r.0 matches Err(e) && e matches
                ParseError::OddDataLength { count } && count == pts.len())
            &&& pts.len() % 2 == 0 && !pairs_monotonic(pts) ==> (r.0 matches Err(e)
                && e matches ParseError::NonMonotonicPair { pair_index }
                && 0 <= pair_index < pts.len() / 2
                && !pair_monotonic(pts, pair_index as int)
                && (forall|j: int| 0 <= j < pair_index ==> #[trigger] pair_monotonic(pts, j)))
        }),
{
    let ghost g = grid_view(rows@);

    // Header extraction: absent or wrongly typed header cells default to
    // zero / the empty string.
    let mut ftp_milli: u64 = 0;
    if rows.len() > FTP_ROW && rows[FTP_ROW].len() > HEADER_COL {
        match &rows[FTP_ROW][HEADER_COL] {
            CellValue::Num(v) => {
                if *v >= 0 && *v <= MAX_FTP_MILLI as i64 {
                    ftp_milli = *v as u64;
                }
            },
            _ => {},
        }
    }
    assert(ftp_milli == header_ftp(g));

    let mut file_name = String::new();
    if rows.len() > FILE_NAME_ROW && rows[FILE_NAME_ROW].len() > HEADER_COL {
        match &rows[FILE_NAME_ROW][HEADER_COL] {
            CellValue::Text(s) => {
                file_name = s.clone();
            },
            _ => {},
        }
    }
    assert(file_name@ == header_text(g, FILE_NAME_ROW as int));

    let mut description = String::new();
    if rows.len() > DESCRIPTION_ROW && rows[DESCRIPTION_ROW].len() > HEADER_COL {
        match &rows[DESCRIPTION_ROW][HEADER_COL] {
            CellValue::Text(s) => {
                description = s.clone();
            },
            _ => {},
        }
    }
    assert(description@ == header_text(g, DESCRIPTION_ROW as int));

    // Data scan: collect data points until an end row or the end of the
    // sheet, recording the indices of skipped malformed rows.
    let mut workout_data: Vec<WorkoutData> = Vec::new();
    let mut skipped: Vec<usize> = Vec::new();
    let mut i: usize = DATA_START_ROW;
    let mut ended = false;
    while i < rows.len() && !ended
        invariant
            g == grid_view(rows@),
            DATA_START_ROW <= i,
            i <= rows@.len() || i == DATA_START_ROW,
            !ended ==> scan_points(g, DATA_START_ROW as int) == workout_data@ + scan_points(
                g,
                i as int,
            ),
            !ended ==> scan_skipped(g, DATA_START_ROW as int) == skipped@.map_values(
                |u: usize| u as int,
            ) + scan_skipped(g, i as int),
            ended ==> scan_points(g, DATA_START_ROW as int) == workout_data@,
            ended ==> scan_skipped(g, DATA_START_ROW as int) == skipped@.map_values(
                |u: usize| u as int,
            ),
        decreases rows@.len() - i, (if ended { 0int } else { 1int }),
    {
        assert(g[i as int] == rows@[i as int]@);
        let row = &rows[i];
        let mut handled = false;
        if row.len() == 2 {
            match (&row[0], &row[1]) {
                (CellValue::Num(t), CellValue::Num(n)) => {
                    if *t >= 0 && *t <= MAX_TIME_MILLI as i64 && *n >= 0 && *n
                        <= MAX_INTENSITY_MILLI as i64 {
                        let p = WorkoutData {
                            time_milli: *t as u64,
                            intensity_milli: *n as u64,
                        };
                        assert(is_data_row(g[i as int]) && p == row_point(g[i as int]));
                        workout_data.push(p);
                        proof {
                            assert(workout_data@ + scan_points(g, i as int + 1)
                                =~= workout_data@.drop_last() + (seq![p] + scan_points(
                                g,
                                i as int + 1,
                            )));
                        }
                        handled = true;
                    }
                },
                (CellValue::Empty, CellValue::Empty) => {
                    assert(is_end_row(g[i as int]));
                    ended = true;
                    handled = true;
                },
                _ => {},
            }
        }
        if !handled && !ended {
            assert(!is_data_row(g[i as int]) && !is_end_row(g[i as int]));
            skipped.push(i);
            proof {
                assert(skipped@.map_values(|u: usize| u as int) + scan_skipped(g, i as int + 1)
                    =~= skipped@.drop_last().map_values(|u: usize| u as int) + (seq![i as int]
                    + scan_skipped(g, i as int + 1)));
            }
        }
        if !ended {
            i += 1;
        }
    }
    proof {
        if !ended {
            assert(scan_points(g, i as int) =~= Seq::<WorkoutData>::empty());
            assert(scan_points(g, DATA_START_ROW as int) =~= workout_data@);
            assert(scan_skipped(g, DATA_START_ROW as int) =~= skipped@.map_values(
                |u: usize| u as int,
            ));
        }
    }
    let ghost pts = scan_points(g, DATA_START_ROW as int);
    assert(workout_data@ == pts);
    proof {
        lemma_scan_points_valid(g, DATA_START_ROW as int);
    }

    // Pairing: an odd number of points cannot be paired and is fatal for
    // the sheet.
    let n = workout_data.len();
    if n % 2 != 0 {
        return (Result::Err(ParseError::OddDataLength { count: n }), skipped);
    }

    let mut intervals: Vec<Interval> = Vec::new();
    let mut total: u128 = 0;
    let mut k: usize = 0;
    while k < n / 2
        invariant
            g == grid_view(rows@),
            pts == scan_points(g, DATA_START_ROW as int),
            skipped@.map_values(|u: usize| u as int) == scan_skipped(g, DATA_START_ROW as int),
            ftp_milli == header_ftp(g),
            file_name@ == header_text(g, FILE_NAME_ROW as int),
            description@ == header_text(g, DESCRIPTION_ROW as int),
            pts == workout_data@,
            n == pts.len(),
            n % 2 == 0,
            ftp_milli <= MAX_FTP_MILLI,
            forall|j: int| 0 <= j < pts.len() ==> (#[trigger] pts[j]).valid(),
            k <= n / 2,
            intervals@.len() == k,
            forall|j: int|
                0 <= j < k ==> #[trigger] intervals@[j] == interval_spec(
                    pts[2 * j],
                    pts[2 * j + 1],
                    ftp_milli,
                ),
            forall|j: int| 0 <= j < k ==> #[trigger] pair_monotonic(pts, j),
            total == sum_tss(intervals@),
            total <= (k as int) * (MAX_TSS_SCALED as int),
        decreases n / 2 - k,
    {
        let p1 = workout_data[2 * k];
        let p2 = workout_data[2 * k + 1];
        if p1.time_milli > p2.time_milli {
            assert(!pair_monotonic(pts, k as int));
            return (Result::Err(ParseError::NonMonotonicPair { pair_index: k }), skipped);
        }
        let interval = Interval::new(&p1, &p2, ftp_milli);
        assert((k as int) * (MAX_TSS_SCALED as int) + MAX_TSS_SCALED == ((k as int) + 1) * (
        MAX_TSS_SCALED as int)) by (nonlinear_arith);
        assert(((k as int) + 1) * (MAX_TSS_SCALED as int) <= (u64::MAX as int) * (
        MAX_TSS_SCALED as int)) by (nonlinear_arith)
            requires
                (k as int) + 1 <= u64::MAX as int,
        ;
        total = total + interval.tss_scaled as u128;
        let ghost prev = intervals@;
        intervals.push(interval);
        proof {
            assert(intervals@.drop_last() =~= prev);
            assert(intervals@.last() == interval);
            assert(sum_tss(intervals@) == sum_tss(prev) + interval.tss_scaled);
        }
        k += 1;
    }

    let workout = Workout {
        ftp_milli,
        file_name,
        description,
        workout_data,
        intervals,
        tss_scaled: total,
    };
    assert(pairs_monotonic(pts));
    (Result::Ok(workout), skipped)
}

} // verus!
