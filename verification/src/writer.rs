//! Trainer-file writer: renders a parsed workout into the exact text of its
//! ERG file, and renders the one-line console summary.

use vstd::prelude::*;
use vstd::string::{StrSliceExecFns, StringExecFns};

use crate::model::{MAX_FTP_MILLI, MAX_INTENSITY_MILLI, TSS_SCALE, Workout, WorkoutData};
use crate::numfmt::{
    append_ftp, append_padded_left, append_padded_right, append_time, dec_str, ftp_str, pad_left,
    pad_right, time_str, u64_to_string,
};

verus! {

/// Width of the file-name column of the summary line.
pub const SUMMARY_NAME_WIDTH: usize = 24;

/// Width of the training-stress column of the summary line.
pub const SUMMARY_TSS_WIDTH: usize = 5;

/// The watt target of one data point: its intensity fraction times the
/// threshold power, truncated to a whole watt.
pub open spec fn watts_of(p: WorkoutData, ftp_milli: u64) -> u64 {
    ((p.intensity_milli * ftp_milli) / 1_000_000) as u64
}

/// One line of the data section: the time in minutes with two decimals, a
/// tab, the whole-watt target, and a newline.
pub open spec fn data_line(p: WorkoutData, ftp_milli: u64) -> Seq<char> {
    time_str(p.time_milli) + seq!['\t'] + dec_str(watts_of(p, ftp_milli) as nat) + seq!['\n']
}

/// The data section: one line per data point, in scan order.
pub open spec fn data_lines(pts: Seq<WorkoutData>, ftp_milli: u64) -> Seq<char>
    decreases pts.len(),
{
    if pts.len() == 0 {
        Seq::empty()
    } else {
        data_line(pts[0], ftp_milli) + data_lines(pts.drop_first(), ftp_milli)
    }
}

/// The complete text of the trainer file for workout `w`.
pub open spec fn erg_content(w: Workout) -> Seq<char> {
    "[COURSE HEADER]\nVERSION = 2\nUNITS = ENGLISH\nDESCRIPTION = "@ + w.description@
        + "\nFILE NAME = "@ + w.file_name@ + "\nFTP = "@ + ftp_str(w.ftp_milli)
        + "\nMINUTES WATTS\n[END COURSE HEADER]\n[COURSE DATA]\n"@ + data_lines(
        w.workout_data@,
        w.ftp_milli,
    ) + "[END COURSE DATA]\n"@
}

/// Appending one point to the data section appends exactly its line.
proof fn lemma_data_lines_push(pts: Seq<WorkoutData>, p: WorkoutData, ftp_milli: u64)
    ensures
        data_lines(pts.push(p), ftp_milli) == data_lines(pts, ftp_milli) + data_line(p, ftp_milli),
    decreases pts.len(),
{
    if pts.len() == 0 {
        assert(pts.push(p).drop_first() =~= Seq::<WorkoutData>::empty());
        assert(pts.push(p)[0] == p);
        assert(data_lines(Seq::<WorkoutData>::empty(), ftp_milli) == Seq::<char>::empty());
        assert(data_lines(pts.push(p), ftp_milli) =~= data_lines(pts, ftp_milli) + data_line(
            p,
            ftp_milli,
        ));
    } else {
        assert(pts.push(p).drop_first() =~= pts.drop_first().push(p));
        lemma_data_lines_push(pts.drop_first(), p, ftp_milli);
        assert(data_lines(pts.push(p), ftp_milli) =~= data_lines(pts, ftp_milli) + data_line(
            p,
            ftp_milli,
        ));
    }
}

/// Renders the trainer file for workout `w`, exactly as `erg_content`
/// states it. The caller writes the returned text to the file named by
/// `w.file_name`.
pub fn render_erg_file(w: &Workout) -> (s: String)
    requires
        w.wf(),
    ensures
        s@ == erg_content(*w),
{
    let mut s = String::from_str("[COURSE HEADER]\nVERSION = 2\nUNITS = ENGLISH\nDESCRIPTION = ");
    s.append(w.description.as_str());
    s.append("\nFILE NAME = ");
    s.append(w.file_name.as_str());
    s.append("\nFTP = ");
    append_ftp(&mut s, w.ftp_milli);
    s.append("\nMINUTES WATTS\n[END COURSE HEADER]\n[COURSE DATA]\n");
    let ghost head = s@;

    let mut i: usize = 0;
    while i < w.workout_data.len()
        invariant
            w.wf(),
            i <= w.workout_data@.len(),
            s@ == head + data_lines(w.workout_data@.take(i as int), w.ftp_milli),
        decreases w.workout_data@.len() - i,
    {
        let p = w.workout_data[i];
        append_time(&mut s, p.time_milli);
        assert(p.intensity_milli * w.ftp_milli <= MAX_INTENSITY_MILLI * MAX_FTP_MILLI)
            by (nonlinear_arith)
            requires
                p.intensity_milli <= MAX_INTENSITY_MILLI,
                w.ftp_milli <= MAX_FTP_MILLI,
        ;
        let watts = (p.intensity_milli * w.ftp_milli) / 1_000_000;
        let watts_str = u64_to_string(watts);
        s.append("\t");
        s.append(watts_str.as_str());
        s.append("\n");
        proof {
            reveal_strlit("\t");
            reveal_strlit("\n");
            assert("\t"@ =~= seq!['\t']);
            assert("\n"@ =~= seq!['\n']);
            lemma_data_lines_push(w.workout_data@.take(i as int), p, w.ftp_milli);
            assert(w.workout_data@.take(i as int).push(p) =~= w.workout_data@.take(i as int + 1));
            assert(s@ =~= head + data_lines(w.workout_data@.take(i as int + 1), w.ftp_milli));
        }
        i += 1;
    }
    assert(w.workout_data@.take(w.workout_data@.len() as int) =~= w.workout_data@);
    s.append("[END COURSE DATA]\n");
    assert(s@ =~= erg_content(*w));
    s
}

/// The console summary of one converted workout: the file name padded to
/// the name column width, the whole-number training stress padded to the
/// stress column width, and the description.
pub open spec fn summary_spec(w: Workout) -> Seq<char> {
    pad_right(w.file_name@, SUMMARY_NAME_WIDTH as nat) + " | TSS: "@ + pad_left(
        dec_str(crate::model::tss_display(w.tss_scaled) as nat),
        SUMMARY_TSS_WIDTH as nat,
    ) + " | "@ + w.description@
}

/// Renders the one-line summary of workout `w`.
pub fn summary_line(w: &Workout) -> (s: String)
    ensures
        s@ == summary_spec(*w),
{
    let mut s = String::new();
    append_padded_right(&mut s, w.file_name.as_str(), SUMMARY_NAME_WIDTH);
    s.append(" | TSS: ");
    let q = w.tss_scaled / (TSS_SCALE as u128);
    let shown: u64 = if q > u64::MAX as u128 {
        u64::MAX
    } else {
        q as u64
    };
    assert(shown == crate::model::tss_display(w.tss_scaled));
    let shown_str = u64_to_string(shown);
    append_padded_left(&mut s, shown_str.as_str(), SUMMARY_TSS_WIDTH);
    s.append(" | ");
    s.append(w.description.as_str());
    assert(s@ =~= summary_spec(*w));
    s
}

/// Rendering depends on the workout's fields alone: two workouts with equal
/// fields render to byte-identical trainer-file text and summary, so a
/// repeated conversion of unchanged input reproduces its output exactly.
pub proof fn lemma_render_deterministic(w1: Workout, w2: Workout)
    requires
        w1.ftp_milli == w2.ftp_milli,
        w1.file_name@ == w2.file_name@,
        w1.description@ == w2.description@,
        w1.workout_data@ == w2.workout_data@,
        w1.tss_scaled == w2.tss_scaled,
    ensures
        erg_content(w1) == erg_content(w2),
        summary_spec(w1) == summary_spec(w2),
{
}

} // verus!
