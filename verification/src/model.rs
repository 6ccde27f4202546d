//! Shared data model: workout data points, derived intervals, and the
//! per-sheet workout record, all in exact fixed-point arithmetic.

use vstd::prelude::*;

verus! {

/// Largest representable time value: thousandths of a minute.
pub const MAX_TIME_MILLI: u64 = 10_000_000_000;

/// Largest representable intensity: thousandths of the threshold-power
/// fraction (10.0 times threshold power).
pub const MAX_INTENSITY_MILLI: u64 = 10_000;

/// Largest representable threshold power: thousandths of a watt (10 kW).
pub const MAX_FTP_MILLI: u64 = 10_000_000;

/// `Interval::intensity_factor_scaled` divided by this scale is the
/// dimensionless intensity factor.
pub const FACTOR_SCALE: u64 = 2_000;

/// `Interval::watt_scaled` divided by this scale is the average power in
/// watts.
pub const WATT_SCALE: u64 = 2_000_000;

/// `Interval::tss_scaled` divided by this scale is the training-stress
/// score of the interval.
pub const TSS_SCALE: u64 = 2_400_000_000;

/// Largest `tss_scaled` any single valid interval can have:
/// `MAX_TIME_MILLI * (2 * MAX_INTENSITY_MILLI) * (2 * MAX_INTENSITY_MILLI)`.
pub const MAX_TSS_SCALED: u64 = 4_000_000_000_000_000_000;

/// One data point of a workout: a breakpoint of the intensity ramp.
#[derive(Clone, Copy, Debug, PartialEq, Eq, Structural)]
pub struct WorkoutData {
    /// Timestamp of the data point, in thousandths of a minute.
    pub time_milli: u64,
    /// Intensity at `time_milli`, in thousandths of the threshold-power
    /// fraction (500 means 50% of threshold power).
    pub intensity_milli: u64,
}

impl WorkoutData {
    /// Both coordinates are within the representable range.
    pub open spec fn valid(self) -> bool {
        self.time_milli <= MAX_TIME_MILLI && self.intensity_milli <= MAX_INTENSITY_MILLI
    }
}

/// The segment between two consecutive data points, with its derived
/// training-load metrics, each an exact integer under its fixed scale.
#[derive(Clone, Copy, Debug, PartialEq, Eq, Structural)]
pub struct Interval {
    /// Length of the interval, in thousandths of a minute.
    pub duration_milli: u64,
    /// Average power of the interval, in units of `1 / WATT_SCALE` watts.
    pub watt_scaled: u64,
    /// Intensity factor of the interval, in units of `1 / FACTOR_SCALE`.
    pub intensity_factor_scaled: u64,
    /// Training-stress score of the interval, in units of `1 / TSS_SCALE`.
    pub tss_scaled: u64,
}

/// The exact interval derived from two consecutive data points and the
/// threshold power, in the fixed scales of `Interval`:
/// duration is `t2 - t1`; the intensity factor is the mean of the two
/// intensity fractions; average power is that mean times threshold power;
/// training stress is `duration_hours * factor^2 * 100`.
pub open spec fn interval_spec(wd1: WorkoutData, wd2: WorkoutData, ftp_milli: u64) -> Interval {
    Interval {
        duration_milli: (wd2.time_milli - wd1.time_milli) as u64,
        watt_scaled: ((wd1.intensity_milli + wd2.intensity_milli) * ftp_milli) as u64,
        intensity_factor_scaled: (wd1.intensity_milli + wd2.intensity_milli) as u64,
        tss_scaled: ((wd2.time_milli - wd1.time_milli) * (wd1.intensity_milli
            + wd2.intensity_milli) * (wd1.intensity_milli + wd2.intensity_milli)) as u64,
    }
}

impl Interval {
    /// Derives the interval between two consecutive data points, given the
    /// threshold power in thousandths of a watt. The caller guarantees that
    /// time does not decrease from `wd1` to `wd2`.
    pub fn new(wd1: &WorkoutData, wd2: &WorkoutData, ftp_milli: u64) -> (r: Interval)
        requires
            wd1.valid(),
            wd2.valid(),
            ftp_milli <= MAX_FTP_MILLI,
            wd1.time_milli <= wd2.time_milli,
        ensures
            r == interval_spec(*wd1, *wd2, ftp_milli),
            r.tss_scaled <= MAX_TSS_SCALED,
    {
        let duration_milli = wd2.time_milli - wd1.time_milli;
        let intensity_sum = wd1.intensity_milli + wd2.intensity_milli;
        assert(intensity_sum * ftp_milli <= 2 * MAX_INTENSITY_MILLI * MAX_FTP_MILLI)
            by (nonlinear_arith)
            requires
                intensity_sum <= 2 * MAX_INTENSITY_MILLI,
                ftp_milli <= MAX_FTP_MILLI,
        ;
        let watt_scaled = intensity_sum * ftp_milli;
        assert(duration_milli * intensity_sum <= MAX_TIME_MILLI * (2 * MAX_INTENSITY_MILLI)
            && duration_milli * intensity_sum * intensity_sum <= MAX_TSS_SCALED)
            by (nonlinear_arith)
            requires
                duration_milli <= MAX_TIME_MILLI,
                intensity_sum <= 2 * MAX_INTENSITY_MILLI,
        ;
        let tss_scaled = duration_milli * intensity_sum * intensity_sum;
        Interval {
            duration_milli,
            watt_scaled,
            intensity_factor_scaled: intensity_sum,
            tss_scaled,
        }
    }
}

/// Sum of the scaled training-stress scores of a sequence of intervals.
pub open spec fn sum_tss(s: Seq<Interval>) -> int
    decreases s.len(),
{
    if s.len() == 0 {
        0
    } else {
        sum_tss(s.drop_last()) + s.last().tss_scaled
    }
}

/// A fatal per-sheet condition found while pairing the scanned data points.
#[derive(Clone, Copy, Debug, PartialEq, Eq, Structural)]
pub enum ParseError {
    /// The sheet yielded an odd number of data points, so they cannot be
    /// paired into intervals; `count` is the number of points scanned.
    OddDataLength { count: usize },
    /// The pair of points at indices `2 * pair_index` and
    /// `2 * pair_index + 1` has decreasing time.
    NonMonotonicPair { pair_index: usize },
}

/// One complete workout parsed from one worksheet.
#[derive(Debug)]
pub struct Workout {
    /// Threshold power, in thousandths of a watt; zero when the header cell
    /// was missing, not numeric, or out of range.
    pub ftp_milli: u64,
    /// Name of the trainer file to write.
    pub file_name: String,
    /// Free-text description of the workout.
    pub description: String,
    /// The scanned data points, in worksheet order.
    pub workout_data: Vec<WorkoutData>,
    /// One interval per consecutive pair of data points.
    pub intervals: Vec<Interval>,
    /// Total training stress, in units of `1 / TSS_SCALE`.
    pub tss_scaled: u128,
}

impl Workout {
    /// Every data point is in range and the threshold power is in range.
    pub open spec fn wf(self) -> bool {
        &&& self.ftp_milli <= MAX_FTP_MILLI
        &&& forall|i: int|
            0 <= i < self.workout_data@.len() ==> (#[trigger] self.workout_data@[i]).valid()
    }

    /// Runtime check of `wf`, for callers outside the verified library.
    pub fn is_wf(&self) -> (b: bool)
        ensures
            b == self.wf(),
    {
        if self.ftp_milli > MAX_FTP_MILLI {
            return false;
        }
        let mut i: usize = 0;
        while i < self.workout_data.len()
            invariant
                0 <= i <= self.workout_data@.len(),
                forall|j: int| 0 <= j < i ==> (#[trigger] self.workout_data@[j]).valid(),
            decreases self.workout_data@.len() - i,
        {
            let p = self.workout_data[i];
            if p.time_milli > MAX_TIME_MILLI || p.intensity_milli > MAX_INTENSITY_MILLI {
                return false;
            }
            i += 1;
        }
        true
    }
}

/// The whole-number training-stress score shown in a summary: the scaled
/// total divided by `TSS_SCALE`, saturated at `u64::MAX`.
pub open spec fn tss_display(total: u128) -> u64 {
    if total / (TSS_SCALE as u128) > u64::MAX {
        u64::MAX
    } else {
        (total / (TSS_SCALE as u128)) as u64
    }
}

} // verus!

