//! The capture run: per-frame decisions of the presentation driver, present
//! detection, timestamp correlation, record accumulation, signal emission
//! and budget tracking.

use crate::export::{csv_bytes, export_csv};
use crate::records::{
    cpu_rec, frame_pairs, hw_rec, lemma_wf_log_push_pair, wf_log, EventType, VBlankRecord,
};
use crate::signal::{be_bytes, encode_marker};
use vstd::prelude::*;

verus! {

/// The draw/skip schedule that gives the presentation counters a
/// predictable signature: either alternate forever, or alternate only until
/// a cutoff frame and skip from then on.
#[derive(Clone, Copy, Debug, PartialEq, Eq, Structural)]
pub enum DutyPolicy {
    Alternate,
    AlternateUntil { cutoff: u64 },
}

/// Configuration fixed before a run starts: how many frames to capture, for
/// how many initial frames to emit the external signal, the duty cycle, and
/// how many microseconds the poller may sleep between samples (zero for a
/// pure busy-wait, the default, trading CPU for timing precision).
#[derive(Clone, Copy, Debug, PartialEq, Eq, Structural)]
pub struct CaptureConfig {
    pub frame_budget: u64,
    pub signal_frames: u32,
    pub duty: DutyPolicy,
    pub poll_interval_micros: u64,
}

impl Default for CaptureConfig {
    /// The configuration the tool ships with: a thousand-frame capture, no
    /// external signal, an alternating duty cycle, and a pure busy-wait.
    fn default() -> (c: CaptureConfig)
        ensures
            c == (CaptureConfig {
                frame_budget: 1000,
                signal_frames: 0,
                duty: DutyPolicy::Alternate,
                poll_interval_micros: 0,
            }),
    {
        CaptureConfig {
            frame_budget: 1000,
            signal_frames: 0,
            duty: DutyPolicy::Alternate,
            poll_interval_micros: 0,
        }
    }
}

/// One reading of the presentation backend's counters: the present counter,
/// the hardware timestamp of the latest sync, and the display-refresh
/// counter.
#[derive(Clone, Copy, Debug, PartialEq, Eq, Structural)]
pub struct FrameCounterSample {
    pub present_count: u32,
    pub sync_time: i64,
    pub refresh_count: u32,
}

/// What the driver asks of its collaborators when a frame begins: either
/// reconfigure the surface and retry (the frame producer reported the
/// surface unavailable), or render, drawing or skipping per the duty cycle.
#[derive(Clone, Copy, Debug, PartialEq, Eq, Structural)]
pub enum FrameAction {
    Reconfigure,
    Render { draw: bool },
}

/// What follows a completed poll cycle: the bytes to write to the external
/// channel, if this frame is still in the signal phase, and whether the
/// frame budget is now exhausted (export, then terminate).
#[derive(Debug)]
pub struct FrameOutcome {
    pub external_signal: Option<Vec<u8>>,
    pub done: bool,
}

/// Whether the duty cycle draws on frame `idx`.
pub open spec fn spec_should_draw(duty: DutyPolicy, idx: u64) -> bool {
    match duty {
        DutyPolicy::Alternate => idx % 2 == 0,
        DutyPolicy::AlternateUntil { cutoff } => idx < cutoff && idx % 2 == 0,
    }
}

/// State of one capture run, exclusively owned by the driver loop.
pub struct Capture {
    pub config: CaptureConfig,
    pub running_frame_index: u64,
    pub last_present_count: u32,
    pub start_hardware_time: i64,
    pub records: Vec<VBlankRecord>,
}

impl Capture {
    /// A run is well-formed while its log holds exactly one well-formed
    /// hardware/CPU record pair per completed frame and the frame index has
    /// not passed the budget.
    pub open spec fn wf(self) -> bool {
        &&& wf_log(self.records@)
        &&& self.records@.len() == 2 * self.running_frame_index
        &&& self.running_frame_index <= self.config.frame_budget
    }

    /// The hardware-clock reading for a sample, re-anchored at run start.
    pub open spec fn spec_hardware_timestamp(self, sample: FrameCounterSample) -> int {
        sample.sync_time - self.start_hardware_time
    }

    /// The hardware record a sample contributes to the log.
    pub open spec fn spec_hw_record(self, sample: FrameCounterSample) -> VBlankRecord {
        VBlankRecord {
            timestamp: self.spec_hardware_timestamp(sample) as i64,
            count: sample.refresh_count as i64,
            event_type: EventType::HardwareTime,
        }
    }

    /// The CPU record a poll cycle contributes to the log.
    pub open spec fn spec_cpu_record(sample: FrameCounterSample, cpu_ticks: i64) -> VBlankRecord {
        VBlankRecord {
            timestamp: cpu_ticks,
            count: sample.refresh_count as i64,
            event_type: EventType::CpuTime,
        }
    }

    /// The clocks moved forward since the previous frame's records: both
    /// readings are strictly later than the latest record of their stream.
    pub open spec fn fresh_inputs(self, sample: FrameCounterSample, cpu_ticks: i64) -> bool {
        self.running_frame_index > 0 ==> {
            &&& self.spec_hardware_timestamp(sample) > hw_rec(
                self.records@,
                self.running_frame_index as int - 1,
            ).timestamp
            &&& cpu_ticks > cpu_rec(self.records@, self.running_frame_index as int - 1).timestamp
        }
    }

    /// Starts a run: empty log, frame index zero, the given clock anchor and
    /// the present-counter value observed before the first frame.
    pub fn new(config: CaptureConfig, start_hardware_time: i64, initial_present_count: u32) -> (c:
        Capture)
        ensures
            c.wf(),
            c.config == config,
            c.running_frame_index == 0,
            c.last_present_count == initial_present_count,
            c.start_hardware_time == start_hardware_time,
            c.records@ == Seq::<VBlankRecord>::empty(),
    {
        Capture {
            config,
            running_frame_index: 0,
            last_present_count: initial_present_count,
            start_hardware_time,
            records: Vec::new(),
        }
    }

    /// Decides what a beginning frame does. A frame producer that failed to
    /// hand out a surface is answered with a reconfigure-and-retry, leaving
    /// the run state untouched; otherwise the frame renders, drawing or
    /// skipping as the duty cycle says for the current frame index.
    pub fn begin_frame(&self, acquired: bool) -> (r: FrameAction)
        ensures
            !acquired ==> r == FrameAction::Reconfigure,
            acquired ==> r == (FrameAction::Render {
                draw: spec_should_draw(self.config.duty, self.running_frame_index),
            }),
    {
        if !acquired {
            FrameAction::Reconfigure
        } else {
            let draw = match self.config.duty {
                DutyPolicy::Alternate => self.running_frame_index % 2 == 0,
                DutyPolicy::AlternateUntil { cutoff } => self.running_frame_index < cutoff
                    && self.running_frame_index % 2 == 0,
            };
            FrameAction::Render { draw }
        }
    }

    /// The poll predicate: the present event has happened once the backend's
    /// present counter differs from the last value this run observed. The
    /// poller calls this on every sample of its busy-wait loop.
    pub fn counter_advanced(&self, sample: &FrameCounterSample) -> (r: bool)
        ensures
            r == (sample.present_count != self.last_present_count),
    {
        sample.present_count != self.last_present_count
    }

    /// How many presents the display performed unseen between the previously
    /// observed counter value and this sample: a jump of `j` means `j - 1`
    /// missed frames.
    pub fn missed_frames(&self, sample: &FrameCounterSample) -> (r: u32)
        requires
            sample.present_count > self.last_present_count,
        ensures
            r == sample.present_count - self.last_present_count - 1,
    {
        sample.present_count - self.last_present_count - 1
    }

    /// The hardware-clock reading of a sample, re-anchored at the run's
    /// start so both clock streams share a common origin.
    pub fn hardware_timestamp(&self, sample: &FrameCounterSample) -> (r: i64)
        requires
            i64::MIN <= self.spec_hardware_timestamp(*sample),
            self.spec_hardware_timestamp(*sample) <= i64::MAX,
        ensures
            r == self.spec_hardware_timestamp(*sample),
    {
        sample.sync_time - self.start_hardware_time
    }

    /// Finishes one poll cycle: appends the hardware and CPU records for the
    /// detected present event, re-arms the poll predicate with the sample's
    /// present counter, emits the external frame marker while the run is in
    /// its signal phase, advances the frame index, and reports whether the
    /// budget is now exhausted.
    pub fn complete_frame(&mut self, sample: FrameCounterSample, cpu_ticks: i64) -> (r:
        FrameOutcome)
        requires
            old(self).wf(),
            old(self).running_frame_index < old(self).config.frame_budget,
            sample.present_count != old(self).last_present_count,
            i64::MIN <= old(self).spec_hardware_timestamp(sample),
            old(self).spec_hardware_timestamp(sample) <= i64::MAX,
            old(self).fresh_inputs(sample, cpu_ticks),
        ensures
            final(self).wf(),
            final(self).config == old(self).config,
            final(self).start_hardware_time == old(self).start_hardware_time,
            final(self).running_frame_index == old(self).running_frame_index + 1,
            final(self).last_present_count == sample.present_count,
            final(self).records@ == old(self).records@ + seq![
                old(self).spec_hw_record(sample),
                Capture::spec_cpu_record(sample, cpu_ticks),
            ],
            r.done <==> final(self).running_frame_index == old(self).config.frame_budget,
            old(self).running_frame_index < old(self).config.signal_frames as u64 ==> {
                &&& r.external_signal matches Some(s)
                &&& r.external_signal->Some_0@ == be_bytes((old(self).running_frame_index + 1) as u32)
            },
            old(self).running_frame_index >= old(self).config.signal_frames as u64
                ==> r.external_signal is None,
    {
        let hw_ts: i64 = sample.sync_time - self.start_hardware_time;
        let count_v: i64 = sample.refresh_count as i64;
        let h = VBlankRecord { timestamp: hw_ts, count: count_v, event_type: EventType::HardwareTime };
        let c = VBlankRecord { timestamp: cpu_ticks, count: count_v, event_type: EventType::CpuTime };
        proof {
            assert(frame_pairs(self.records@) == self.running_frame_index as int);
            lemma_wf_log_push_pair(self.records@, h, c);
        }
        self.records.push(h);
        self.records.push(c);
        proof {
            assert(self.records@ =~= old(self).records@ + seq![h, c]);
        }
        self.last_present_count = sample.present_count;
        let marker: Option<Vec<u8>> = if self.running_frame_index < self.config.signal_frames as u64 {
            Some(encode_marker((self.running_frame_index + 1) as u32))
        } else {
            None
        };
        self.running_frame_index = self.running_frame_index + 1;
        let done = self.running_frame_index >= self.config.frame_budget;
        FrameOutcome { external_signal: marker, done }
    }

    /// Materializes the run's log as the delimited text table described by
    /// `csv_bytes`: a header row, then one row per record in log order.
    pub fn export(&self) -> (r: Vec<u8>)
        ensures
            r@ == csv_bytes(self.records@),
    {
        export_csv(&self.records)
    }
}

/// Scales a CPU-clock elapsed reading from nanoseconds to the 100 ns tick
/// unit of the hardware counter, so the two streams share one unit.
pub fn cpu_ticks_from_nanos(nanos: u128) -> (r: i64)
    requires
        nanos / 100 <= i64::MAX,
    ensures
        r == nanos / 100,
{
    (nanos / 100) as i64
}

/// Law: a run that has completed its frame budget holds exactly two records
/// in its log for every budgeted frame — one per clock stream.
pub proof fn lemma_completed_run_length(c: Capture)
    requires
        c.wf(),
        c.running_frame_index == c.config.frame_budget,
    ensures
        c.records@.len() == 2 * c.config.frame_budget,
{
}

/// Law: a completed run exports the header row plus one row per record —
/// two rows for every budgeted frame, each ending in its line feed.
pub proof fn lemma_completed_run_export_rows(c: Capture)
    requires
        c.wf(),
        c.running_frame_index == c.config.frame_budget,
    ensures
        crate::export::newline_count(csv_bytes(c.records@)) == 2 * c.config.frame_budget + 1,
{
    crate::export::lemma_export_row_count(c.records@);
}

} // verus!
