//! Threshold alerts: deciding which metrics exceeded their configured
//! bounds and composing the human-readable alert messages.
//!
//! An alert fires exactly when the measured value is strictly greater
//! than its threshold; equality never fires. Evaluation is pure: it
//! keeps no state between cycles, so an unchanged reading fires the same
//! alerts again on the next cycle. Delivering a fired alert (printing,
//! logging) is the caller's concern.

use vstd::prelude::*;
use vstd::string::StringExecFns;
use crate::config::{AlertThresholds, Config};
use crate::numfmt::{format_hundredths, percent_chars};

verus! {

/// The metric category an alert is about.
#[derive(Debug, Clone, Copy, PartialEq, Eq, Structural)]
pub enum AlertKind {
    Cpu,
    Memory,
    Disk,
}

/// One fired alert: the category, the measured value and the threshold
/// it exceeded (both in hundredths of a percent), and the pre-formatted
/// message handed to reporting collaborators.
#[derive(Debug, Clone, PartialEq)]
pub struct AlertEvent {
    pub kind: AlertKind,
    pub measured: u64,
    pub threshold: u64,
    pub message: String,
}

/// Mathematical image of an `AlertEvent`.
pub ghost struct AlertEventView {
    pub kind: AlertKind,
    pub measured: u64,
    pub threshold: u64,
    pub message: Seq<char>,
}

impl View for AlertEvent {
    type V = AlertEventView;

    open spec fn view(&self) -> AlertEventView {
        AlertEventView {
            kind: self.kind,
            measured: self.measured,
            threshold: self.threshold,
            message: self.message@,
        }
    }
}

/// An alert fires exactly when the measured value strictly exceeds the
/// threshold.
pub open spec fn alert_fires(measured: u64, threshold: u64) -> bool {
    measured > threshold
}

/// The display label of an alert kind.
pub open spec fn kind_label(kind: AlertKind) -> Seq<char> {
    match kind {
        AlertKind::Cpu => "CPU"@,
        AlertKind::Memory => "Memory"@,
        AlertKind::Disk => "Disk"@,
    }
}

/// The message of a fired alert: label, measured value and threshold,
/// both percentages rendered with two digits after the decimal point.
pub open spec fn alert_message_chars(kind: AlertKind, measured: u64, threshold: u64) -> Seq<
    char,
> {
    kind_label(kind) + " usage is "@ + percent_chars(measured) + "% (threshold: "@ + percent_chars(
        threshold,
    ) + "%)"@
}

/// The event an exceeded threshold produces.
pub open spec fn event_view(kind: AlertKind, measured: u64, threshold: u64) -> AlertEventView {
    AlertEventView {
        kind,
        measured,
        threshold,
        message: alert_message_chars(kind, measured, threshold),
    }
}

/// The full outcome of one evaluation: the events of the exceeded
/// thresholds, in the fixed order CPU, memory, disk.
pub open spec fn spec_evaluate(
    cpu: u64,
    memory: u64,
    disk: u64,
    thresholds: AlertThresholds,
) -> Seq<AlertEventView> {
    (if alert_fires(cpu, thresholds.cpu_percent) {
        seq![event_view(AlertKind::Cpu, cpu, thresholds.cpu_percent)]
    } else {
        Seq::empty()
    }) + (if alert_fires(memory, thresholds.memory_percent) {
        seq![event_view(AlertKind::Memory, memory, thresholds.memory_percent)]
    } else {
        Seq::empty()
    }) + (if alert_fires(disk, thresholds.disk_percent) {
        seq![event_view(AlertKind::Disk, disk, thresholds.disk_percent)]
    } else {
        Seq::empty()
    })
}

/// The views of a list of events.
pub open spec fn views_of(events: Seq<AlertEvent>) -> Seq<AlertEventView> {
    events.map_values(|e: AlertEvent| e@)
}

/// The display label of an alert kind.
pub fn kind_str(kind: AlertKind) -> (r: &'static str)
    ensures
        r@ == kind_label(kind),
{
    match kind {
        AlertKind::Cpu => "CPU",
        AlertKind::Memory => "Memory",
        AlertKind::Disk => "Disk",
    }
}

/// Composes the message of a fired alert.
pub fn alert_message(kind: AlertKind, measured: u64, threshold: u64) -> (r: String)
    ensures
        r@ == alert_message_chars(kind, measured, threshold),
{
    let mut r = kind_str(kind).to_owned();
    r.append(" usage is ");
    let m = format_hundredths(measured);
    r.append(m.as_str());
    r.append("% (threshold: ");
    let t = format_hundredths(threshold);
    r.append(t.as_str());
    r.append("%)");
    proof {
        assert(r@ =~= alert_message_chars(kind, measured, threshold));
    }
    r
}

/// Builds the event an exceeded threshold produces, message included.
pub fn make_event(kind: AlertKind, measured: u64, threshold: u64) -> (r: AlertEvent)
    ensures
        r@ == event_view(kind, measured, threshold),
{
    let message = alert_message(kind, measured, threshold);
    AlertEvent { kind, measured, threshold, message }
}

/// Compares the three derived percentages against their thresholds and
/// returns one event per exceeded threshold, in the fixed order CPU,
/// memory, disk. Pure: two calls on equal inputs return events with
/// equal views.
pub fn evaluate(cpu: u64, memory: u64, disk: u64, thresholds: &AlertThresholds) -> (r: Vec<
    AlertEvent,
>)
    ensures
        views_of(r@) == spec_evaluate(cpu, memory, disk, *thresholds),
        r@.len() <= 3,
        forall|i: int|
            0 <= i < r@.len() ==> alert_fires((#[trigger] r@[i]).measured, r@[i].threshold),
        forall|i: int, j: int|
            0 <= i < j < r@.len() ==> (#[trigger] r@[i]).kind != (#[trigger] r@[j]).kind,
{
    let mut r: Vec<AlertEvent> = Vec::new();
    if cpu > thresholds.cpu_percent {
        r.push(make_event(AlertKind::Cpu, cpu, thresholds.cpu_percent));
    }
    if memory > thresholds.memory_percent {
        r.push(make_event(AlertKind::Memory, memory, thresholds.memory_percent));
    }
    if disk > thresholds.disk_percent {
        r.push(make_event(AlertKind::Disk, disk, thresholds.disk_percent));
    }
    proof {
        assert(views_of(r@) =~= spec_evaluate(cpu, memory, disk, *thresholds));
    }
    r
}

/// Evaluation is a function of its four inputs alone: no hidden state
/// affects the decision, so repeating it on identical inputs — in the
/// same cycle or the next one — yields the identical event sequence.
pub proof fn lemma_evaluate_repeatable(
    cpu1: u64,
    memory1: u64,
    disk1: u64,
    thresholds1: AlertThresholds,
    cpu2: u64,
    memory2: u64,
    disk2: u64,
    thresholds2: AlertThresholds,
)
    requires
        cpu1 == cpu2,
        memory1 == memory2,
        disk1 == disk2,
        thresholds1 == thresholds2,
    ensures
        spec_evaluate(cpu1, memory1, disk1, thresholds1) == spec_evaluate(
            cpu2,
            memory2,
            disk2,
            thresholds2,
        ),
{
}

/// A kind appears in the outcome exactly when its measured value
/// strictly exceeds its threshold; measuring exactly the threshold
/// never fires.
pub proof fn lemma_fires_iff_strictly_greater(
    cpu: u64,
    memory: u64,
    disk: u64,
    thresholds: AlertThresholds,
)
    ensures
        (exists|i: int|
            0 <= i < spec_evaluate(cpu, memory, disk, thresholds).len() && (#[trigger] spec_evaluate(
                cpu,
                memory,
                disk,
                thresholds,
            )[i]).kind == AlertKind::Cpu) <==> cpu > thresholds.cpu_percent,
        (exists|i: int|
            0 <= i < spec_evaluate(cpu, memory, disk, thresholds).len() && (#[trigger] spec_evaluate(
                cpu,
                memory,
                disk,
                thresholds,
            )[i]).kind == AlertKind::Memory) <==> memory > thresholds.memory_percent,
        (exists|i: int|
            0 <= i < spec_evaluate(cpu, memory, disk, thresholds).len() && (#[trigger] spec_evaluate(
                cpu,
                memory,
                disk,
                thresholds,
            )[i]).kind == AlertKind::Disk) <==> disk > thresholds.disk_percent,
        cpu == thresholds.cpu_percent || memory == thresholds.memory_percent || disk
            == thresholds.disk_percent ==> spec_evaluate(cpu, memory, disk, thresholds).len() < 3,
{
    let s = spec_evaluate(cpu, memory, disk, thresholds);
    if cpu > thresholds.cpu_percent {
        assert(s[0].kind == AlertKind::Cpu);
    }
    if memory > thresholds.memory_percent {
        if cpu > thresholds.cpu_percent {
            assert(s[1].kind == AlertKind::Memory);
        } else {
            assert(s[0].kind == AlertKind::Memory);
        }
    }
    if disk > thresholds.disk_percent {
        assert(s[s.len() - 1].kind == AlertKind::Disk);
    }
    assert forall|i: int| 0 <= i < s.len() implies (s[i].kind == AlertKind::Cpu ==> cpu
        > thresholds.cpu_percent) && (s[i].kind == AlertKind::Memory ==> memory
        > thresholds.memory_percent) && (s[i].kind == AlertKind::Disk ==> disk
        > thresholds.disk_percent) by {
    }
}

/// The alert checker of one tracker instance: holds the configuration
/// and answers, per category, whether the measured value exceeds its
/// threshold.
pub struct AlertSystem {
    pub config: Config,
}

impl AlertSystem {
    /// A checker over the given configuration's thresholds.
    pub fn new(config: Config) -> (r: AlertSystem)
        ensures
            r.config == config,
    {
        AlertSystem { config }
    }

    /// Whether the CPU percentage strictly exceeds its threshold.
    pub fn check_cpu_alert(&self, cpu_percent: u64) -> (r: bool)
        ensures
            r == alert_fires(cpu_percent, self.config.alert_thresholds.cpu_percent),
    {
        cpu_percent > self.config.alert_thresholds.cpu_percent
    }

    /// Whether the memory percentage strictly exceeds its threshold.
    pub fn check_memory_alert(&self, memory_percent: u64) -> (r: bool)
        ensures
            r == alert_fires(memory_percent, self.config.alert_thresholds.memory_percent),
    {
        memory_percent > self.config.alert_thresholds.memory_percent
    }

    /// Whether the disk percentage strictly exceeds its threshold.
    pub fn check_disk_alert(&self, disk_percent: u64) -> (r: bool)
        ensures
            r == alert_fires(disk_percent, self.config.alert_thresholds.disk_percent),
    {
        disk_percent > self.config.alert_thresholds.disk_percent
    }
}

impl AlertEvent {
    /// The category-tagged form of the message, as the alert log records
    /// it.
    pub fn tagged_message(&self) -> (r: String)
        ensures
            r@ == kind_label(self.kind) + ": "@ + self.message@,
    {
        let mut r = kind_str(self.kind).to_owned();
        r.append(": ");
        r.append(self.message.as_str());
        proof {
            assert(r@ =~= kind_label(self.kind) + ": "@ + self.message@);
        }
        r
    }
}

} // verus!
