//! Outcomes of a drop, slot reports, and what to write or read where.
//!
//! Nothing here touches a device. A motor command says what to write; a
//! probe says what to look at; the driver does both and hands back what it
//! found.

use crate::routes::config::{ConfigData, ConfigView, HardwareLine, SlotConfig, SlotView};
use crate::routes::sequencer::DropSequencer;
use crate::text::{decimal, push_decimal};
use vstd::prelude::*;

verus! {

/// How a drop that dispensed ended.
#[derive(Clone, Copy, PartialEq, Eq, Debug, Structural)]
pub enum DropState {
    Success,
}

/// Why a drop did not dispense.
#[derive(Clone, Copy, PartialEq, Eq, Debug, Structural)]
pub enum DropError {
    /// A write to the vend actuator failed.
    MotorFailed,
    /// The rotation never stopped within its bound.
    MotorTimeout,
    /// The slot number names no slot.
    BadSlot,
}

impl DropError {
    /// The error in words.
    pub open spec fn message(self) -> Seq<char> {
        match self {
            DropError::MotorFailed => "Motor didn't actuate"@,
            DropError::MotorTimeout => "Motor timed out. Is it stuck?"@,
            DropError::BadSlot => "Bad slot ID"@,
        }
    }

    /// The error in words.
    pub fn to_string(&self) -> (text: String)
        ensures
            text@ == self.message(),
    {
        match self {
            DropError::MotorFailed => String::from_str("Motor didn't actuate"),
            DropError::MotorTimeout => String::from_str("Motor timed out. Is it stuck?"),
            DropError::BadSlot => String::from_str("Bad slot ID"),
        }
    }
}

/// Where the attribute of a one-wire device is found.
pub open spec fn spec_one_wire_path(id: Seq<char>, attribute: Seq<char>) -> Seq<char> {
    "/mnt/w1/"@ + id + "/"@ + attribute
}

/// Where the attribute of a one-wire device is found.
pub fn one_wire_path(id: &str, attribute: &str) -> (path: String)
    ensures
        path@ == spec_one_wire_path(id@, attribute@),
{
    let mut path = String::from_str("/mnt/w1/");
    path.append(id);
    path.append("/");
    path.append(attribute);
    path
}

/// One write to a vend actuator.
#[derive(Clone, Debug, PartialEq, Eq)]
pub enum MotorCommand {
    /// Write `contents` to the file at `path`.
    Write { path: String, contents: String },
    /// Set the output line to `value`.
    Drive { line: HardwareLine, value: u8 },
}

/// What a motor command holds.
pub enum MotorCommandView {
    Write { path: Seq<char>, contents: Seq<char> },
    Drive { line: HardwareLine, value: u8 },
}

impl View for MotorCommand {
    type V = MotorCommandView;

    open spec fn view(&self) -> MotorCommandView {
        match self {
            MotorCommand::Write { path, contents } => MotorCommandView::Write {
                path: path@,
                contents: contents@,
            },
            MotorCommand::Drive { line, value } => MotorCommandView::Drive {
                line: *line,
                value: *value,
            },
        }
    }
}

/// The write that switches the actuator of `slot` on or off: `1` or `0`, to
/// the `PIO` attribute of a one-wire device or to the vend line.
pub open spec fn spec_run_motor(slot: SlotView, state: bool) -> MotorCommandView {
    match slot {
        SlotView::OneWire(id) => MotorCommandView::Write {
            path: spec_one_wire_path(id, "PIO"@),
            contents: if state {
                "1"@
            } else {
                "0"@
            },
        },
        SlotView::Gpio { vend, .. } => MotorCommandView::Drive {
            line: vend,
            value: if state {
                1u8
            } else {
                0u8
            },
        },
    }
}

/// The write that switches the actuator of `slot` on, if `state`, or off.
/// The stocked input and the rotation sensor are never written to.
pub fn run_motor(slot: &SlotConfig, state: bool) -> (command: MotorCommand)
    ensures
        command@ == spec_run_motor(slot@, state),
{
    match slot {
        SlotConfig::OWFS(id) => MotorCommand::Write {
            path: one_wire_path(id.as_str(), "PIO"),
            contents: if state {
                String::from_str("1")
            } else {
                String::from_str("0")
            },
        },
        SlotConfig::GPIO { vend, .. } => MotorCommand::Drive {
            line: *vend,
            value: if state {
                1
            } else {
                0
            },
        },
    }
}

/// Where to look for whether a slot is stocked.
#[derive(Clone, Debug, PartialEq, Eq)]
pub enum Probe {
    /// Try to open the file at `path`.
    Open { path: String },
    /// Read the input line.
    Read { line: HardwareLine },
}

/// What a probe holds.
pub enum ProbeView {
    Open { path: Seq<char> },
    Read { line: HardwareLine },
}

impl View for Probe {
    type V = ProbeView;

    open spec fn view(&self) -> ProbeView {
        match self {
            Probe::Open { path } => ProbeView::Open { path: path@ },
            Probe::Read { line } => ProbeView::Read { line: *line },
        }
    }
}

/// Where to look for whether `slot` is stocked: at the `id` attribute of a
/// one-wire device, or at the stocked line.
pub open spec fn spec_presence_probe(slot: SlotView) -> ProbeView {
    match slot {
        SlotView::OneWire(id) => ProbeView::Open { path: spec_one_wire_path(id, "id"@) },
        SlotView::Gpio { stocked, .. } => ProbeView::Read { line: stocked },
    }
}

/// Where to look for whether `slot` is stocked. The vend output is never
/// read.
pub fn presence_probe(slot: &SlotConfig) -> (probe: Probe)
    ensures
        probe@ == spec_presence_probe(slot@),
{
    match slot {
        SlotConfig::OWFS(id) => Probe::Open { path: one_wire_path(id.as_str(), "id") },
        SlotConfig::GPIO { stocked, .. } => Probe::Read { line: *stocked },
    }
}

/// Every line keeps its role: a slot of digital lines is written through
/// its vend line and looked at through its stocked line, whatever is
/// written. Where the two are different lines, the output is never read and
/// the input never written.
pub proof fn lemma_lines_keep_their_roles(slot: SlotView, state: bool)
    requires
        slot is Gpio,
    ensures
        spec_run_motor(slot, state) matches MotorCommandView::Drive { line, .. } && line
            == slot->vend,
        spec_presence_probe(slot) matches ProbeView::Read { line } && line == slot->stocked,
{
}

/// What a probe found.
#[derive(Clone, Copy, PartialEq, Eq, Debug, Structural)]
pub enum Reading {
    /// Whether the file could be opened.
    Opened(bool),
    /// The value of the line.
    Value(u8),
}

/// Whether a slot is stocked, from what its probe found: the file is there,
/// or the line reads 1.
pub fn is_stocked(reading: Reading) -> (stocked: bool)
    ensures
        stocked <==> match reading {
            Reading::Opened(opened) => opened,
            Reading::Value(value) => value == 1,
        },
{
    match reading {
        Reading::Opened(opened) => opened,
        Reading::Value(value) => value == 1,
    }
}

/// Where the temperature is read: nowhere if no sensor is named, else at the
/// `temperature12` attribute of the sensor.
pub fn temperature_probe(config: &ConfigData) -> (path: Option<String>)
    ensures
        path is None <==> config@.temperature_id.len() == 0,
        path is Some ==> path->0@ == spec_one_wire_path(
            config@.temperature_id,
            "temperature12"@,
        ),
{
    if config.temperature_id.as_str().unicode_len() == 0 {
        None
    } else {
        Some(one_wire_path(config.temperature_id.as_str(), "temperature12"))
    }
}

/// One line of the slot report: which slot, counted from 1, how it is shown
/// and whether it is stocked.
pub open spec fn spec_slot_line(index: nat, slot: SlotView, stocked: bool) -> Seq<char> {
    "Slot "@ + decimal(index + 1) + " ("@ + slot.display() + ") is "@ + if stocked {
        "stocked"@
    } else {
        "empty"@
    }
}

/// The slot report in words, one line for each slot in order. `stocked`
/// says of each slot whether it is stocked.
pub fn get_slots_old(config: &ConfigData, stocked: &Vec<bool>) -> (lines: Vec<String>)
    requires
        stocked@.len() == config@.slots.len(),
    ensures
        lines@.len() == config@.slots.len(),
        forall|i: int|
            0 <= i < lines@.len() ==> (#[trigger] lines@[i])@ == spec_slot_line(
                i as nat,
                config@.slots[i],
                stocked@[i],
            ),
{
    let mut lines: Vec<String> = Vec::new();
    let mut i: usize = 0;
    while i < config.slots.len()
        invariant
            i <= config.slots@.len(),
            stocked@.len() == config.slots@.len(),
            lines@.len() == i,
            forall|j: int|
                0 <= j < i ==> (#[trigger] lines@[j])@ == spec_slot_line(
                    j as nat,
                    config.slots@[j]@,
                    stocked@[j],
                ),
        decreases config.slots@.len() - i,
    {
        let mut line = String::from_str("Slot ");
        push_decimal(&mut line, (i + 1) as u64);
        line.append(" (");
        let shown = config.slots[i].to_string();
        line.append(shown.as_str());
        line.append(") is ");
        if stocked[i] {
            line.append("stocked");
        } else {
            line.append("empty");
        }
        lines.push(line);
        i = i + 1;
    }
    lines
}

/// One entry of the slot report.
#[derive(Clone, Debug, PartialEq, Eq)]
pub struct SlotStatus {
    /// How the slot is shown.
    pub id: String,
    /// The number of the slot, counted from 1: the number a drop takes.
    pub number: i32,
    /// Whether the slot is stocked.
    pub stocked: bool,
}

/// The slot report, one entry for each slot in order, each under the number
/// that a drop takes for it: the first slot is slot 1. `stocked` says of each
/// slot whether it is stocked.
pub fn get_slots(config: &ConfigData, stocked: &Vec<bool>) -> (report: Vec<SlotStatus>)
    requires
        stocked@.len() == config@.slots.len(),
        config@.slots.len() <= i32::MAX,
    ensures
        report@.len() == config@.slots.len(),
        forall|i: int|
            0 <= i < report@.len() ==> {
                &&& (#[trigger] report@[i]).id@ == config@.slots[i].display()
                &&& report@[i].number == i + 1
                &&& report@[i].stocked == stocked@[i]
            },
{
    let mut report: Vec<SlotStatus> = Vec::new();
    let mut i: usize = 0;
    while i < config.slots.len()
        invariant
            i <= config.slots@.len(),
            config.slots@.len() <= i32::MAX,
            stocked@.len() == config.slots@.len(),
            report@.len() == i,
            forall|j: int|
                0 <= j < i ==> {
                    &&& (#[trigger] report@[j]).id@ == config.slots@[j]@.display()
                    &&& report@[j].number == j + 1
                    &&& report@[j].stocked == stocked@[j]
                },
        decreases config.slots@.len() - i,
    {
        report.push(
            SlotStatus {
                id: config.slots[i].to_string(),
                number: (i + 1) as i32,
                stocked: stocked[i],
            },
        );
        i = i + 1;
    }
    report
}

/// Where in the configuration slot `slot` stands, counted from 1: nowhere
/// if the number is 0 or beyond the last slot.
pub open spec fn spec_drop_target(slots: nat, slot: usize) -> Option<usize> {
    if slot == 0 || slot > slots {
        None
    } else {
        Some((slot - 1) as usize)
    }
}

/// Where in the configuration the slot stands that a drop of slot `slot` is
/// aimed at: every write and every wait of that drop is for this slot.
/// `None` where the number names no slot, which is when the drop is
/// rejected.
pub fn drop_target(config: &ConfigData, slot: usize) -> (index: Option<usize>)
    ensures
        index == spec_drop_target(config@.slots.len(), slot),
        index == if slot == 0 || slot > config@.slots.len() {
            None
        } else {
            Some((slot - 1) as usize)
        },
        index is Some ==> index->0 < config@.slots.len(),
{
    if slot > config.slots.len() || slot == 0 {
        None
    } else {
        Some(slot - 1)
    }
}

/// The first state of a drop of slot `slot`, counted from 1: rejected where
/// the number names no slot.
pub open spec fn spec_drop(config: ConfigView, slot: usize) -> DropSequencer {
    if slot == 0 || slot > config.slots.len() {
        DropSequencer::spec_rejected()
    } else {
        DropSequencer::spec_begin(
            config.slots[slot - 1].kind(),
            config.latch is Some,
            config.drop_delay,
        )
    }
}

/// Begins a drop of slot `slot`, counted from 1.
///
/// A number that is 0 or beyond the last slot is rejected: the sequencer is
/// finished before it asks for anything, and its outcome is `BadSlot`.
/// Otherwise the sequencer stands at its first action, for the kind of that
/// slot, the configured hold, and with the latch if there is one.
pub fn drop(config: &ConfigData, slot: usize) -> (sequencer: DropSequencer)
    ensures
        sequencer == spec_drop(config@, slot),
        slot == 0 || slot > config@.slots.len() <==> sequencer.spec_outcome() == Err::<
            DropState,
            DropError,
        >(DropError::BadSlot),
        match spec_drop_target(config@.slots.len(), slot) {
            Some(index) => sequencer == DropSequencer::spec_begin(
                config@.slots[index as int].kind(),
                config.latch is Some,
                config.drop_delay,
            ),
            None => sequencer == DropSequencer::spec_rejected(),
        },
{
    match drop_target(config, slot) {
        Some(index) => DropSequencer::begin(
            config.slots[index].kind(),
            config.latch.is_some(),
            config.drop_delay,
        ),
        None => DropSequencer::rejected(),
    }
}

} // verus!
