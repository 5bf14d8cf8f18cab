//! Slot descriptors and the configuration they come from.
//!
//! The configuration arrives as a handful of optional texts, as an
//! environment holds them. [`ConfigData::new`] reads them into slot
//! descriptors, a latch, a temperature sensor and a hold; which devices are
//! then opened is the driver's business.
//!
//! Slots are addressed in one of two ways: by a list of one-wire device ids,
//! or by parallel lists of pins, each pin written `<offset>[:<chip>]`. Lists
//! are separated by commas.

use crate::routes::sequencer::SlotKind;
use crate::text::{
    decimal, fields, lemma_fields_join, parse_u32, parse_u64, push_decimal, split,
    unsigned_up_to, views,
};
use vstd::prelude::*;

verus! {

/// How long one request keeps the latch open, in milliseconds. No motor
/// turns for longer.
pub const LATCH_OPEN_MS: u64 = 60_000;

/// One digital line: its offset on a chip.
#[derive(Clone, Copy, PartialEq, Eq, Debug, Structural)]
pub struct HardwareLine {
    pub offset: u32,
    pub chip: u32,
}

/// One dispensing unit.
#[derive(Clone, Debug, PartialEq, Eq)]
pub enum SlotConfig {
    /// A device on the one-wire bus, by its id.
    OWFS(String),
    /// A vend output, a stocked input and, where the motor has one, a
    /// rotation sensor.
    GPIO { vend: HardwareLine, stocked: HardwareLine, cam: Option<HardwareLine> },
}

/// What a slot descriptor holds.
pub enum SlotView {
    OneWire(Seq<char>),
    Gpio { vend: HardwareLine, stocked: HardwareLine, cam: Option<HardwareLine> },
}

impl SlotView {
    /// What the sequencer needs to know of the slot.
    pub open spec fn kind(self) -> SlotKind {
        match self {
            SlotView::OneWire(_) => SlotKind::OneWire,
            SlotView::Gpio { cam, .. } => SlotKind::Gpio { rotation_sensor: cam is Some },
        }
    }

    /// How the slot is shown: the one-wire id, or the offsets of its lines
    /// with a dot between them.
    pub open spec fn display(self) -> Seq<char> {
        match self {
            SlotView::OneWire(id) => id,
            SlotView::Gpio { vend, stocked, cam } => decimal(vend.offset as nat) + seq!['.']
                + decimal(stocked.offset as nat) + match cam {
                Some(line) => seq!['.'] + decimal(line.offset as nat),
                None => Seq::empty(),
            },
        }
    }
}

impl View for SlotConfig {
    type V = SlotView;

    open spec fn view(&self) -> SlotView {
        match self {
            SlotConfig::OWFS(id) => SlotView::OneWire(id@),
            SlotConfig::GPIO { vend, stocked, cam } => SlotView::Gpio {
                vend: *vend,
                stocked: *stocked,
                cam: *cam,
            },
        }
    }
}

impl SlotConfig {
    /// What the sequencer needs to know of the slot.
    pub fn kind(&self) -> (kind: SlotKind)
        ensures
            kind == self@.kind(),
    {
        match self {
            SlotConfig::OWFS(_) => SlotKind::OneWire,
            SlotConfig::GPIO { cam, .. } => SlotKind::Gpio { rotation_sensor: cam.is_some() },
        }
    }

    /// How the slot is shown: the one-wire id, or
    /// `<vend>.<stocked>[.<rotation>]`, each line by its offset.
    pub fn to_string(&self) -> (text: String)
        ensures
            text@ == self@.display(),
    {
        match self {
            SlotConfig::OWFS(id) => id.clone(),
            SlotConfig::GPIO { vend, stocked, cam } => {
                proof {
                    reveal_strlit(".");
                    assert("."@ =~= seq!['.']);
                }
                let mut text = String::new();
                push_decimal(&mut text, vend.offset as u64);
                text.append(".");
                push_decimal(&mut text, stocked.offset as u64);
                match cam {
                    Some(line) => {
                        text.append(".");
                        push_decimal(&mut text, line.offset as u64);
                    },
                    None => {},
                }
                assert(text@ =~= self@.display());
                text
            },
        }
    }
}

/// The shared latch: the output line that holds it open.
#[derive(Clone, Copy, PartialEq, Eq, Debug, Structural)]
pub struct Latch {
    pub line: HardwareLine,
}

impl Latch {
    /// The latch on `line`.
    pub fn new(line: HardwareLine) -> (latch: Latch)
        ensures
            latch.line == line,
    {
        Latch { line }
    }

    /// The request to submit at time `now`: the instant until which the
    /// latch is to stay open, one minute on. Times are milliseconds on the
    /// clock of the latch worker.
    pub fn open(&self, now: u64) -> (deadline: u64)
        requires
            now + LATCH_OPEN_MS <= u64::MAX,
        ensures
            deadline == now + LATCH_OPEN_MS,
    {
        now + LATCH_OPEN_MS
    }
}

/// Why a configuration was refused.
#[derive(Clone, Copy, PartialEq, Eq, Debug, Structural)]
pub enum ConfigError {
    /// Neither one-wire ids nor vend pins are given.
    MissingVendPins,
    /// Vend pins are given without stocked pins.
    MissingStockedPins,
    /// A pin is not written `<offset>[:<chip>]`.
    BadPin,
    /// No temperature sensor is named.
    MissingTempAddress,
    /// The latch pin is no number.
    BadLatchPin,
    /// No hold is given.
    MissingDropDelay,
    /// The hold is no number of milliseconds.
    BadDropDelay,
}

/// The texts a configuration is read from; `None` where one is not set.
#[derive(Clone, Debug, Default, PartialEq, Eq)]
pub struct Settings {
    /// One-wire device ids, separated by commas.
    pub slot_addresses: Option<String>,
    /// Vend pins, separated by commas.
    pub vend_pins: Option<String>,
    /// Stocked pins, separated by commas.
    pub stocked_pins: Option<String>,
    /// Rotation sensor pins, separated by commas.
    pub cam_pins: Option<String>,
    /// `1` where the stocked inputs are active low.
    pub active_low: Option<String>,
    /// The one-wire id of the temperature sensor; empty for none.
    pub temp_address: Option<String>,
    /// The offset of the latch line on the first chip.
    pub latch_pin: Option<String>,
    /// The hold after an energize, in milliseconds.
    pub drop_delay: Option<String>,
}

/// What the settings hold.
pub struct SettingsView {
    pub slot_addresses: Option<Seq<char>>,
    pub vend_pins: Option<Seq<char>>,
    pub stocked_pins: Option<Seq<char>>,
    pub cam_pins: Option<Seq<char>>,
    pub active_low: Option<Seq<char>>,
    pub temp_address: Option<Seq<char>>,
    pub latch_pin: Option<Seq<char>>,
    pub drop_delay: Option<Seq<char>>,
}

/// What an optional text holds.
pub open spec fn text_view(text: Option<String>) -> Option<Seq<char>> {
    match text {
        Some(s) => Some(s@),
        None => None,
    }
}

impl View for Settings {
    type V = SettingsView;

    open spec fn view(&self) -> SettingsView {
        SettingsView {
            slot_addresses: text_view(self.slot_addresses),
            vend_pins: text_view(self.vend_pins),
            stocked_pins: text_view(self.stocked_pins),
            cam_pins: text_view(self.cam_pins),
            active_low: text_view(self.active_low),
            temp_address: text_view(self.temp_address),
            latch_pin: text_view(self.latch_pin),
            drop_delay: text_view(self.drop_delay),
        }
    }
}

/// The configuration of a dispenser.
#[derive(Clone, Debug, PartialEq, Eq)]
pub struct ConfigData {
    /// The one-wire id of the temperature sensor; empty for none.
    pub temperature_id: String,
    /// The slots, the first of them slot 1.
    pub slots: Vec<SlotConfig>,
    /// The shared latch, if there is one.
    pub latch: Option<Latch>,
    /// The hold after an energize, in milliseconds.
    pub drop_delay: u64,
    /// Whether the stocked inputs are active low.
    pub active_low: bool,
}

/// What a configuration holds.
pub struct ConfigView {
    pub temperature_id: Seq<char>,
    pub slots: Seq<SlotView>,
    pub latch: Option<Latch>,
    pub drop_delay: u64,
    pub active_low: bool,
}

/// What each slot of `slots` holds.
pub open spec fn slot_views(slots: Seq<SlotConfig>) -> Seq<SlotView> {
    Seq::new(slots.len(), |i: int| slots[i]@)
}

impl View for ConfigData {
    type V = ConfigView;

    open spec fn view(&self) -> ConfigView {
        ConfigView {
            temperature_id: self.temperature_id@,
            slots: slot_views(self.slots@),
            latch: self.latch,
            drop_delay: self.drop_delay,
            active_low: self.active_low,
        }
    }
}

/// The line that a pin `<offset>[:<chip>]` names: both are unsigned decimal
/// numbers of 32 bits, the chip is 0 where it is left out, and what follows
/// a second colon is not read.
pub open spec fn spec_lookup_pin(pin: Seq<char>) -> Option<HardwareLine> {
    let parts = fields(pin, ':');
    let chip = if parts.len() > 1 {
        unsigned_up_to(parts[1], u32::MAX as nat)
    } else {
        Some(0nat)
    };
    match (unsigned_up_to(parts[0], u32::MAX as nat), chip) {
        (Some(offset), Some(chip)) => Some(
            HardwareLine { offset: offset as u32, chip: chip as u32 },
        ),
        _ => None,
    }
}

/// The slot that three pins describe, if each of them names a line.
pub open spec fn spec_gpio_slot(
    vend: Seq<char>,
    stocked: Seq<char>,
    cam: Option<Seq<char>>,
) -> Option<SlotView> {
    match (spec_lookup_pin(vend), spec_lookup_pin(stocked)) {
        (Some(vend), Some(stocked)) => match cam {
            None => Some(SlotView::Gpio { vend, stocked, cam: None }),
            Some(cam) => match spec_lookup_pin(cam) {
                Some(line) => Some(SlotView::Gpio { vend, stocked, cam: Some(line) }),
                None => None,
            },
        },
        _ => None,
    }
}

/// The `i`-th slot of three lists of pins. A slot beyond the end of the
/// list of rotation sensors has none.
pub open spec fn spec_gpio_slot_at(
    vend: Seq<Seq<char>>,
    stocked: Seq<Seq<char>>,
    cam: Seq<Seq<char>>,
    i: int,
) -> Option<SlotView> {
    spec_gpio_slot(
        vend[i],
        stocked[i],
        if i < cam.len() {
            Some(cam[i])
        } else {
            None
        },
    )
}

/// How many slots two lists of pins describe: as many as the shorter holds.
pub open spec fn spec_gpio_count(vend: Seq<Seq<char>>, stocked: Seq<Seq<char>>) -> nat {
    if vend.len() <= stocked.len() {
        vend.len()
    } else {
        stocked.len()
    }
}

/// The slots that three lists of pins describe, or `BadPin` where a pin of
/// one of these slots names no line.
pub open spec fn spec_gpio_slots(
    vend: Seq<Seq<char>>,
    stocked: Seq<Seq<char>>,
    cam: Seq<Seq<char>>,
) -> Result<Seq<SlotView>, ConfigError> {
    let count = spec_gpio_count(vend, stocked);
    if forall|i: int| 0 <= i < count ==> (#[trigger] spec_gpio_slot_at(vend, stocked, cam, i))
        is Some {
        Ok(Seq::new(count, |i: int| spec_gpio_slot_at(vend, stocked, cam, i)->0))
    } else {
        Err(ConfigError::BadPin)
    }
}

/// One one-wire slot for each field of `list`.
pub open spec fn spec_one_wire_slots(list: Seq<char>) -> Seq<SlotView> {
    Seq::new(fields(list, ',').len(), |i: int| SlotView::OneWire(fields(list, ',')[i]))
}

/// The fields of an optional list; none where the list is not given.
pub open spec fn spec_optional_fields(list: Option<Seq<char>>) -> Seq<Seq<char>> {
    match list {
        Some(list) => fields(list, ','),
        None => Seq::empty(),
    }
}

/// The slots of a configuration. One-wire ids, where given, are all that is
/// read; otherwise vend and stocked pins are both needed.
pub open spec fn spec_slots(settings: SettingsView) -> Result<Seq<SlotView>, ConfigError> {
    match settings.slot_addresses {
        Some(list) => Ok(spec_one_wire_slots(list)),
        None => match settings.vend_pins {
            None => Err(ConfigError::MissingVendPins),
            Some(vend) => match settings.stocked_pins {
                None => Err(ConfigError::MissingStockedPins),
                Some(stocked) => spec_gpio_slots(
                    fields(vend, ','),
                    fields(stocked, ','),
                    spec_optional_fields(settings.cam_pins),
                ),
            },
        },
    }
}

/// The latch of a configuration: none where no pin is given, else the line
/// of that offset on the first chip.
pub open spec fn spec_latch(pin: Option<Seq<char>>) -> Result<Option<Latch>, ConfigError> {
    match pin {
        None => Ok(None),
        Some(pin) => match unsigned_up_to(pin, u32::MAX as nat) {
            Some(offset) => Ok(
                Some(Latch { line: HardwareLine { offset: offset as u32, chip: 0 } }),
            ),
            None => Err(ConfigError::BadLatchPin),
        },
    }
}

/// The hold of a configuration.
pub open spec fn spec_drop_delay(text: Option<Seq<char>>) -> Result<u64, ConfigError> {
    match text {
        None => Err(ConfigError::MissingDropDelay),
        Some(text) => match unsigned_up_to(text, u64::MAX as nat) {
            Some(delay) => Ok(delay as u64),
            None => Err(ConfigError::BadDropDelay),
        },
    }
}

/// The configuration that the settings describe, or the first thing wrong
/// with them: the slots are read first, then the temperature sensor, the
/// latch and the hold.
pub open spec fn spec_new(settings: SettingsView) -> Result<ConfigView, ConfigError> {
    match spec_slots(settings) {
        Err(error) => Err(error),
        Ok(slots) => match settings.temp_address {
            None => Err(ConfigError::MissingTempAddress),
            Some(temperature_id) => match spec_latch(settings.latch_pin) {
                Err(error) => Err(error),
                Ok(latch) => match spec_drop_delay(settings.drop_delay) {
                    Err(error) => Err(error),
                    Ok(drop_delay) => Ok(
                        ConfigView {
                            temperature_id,
                            slots,
                            latch,
                            drop_delay,
                            active_low: settings.active_low == Some(seq!['1']),
                        },
                    ),
                },
            },
        },
    }
}

/// Whether a result is the expected one: the same error, or a
/// configuration that holds what is expected.
pub open spec fn config_matches(
    result: Result<ConfigData, ConfigError>,
    expected: Result<ConfigView, ConfigError>,
) -> bool {
    match (result, expected) {
        (Ok(config), Ok(view)) => config@ == view,
        (Err(error), Err(expected)) => error == expected,
        _ => false,
    }
}

/// Reads a pin `<offset>[:<chip>]`.
pub fn lookup_pin(pin: &str) -> (line: Option<HardwareLine>)
    ensures
        line == spec_lookup_pin(pin@),
{
    let parts = split(pin, ':');
    proof {
        lemma_fields_join(pin@, ':');
        assert(views(parts@)[0] == parts@[0]@);
    }
    let chip: u32 = if parts.len() > 1 {
        assert(views(parts@)[1] == parts@[1]@);
        match parse_u32(parts[1].as_str()) {
            Some(chip) => chip,
            None => {
                return None;
            },
        }
    } else {
        0
    };
    match parse_u32(parts[0].as_str()) {
        Some(offset) => Some(HardwareLine { offset, chip }),
        None => None,
    }
}

/// Reads the slot that three pins describe.
fn gpio_slot(vend: &str, stocked: &str, cam: Option<&str>) -> (slot: Option<SlotConfig>)
    ensures
        slot is Some <==> spec_gpio_slot(
            vend@,
            stocked@,
            match cam {
                Some(cam) => Some(cam@),
                None => None,
            },
        ) is Some,
        slot is Some ==> slot->0@ == spec_gpio_slot(
            vend@,
            stocked@,
            match cam {
                Some(cam) => Some(cam@),
                None => None,
            },
        )->0,
{
    let vend = match lookup_pin(vend) {
        Some(line) => line,
        None => {
            return None;
        },
    };
    let stocked = match lookup_pin(stocked) {
        Some(line) => line,
        None => {
            return None;
        },
    };
    match cam {
        None => Some(SlotConfig::GPIO { vend, stocked, cam: None }),
        Some(cam) => match lookup_pin(cam) {
            Some(line) => Some(SlotConfig::GPIO { vend, stocked, cam: Some(line) }),
            None => None,
        },
    }
}

/// Reads the slots that three lists of pins describe.
fn gpio_slots(vend: &Vec<String>, stocked: &Vec<String>, cam: &Vec<String>) -> (slots: Result<
    Vec<SlotConfig>,
    ConfigError,
>)
    ensures
        match (slots, spec_gpio_slots(views(vend@), views(stocked@), views(cam@))) {
            (Ok(slots), Ok(expected)) => slot_views(slots@) == expected,
            (Err(error), Err(expected)) => error == expected,
            _ => false,
        },
{
    let count: usize = if vend.len() <= stocked.len() {
        vend.len()
    } else {
        stocked.len()
    };
    let ghost v = views(vend@);
    let ghost s = views(stocked@);
    let ghost c = views(cam@);
    let mut slots: Vec<SlotConfig> = Vec::new();
    let mut i: usize = 0;
    while i < count
        invariant
            i <= count,
            count == spec_gpio_count(v, s),
            v == views(vend@),
            s == views(stocked@),
            c == views(cam@),
            slots@.len() == i,
            forall|j: int|
                0 <= j < i ==> (#[trigger] spec_gpio_slot_at(v, s, c, j)) == Some(slots@[j]@),
        decreases count - i,
    {
        let sensor: Option<&str> = if i < cam.len() {
            Some(cam[i].as_str())
        } else {
            None
        };
        match gpio_slot(vend[i].as_str(), stocked[i].as_str(), sensor) {
            Some(slot) => {
                slots.push(slot);
            },
            None => {
                assert(spec_gpio_slot_at(v, s, c, i as int) is None);
                return Err(ConfigError::BadPin);
            },
        }
        i = i + 1;
    }
    assert(slot_views(slots@) =~= Seq::new(
        count as nat,
        |i: int| spec_gpio_slot_at(v, s, c, i)->0,
    ));
    Ok(slots)
}

/// One one-wire slot for each field of `list`.
fn one_wire_slots(list: &str) -> (slots: Vec<SlotConfig>)
    ensures
        slot_views(slots@) == spec_one_wire_slots(list@),
{
    let ids = split(list, ',');
    let mut slots: Vec<SlotConfig> = Vec::new();
    let mut i: usize = 0;
    while i < ids.len()
        invariant
            i <= ids.len(),
            views(ids@) == fields(list@, ','),
            slots@.len() == i,
            forall|j: int| 0 <= j < i ==> (#[trigger] slots@[j]@) == SlotView::OneWire(ids@[j]@),
        decreases ids.len() - i,
    {
        slots.push(SlotConfig::OWFS(ids[i].clone()));
        i = i + 1;
    }
    proof {
        assert forall|j: int| 0 <= j < slots@.len() implies slot_views(slots@)[j]
            == spec_one_wire_slots(list@)[j] by {
            assert(views(ids@)[j] == ids@[j]@);
        }
        assert(slot_views(slots@) =~= spec_one_wire_slots(list@));
    }
    slots
}

/// The fields of an optional list.
fn optional_fields(list: &Option<String>) -> (pieces: Vec<String>)
    ensures
        views(pieces@) == spec_optional_fields(text_view(*list)),
{
    match list {
        Some(list) => split(list.as_str(), ','),
        None => {
            let pieces: Vec<String> = Vec::new();
            assert(views(pieces@) =~= Seq::<Seq<char>>::empty());
            pieces
        },
    }
}

/// Whether a text is `1`.
fn is_one(text: &Option<String>) -> (one: bool)
    ensures
        one <==> text_view(*text) == Some(seq!['1']),
{
    match text {
        Some(text) => {
            let text = text.as_str();
            if text.unicode_len() == 1 && text.get_char(0) == '1' {
                assert(text@ =~= seq!['1']);
                true
            } else {
                assert(text@.len() != 1 || text@[0] != '1');
                assert(seq!['1'].len() == 1 && seq!['1'][0] == '1');
                false
            }
        },
        None => false,
    }
}

impl ConfigData {
    /// Reads the slots of a configuration.
    fn slots(settings: &Settings) -> (slots: Result<Vec<SlotConfig>, ConfigError>)
        ensures
            match (slots, spec_slots(settings@)) {
                (Ok(slots), Ok(expected)) => slot_views(slots@) == expected,
                (Err(error), Err(expected)) => error == expected,
                _ => false,
            },
    {
        match &settings.slot_addresses {
            Some(list) => Ok(one_wire_slots(list.as_str())),
            None => match &settings.vend_pins {
                None => Err(ConfigError::MissingVendPins),
                Some(vend) => match &settings.stocked_pins {
                    None => Err(ConfigError::MissingStockedPins),
                    Some(stocked) => {
                        let vend = split(vend.as_str(), ',');
                        let stocked = split(stocked.as_str(), ',');
                        let cam = optional_fields(&settings.cam_pins);
                        gpio_slots(&vend, &stocked, &cam)
                    },
                },
            },
        }
    }

    /// Reads a configuration from its settings.
    ///
    /// The result is the configuration that [`spec_new`] describes, or the
    /// first thing wrong with the settings:
    ///
    /// * with one-wire ids, each field of the list is a slot; nothing else
    ///   is read of the pins;
    /// * without them, the vend and the stocked pins are needed
    ///   (`MissingVendPins`, `MissingStockedPins`), there are as many slots
    ///   as the shorter list holds, and each pin of these slots must name a
    ///   line (`BadPin`);
    /// * a temperature sensor is needed (`MissingTempAddress`);
    /// * a latch pin, where given, must be a number (`BadLatchPin`);
    /// * the hold is needed and must be a number (`MissingDropDelay`,
    ///   `BadDropDelay`).
    pub fn new(settings: &Settings) -> (config: Result<ConfigData, ConfigError>)
        ensures
            config_matches(config, spec_new(settings@)),
    {
        let slots = match Self::slots(settings) {
            Ok(slots) => slots,
            Err(error) => {
                return Err(error);
            },
        };
        let temperature_id = match &settings.temp_address {
            Some(id) => id.clone(),
            None => {
                return Err(ConfigError::MissingTempAddress);
            },
        };
        let latch = match &settings.latch_pin {
            None => None,
            Some(pin) => match parse_u32(pin.as_str()) {
                Some(offset) => Some(Latch::new(HardwareLine { offset, chip: 0 })),
                None => {
                    return Err(ConfigError::BadLatchPin);
                },
            },
        };
        let drop_delay = match &settings.drop_delay {
            None => {
                return Err(ConfigError::MissingDropDelay);
            },
            Some(text) => match parse_u64(text.as_str()) {
                Some(delay) => delay,
                None => {
                    return Err(ConfigError::BadDropDelay);
                },
            },
        };
        let active_low = is_one(&settings.active_low);
        Ok(ConfigData { temperature_id, slots, latch, drop_delay, active_low })
    }
}

} // verus!
