use bubbler::routes::config::{
    lookup_pin, ConfigData, ConfigError, HardwareLine, Latch, Settings, SlotConfig,
};
use bubbler::routes::sequencer::SlotKind;

fn text(s: &str) -> Option<String> {
    Some(s.to_string())
}

fn one_wire_settings() -> Settings {
    Settings {
        slot_addresses: text("29.AA,29.BB,29.CC"),
        temp_address: text("28.FF"),
        drop_delay: text("250"),
        ..Settings::default()
    }
}

fn gpio_settings() -> Settings {
    Settings {
        vend_pins: text("17,27:1,22"),
        stocked_pins: text("5,6,13"),
        cam_pins: text("19:2"),
        temp_address: text(""),
        latch_pin: text("26"),
        drop_delay: text("1500"),
        ..Settings::default()
    }
}

fn pin(offset: u32, chip: u32) -> HardwareLine {
    HardwareLine { offset, chip }
}

#[test]
fn pin_without_chip_is_on_the_first_chip() {
    assert_eq!(lookup_pin("5"), Some(pin(5, 0)));
    assert_eq!(lookup_pin("0"), Some(pin(0, 0)));
    assert_eq!(lookup_pin("4294967295"), Some(pin(4294967295, 0)));
}

#[test]
fn pin_with_chip_names_both() {
    assert_eq!(lookup_pin("5:2"), Some(pin(5, 2)));
    assert_eq!(lookup_pin("+5:+2"), Some(pin(5, 2)));
    assert_eq!(lookup_pin("007:010"), Some(pin(7, 10)));
    assert_eq!(lookup_pin("5:1:junk"), Some(pin(5, 1)));
    assert_eq!(lookup_pin("5:1:"), Some(pin(5, 1)));
}

#[test]
fn pin_that_is_no_number_names_nothing() {
    for bad in ["", ":", "5:", ":5", "a", "5:b", "-5", "5 ", " 5", "5.0", "4294967296", "5:4294967296", "+", "5,6"] {
        assert_eq!(lookup_pin(bad), None, "{:?}", bad);
    }
}

#[test]
fn one_wire_ids_make_one_slot_each() {
    let config = ConfigData::new(&one_wire_settings()).unwrap();
    assert_eq!(
        config.slots,
        vec![
            SlotConfig::OWFS("29.AA".to_string()),
            SlotConfig::OWFS("29.BB".to_string()),
            SlotConfig::OWFS("29.CC".to_string()),
        ]
    );
    assert_eq!(config.temperature_id, "28.FF");
    assert_eq!(config.latch, None);
    assert_eq!(config.drop_delay, 250);
    assert!(!config.active_low);
}

#[test]
fn empty_list_of_ids_is_one_slot_with_an_empty_id() {
    let settings = Settings { slot_addresses: text(""), ..one_wire_settings() };
    let config = ConfigData::new(&settings).unwrap();
    assert_eq!(config.slots, vec![SlotConfig::OWFS(String::new())]);
    let settings = Settings { slot_addresses: text("a,,b,"), ..one_wire_settings() };
    let config = ConfigData::new(&settings).unwrap();
    let ids: Vec<String> = config.slots.iter().map(|slot| slot.to_string()).collect();
    assert_eq!(ids, vec!["a", "", "b", ""]);
}

#[test]
fn one_wire_ids_win_over_pins() {
    let settings = Settings { slot_addresses: text("x"), vend_pins: text("junk"), ..gpio_settings() };
    let config = ConfigData::new(&settings).unwrap();
    assert_eq!(config.slots, vec![SlotConfig::OWFS("x".to_string())]);
}

#[test]
fn pins_make_one_slot_for_each_pair() {
    let config = ConfigData::new(&gpio_settings()).unwrap();
    assert_eq!(
        config.slots,
        vec![
            SlotConfig::GPIO { vend: pin(17, 0), stocked: pin(5, 0), cam: Some(pin(19, 2)) },
            SlotConfig::GPIO { vend: pin(27, 1), stocked: pin(6, 0), cam: None },
            SlotConfig::GPIO { vend: pin(22, 0), stocked: pin(13, 0), cam: None },
        ]
    );
    assert_eq!(config.temperature_id, "");
    assert_eq!(config.latch, Some(Latch { line: pin(26, 0) }));
    assert_eq!(config.drop_delay, 1500);
}

#[test]
fn shorter_list_of_pins_decides_how_many_slots() {
    let settings = Settings { stocked_pins: text("5,6"), ..gpio_settings() };
    assert_eq!(ConfigData::new(&settings).unwrap().slots.len(), 2);
    let settings = Settings { vend_pins: text("17"), cam_pins: text("1,2,3,oops"), ..gpio_settings() };
    let config = ConfigData::new(&settings).unwrap();
    assert_eq!(
        config.slots,
        vec![SlotConfig::GPIO { vend: pin(17, 0), stocked: pin(5, 0), cam: Some(pin(1, 0)) }]
    );
    // a bad pin beyond the last slot is not read
    let settings = Settings { vend_pins: text("17"), stocked_pins: text("5,oops"), cam_pins: None, ..gpio_settings() };
    assert_eq!(ConfigData::new(&settings).unwrap().slots.len(), 1);
}

#[test]
fn missing_vend_pins_are_refused() {
    let settings = Settings { vend_pins: None, ..gpio_settings() };
    assert_eq!(ConfigData::new(&settings), Err(ConfigError::MissingVendPins));
    assert_eq!(ConfigData::new(&Settings::default()), Err(ConfigError::MissingVendPins));
}

#[test]
fn missing_stocked_pins_are_refused() {
    let settings = Settings { stocked_pins: None, ..gpio_settings() };
    assert_eq!(ConfigData::new(&settings), Err(ConfigError::MissingStockedPins));
}

#[test]
fn bad_pin_is_refused() {
    for settings in [
        Settings { vend_pins: text("17,x,22"), ..gpio_settings() },
        Settings { stocked_pins: text("5,6,13:"), ..gpio_settings() },
        Settings { cam_pins: text("19,,"), ..gpio_settings() },
        Settings { vend_pins: text(""), ..gpio_settings() },
    ] {
        assert_eq!(ConfigData::new(&settings), Err(ConfigError::BadPin));
    }
}

#[test]
fn missing_temperature_sensor_is_refused() {
    let settings = Settings { temp_address: None, ..one_wire_settings() };
    assert_eq!(ConfigData::new(&settings), Err(ConfigError::MissingTempAddress));
}

#[test]
fn bad_latch_pin_is_refused() {
    for bad in ["", "x", "26:0", "-1", "4294967296"] {
        let settings = Settings { latch_pin: text(bad), ..gpio_settings() };
        assert_eq!(ConfigData::new(&settings), Err(ConfigError::BadLatchPin));
    }
}

#[test]
fn missing_hold_is_refused() {
    let settings = Settings { drop_delay: None, ..one_wire_settings() };
    assert_eq!(ConfigData::new(&settings), Err(ConfigError::MissingDropDelay));
}

#[test]
fn bad_hold_is_refused() {
    for bad in ["", "fast", "1.5", "-3", "18446744073709551616"] {
        let settings = Settings { drop_delay: text(bad), ..one_wire_settings() };
        assert_eq!(ConfigData::new(&settings), Err(ConfigError::BadDropDelay));
    }
    let settings = Settings { drop_delay: text("18446744073709551615"), ..one_wire_settings() };
    assert_eq!(ConfigData::new(&settings).unwrap().drop_delay, u64::MAX);
}

#[test]
fn first_thing_wrong_is_reported() {
    let all_wrong = Settings {
        vend_pins: text("x"),
        stocked_pins: text("5"),
        latch_pin: text("y"),
        drop_delay: text("z"),
        ..Settings::default()
    };
    assert_eq!(ConfigData::new(&all_wrong), Err(ConfigError::BadPin));
    let settings = Settings { vend_pins: text("1"), ..all_wrong };
    assert_eq!(ConfigData::new(&settings), Err(ConfigError::MissingTempAddress));
    let settings = Settings { temp_address: text("t"), ..settings };
    assert_eq!(ConfigData::new(&settings), Err(ConfigError::BadLatchPin));
    let settings = Settings { latch_pin: None, ..settings };
    assert_eq!(ConfigData::new(&settings), Err(ConfigError::BadDropDelay));
    let settings = Settings { drop_delay: None, ..settings };
    assert_eq!(ConfigData::new(&settings), Err(ConfigError::MissingDropDelay));
}

#[test]
fn stocked_inputs_are_active_low_only_for_one() {
    for (value, expected) in [(None, false), (text("0"), false), (text("1"), true), (text("true"), false), (text("11"), false), (text(""), false), (text(" 1"), false)] {
        let settings = Settings { active_low: value, ..gpio_settings() };
        assert_eq!(ConfigData::new(&settings).unwrap().active_low, expected);
    }
}

#[test]
fn slot_is_shown_by_id_or_by_offsets() {
    assert_eq!(SlotConfig::OWFS("29.AABB".to_string()).to_string(), "29.AABB");
    let plain = SlotConfig::GPIO { vend: pin(17, 1), stocked: pin(27, 0), cam: None };
    assert_eq!(plain.to_string(), "17.27");
    let sensed = SlotConfig::GPIO { vend: pin(17, 1), stocked: pin(27, 0), cam: Some(pin(22, 3)) };
    assert_eq!(sensed.to_string(), "17.27.22");
    let wide = SlotConfig::GPIO { vend: pin(0, 0), stocked: pin(4294967295, 0), cam: Some(pin(100, 0)) };
    assert_eq!(wide.to_string(), "0.4294967295.100");
}

#[test]
fn slot_kind_follows_the_descriptor() {
    assert_eq!(SlotConfig::OWFS("a".to_string()).kind(), SlotKind::OneWire);
    let plain = SlotConfig::GPIO { vend: pin(1, 0), stocked: pin(2, 0), cam: None };
    assert_eq!(plain.kind(), SlotKind::Gpio { rotation_sensor: false });
    let sensed = SlotConfig::GPIO { vend: pin(1, 0), stocked: pin(2, 0), cam: Some(pin(3, 0)) };
    assert_eq!(sensed.kind(), SlotKind::Gpio { rotation_sensor: true });
}
