//! The run's tunable settings: three toggles and eight scale factors, read
//! from a small TOML settings file, with fixed defaults for absent keys.
//!
//! The factors are fractional values that only the color library ever
//! interprets; the settings carry each one untouched as the IEEE-754 bit
//! pattern of the 64-bit value the TOML document stores. A key that is
//! present but carries a value of the wrong type makes the whole settings
//! file invalid; a missing key falls back to its default; a document that
//! does not parse at all falls back to the default settings.

use vstd::prelude::*;

verus! {

/// The default of the install toggle.
pub const DEFAULT_AUTO_INSTALL: bool = true;

/// The default of the flicker-disable toggle.
pub const DEFAULT_DISABLE_FLICKERING: bool = true;

/// The default of the log toggle.
pub const DEFAULT_SAVE_LOG: bool = false;

/// Bit pattern of the default standard hue factor (0.6).
pub const DEFAULT_STANDARD_HUE: u64 = 0x3fe3_3333_4000_0000;

/// Bit pattern of the default standard saturation factor (0.8).
pub const DEFAULT_STANDARD_SATURATION: u64 = 0x3fe9_9999_a000_0000;

/// Bit pattern of the default standard value factor (0.57).
pub const DEFAULT_STANDARD_VALUE: u64 = 0x3fe2_3d70_a000_0000;

/// Bit pattern of the default standard radius factor (2.0).
pub const DEFAULT_STANDARD_RADIUS: u64 = 0x4000_0000_0000_0000;

/// Bit pattern of the default colored hue factor (1.0).
pub const DEFAULT_COLORED_HUE: u64 = 0x3ff0_0000_0000_0000;

/// Bit pattern of the default colored saturation factor (0.9).
pub const DEFAULT_COLORED_SATURATION: u64 = 0x3fec_cccc_c000_0000;

/// Bit pattern of the default colored value factor (0.7).
pub const DEFAULT_COLORED_VALUE: u64 = 0x3fe6_6666_6000_0000;

/// Bit pattern of the default colored radius factor (1.1).
pub const DEFAULT_COLORED_RADIUS: u64 = 0x3ff1_9999_a000_0000;

/// What a settings document holds under one key: nothing, a toggle, a
/// fractional value (as its 64-bit IEEE-754 bit pattern), or a value of
/// some other type.
#[derive(Clone, Copy, PartialEq, Eq, Structural, Debug)]
pub enum SettingValue {
    Missing,
    Flag(bool),
    Number(u64),
    Other,
}

/// The raw settings: what the document holds under each recognized key.
#[derive(Clone, Copy, PartialEq, Eq, Structural, Debug)]
pub struct RawSettings {
    pub auto_install: SettingValue,
    pub disable_flickering: SettingValue,
    pub save_log: SettingValue,
    pub standard_hue: SettingValue,
    pub standard_saturation: SettingValue,
    pub standard_value: SettingValue,
    pub standard_radius: SettingValue,
    pub colored_hue: SettingValue,
    pub colored_saturation: SettingValue,
    pub colored_value: SettingValue,
    pub colored_radius: SettingValue,
}

/// The settings a run works with.
#[derive(Clone, Copy, PartialEq, Eq, Structural, Debug)]
pub struct LightConfig {
    pub auto_install: bool,
    pub disable_flickering: bool,
    pub save_log: bool,
    pub standard_hue: u64,
    pub standard_saturation: u64,
    pub standard_value: u64,
    pub standard_radius: u64,
    pub colored_hue: u64,
    pub colored_saturation: u64,
    pub colored_value: u64,
    pub colored_radius: u64,
}

/// The fixed default settings.
pub open spec fn default_config() -> LightConfig {
    LightConfig {
        auto_install: DEFAULT_AUTO_INSTALL,
        disable_flickering: DEFAULT_DISABLE_FLICKERING,
        save_log: DEFAULT_SAVE_LOG,
        standard_hue: DEFAULT_STANDARD_HUE,
        standard_saturation: DEFAULT_STANDARD_SATURATION,
        standard_value: DEFAULT_STANDARD_VALUE,
        standard_radius: DEFAULT_STANDARD_RADIUS,
        colored_hue: DEFAULT_COLORED_HUE,
        colored_saturation: DEFAULT_COLORED_SATURATION,
        colored_value: DEFAULT_COLORED_VALUE,
        colored_radius: DEFAULT_COLORED_RADIUS,
    }
}

impl Default for LightConfig {
    /// The fixed default settings.
    fn default() -> (r: LightConfig)
        ensures
            r == default_config(),
    {
        LightConfig {
            auto_install: DEFAULT_AUTO_INSTALL,
            disable_flickering: DEFAULT_DISABLE_FLICKERING,
            save_log: DEFAULT_SAVE_LOG,
            standard_hue: DEFAULT_STANDARD_HUE,
            standard_saturation: DEFAULT_STANDARD_SATURATION,
            standard_value: DEFAULT_STANDARD_VALUE,
            standard_radius: DEFAULT_STANDARD_RADIUS,
            colored_hue: DEFAULT_COLORED_HUE,
            colored_saturation: DEFAULT_COLORED_SATURATION,
            colored_value: DEFAULT_COLORED_VALUE,
            colored_radius: DEFAULT_COLORED_RADIUS,
        }
    }
}

/// The error of a settings file that parses but carries a value of the
/// wrong type under a recognized key.
#[derive(Clone, Copy, PartialEq, Eq, Structural, Debug)]
pub enum SettingsError {
    BadValue,
}

/// What a toggle key contributes: its default when absent, its value when
/// a toggle, nothing otherwise.
pub open spec fn bool_field(v: SettingValue, default: bool) -> Option<bool> {
    match v {
        SettingValue::Missing => Some(default),
        SettingValue::Flag(b) => Some(b),
        _ => None,
    }
}

/// What a factor key contributes: its default when absent, its bit pattern
/// when a fractional value, nothing otherwise.
pub open spec fn num_field(v: SettingValue, default: u64) -> Option<u64> {
    match v {
        SettingValue::Missing => Some(default),
        SettingValue::Number(x) => Some(x),
        _ => None,
    }
}

/// The settings built from the raw key values: every key either absent or
/// of the right type, or the whole file is invalid.
pub open spec fn config_from_raw_spec(raw: RawSettings) -> Result<LightConfig, SettingsError> {
    if {
        &&& bool_field(raw.auto_install, DEFAULT_AUTO_INSTALL) is Some
        &&& bool_field(raw.disable_flickering, DEFAULT_DISABLE_FLICKERING) is Some
        &&& bool_field(raw.save_log, DEFAULT_SAVE_LOG) is Some
        &&& num_field(raw.standard_hue, DEFAULT_STANDARD_HUE) is Some
        &&& num_field(raw.standard_saturation, DEFAULT_STANDARD_SATURATION) is Some
        &&& num_field(raw.standard_value, DEFAULT_STANDARD_VALUE) is Some
        &&& num_field(raw.standard_radius, DEFAULT_STANDARD_RADIUS) is Some
        &&& num_field(raw.colored_hue, DEFAULT_COLORED_HUE) is Some
        &&& num_field(raw.colored_saturation, DEFAULT_COLORED_SATURATION) is Some
        &&& num_field(raw.colored_value, DEFAULT_COLORED_VALUE) is Some
        &&& num_field(raw.colored_radius, DEFAULT_COLORED_RADIUS) is Some
    } {
        Ok(
            LightConfig {
                auto_install: bool_field(raw.auto_install, DEFAULT_AUTO_INSTALL)->Some_0,
                disable_flickering: bool_field(
                    raw.disable_flickering,
                    DEFAULT_DISABLE_FLICKERING,
                )->Some_0,
                save_log: bool_field(raw.save_log, DEFAULT_SAVE_LOG)->Some_0,
                standard_hue: num_field(raw.standard_hue, DEFAULT_STANDARD_HUE)->Some_0,
                standard_saturation: num_field(
                    raw.standard_saturation,
                    DEFAULT_STANDARD_SATURATION,
                )->Some_0,
                standard_value: num_field(raw.standard_value, DEFAULT_STANDARD_VALUE)->Some_0,
                standard_radius: num_field(raw.standard_radius, DEFAULT_STANDARD_RADIUS)->Some_0,
                colored_hue: num_field(raw.colored_hue, DEFAULT_COLORED_HUE)->Some_0,
                colored_saturation: num_field(
                    raw.colored_saturation,
                    DEFAULT_COLORED_SATURATION,
                )->Some_0,
                colored_value: num_field(raw.colored_value, DEFAULT_COLORED_VALUE)->Some_0,
                colored_radius: num_field(raw.colored_radius, DEFAULT_COLORED_RADIUS)->Some_0,
            },
        )
    } else {
        Err(SettingsError::BadValue)
    }
}

/// Reads one toggle key's value.
fn take_bool(v: SettingValue, default: bool) -> (r: Result<bool, SettingsError>)
    ensures
        r == (match bool_field(v, default) {
            Some(b) => Ok::<bool, SettingsError>(b),
            None => Err::<bool, SettingsError>(SettingsError::BadValue),
        }),
{
    match v {
        SettingValue::Missing => Ok(default),
        SettingValue::Flag(b) => Ok(b),
        _ => Err(SettingsError::BadValue),
    }
}

/// Reads one factor key's value.
fn take_num(v: SettingValue, default: u64) -> (r: Result<u64, SettingsError>)
    ensures
        r == (match num_field(v, default) {
            Some(x) => Ok::<u64, SettingsError>(x),
            None => Err::<u64, SettingsError>(SettingsError::BadValue),
        }),
{
    match v {
        SettingValue::Missing => Ok(default),
        SettingValue::Number(x) => Ok(x),
        _ => Err(SettingsError::BadValue),
    }
}

/// Builds the settings from the raw key values; see [`config_from_raw_spec`].
pub fn config_from_raw(raw: RawSettings) -> (r: Result<LightConfig, SettingsError>)
    ensures
        r == config_from_raw_spec(raw),
{
    let auto_install = match take_bool(raw.auto_install, DEFAULT_AUTO_INSTALL) {
        Ok(b) => b,
        Err(e) => {
            return Err(e);
        },
    };
    let disable_flickering = match take_bool(raw.disable_flickering, DEFAULT_DISABLE_FLICKERING) {
        Ok(b) => b,
        Err(e) => {
            return Err(e);
        },
    };
    let save_log = match take_bool(raw.save_log, DEFAULT_SAVE_LOG) {
        Ok(b) => b,
        Err(e) => {
            return Err(e);
        },
    };
    let standard_hue = match take_num(raw.standard_hue, DEFAULT_STANDARD_HUE) {
        Ok(x) => x,
        Err(e) => {
            return Err(e);
        },
    };
    let standard_saturation = match take_num(
        raw.standard_saturation,
        DEFAULT_STANDARD_SATURATION,
    ) {
        Ok(x) => x,
        Err(e) => {
            return Err(e);
        },
    };
    let standard_value = match take_num(raw.standard_value, DEFAULT_STANDARD_VALUE) {
        Ok(x) => x,
        Err(e) => {
            return Err(e);
        },
    };
    let standard_radius = match take_num(raw.standard_radius, DEFAULT_STANDARD_RADIUS) {
        Ok(x) => x,
        Err(e) => {
            return Err(e);
        },
    };
    let colored_hue = match take_num(raw.colored_hue, DEFAULT_COLORED_HUE) {
        Ok(x) => x,
        Err(e) => {
            return Err(e);
        },
    };
    let colored_saturation = match take_num(raw.colored_saturation, DEFAULT_COLORED_SATURATION) {
        Ok(x) => x,
        Err(e) => {
            return Err(e);
        },
    };
    let colored_value = match take_num(raw.colored_value, DEFAULT_COLORED_VALUE) {
        Ok(x) => x,
        Err(e) => {
            return Err(e);
        },
    };
    let colored_radius = match take_num(raw.colored_radius, DEFAULT_COLORED_RADIUS) {
        Ok(x) => x,
        Err(e) => {
            return Err(e);
        },
    };
    Ok(
        LightConfig {
            auto_install,
            disable_flickering,
            save_log,
            standard_hue,
            standard_saturation,
            standard_value,
            standard_radius,
            colored_hue,
            colored_saturation,
            colored_value,
            colored_radius,
        },
    )
}

#[verifier::external_type_specification]
#[verifier::external_body]
#[verifier::reject_recursive_types(K)]
#[verifier::reject_recursive_types(V)]
pub struct ExTomlMap<K, V>(toml::map::Map<K, V>);

#[verifier::external_type_specification]
#[verifier::external_body]
pub struct ExTomlValue(toml::Value);

/// What a parsed settings table holds under each top-level key, each value
/// read as a raw setting value.
pub uninterp spec fn settings_entries(t: toml::Table) -> Map<Seq<char>, SettingValue>;

/// What a settings document parses to: its table's entries, or nothing
/// when the document is not well-formed TOML.
pub uninterp spec fn parsed_settings(s: Seq<char>) -> Option<Map<Seq<char>, SettingValue>>;

/// What a table of entries holds under one key; an absent key holds
/// nothing.
pub open spec fn entry_of(m: Map<Seq<char>, SettingValue>, k: Seq<char>) -> SettingValue {
    if m.dom().contains(k) {
        m[k]
    } else {
        SettingValue::Missing
    }
}

/// Relies on `toml::Table`'s `FromStr`: whether a document parses, and the
/// table it parses to, are functions of the text alone.
#[verifier::external_body]
fn parse_settings(text: &str) -> (r: Option<toml::Table>)
    ensures
        match r {
            Some(t) => parsed_settings(text@) == Some(settings_entries(t)),
            None => parsed_settings(text@) is None,
        },
{
    match text.parse::<toml::Table>() {
        Ok(t) => Some(t),
        Err(_) => None,
    }
}

/// Relies on `toml::map::Map::get`: returns the value stored under the
/// key, or nothing when the key is absent.
#[verifier::external_body]
fn get_setting(t: &toml::Table, key: &str) -> (r: SettingValue)
    ensures
        r == entry_of(settings_entries(*t), key@),
{
    match t.get(key) {
        None => SettingValue::Missing,
        Some(toml::Value::Boolean(b)) => SettingValue::Flag(*b),
        Some(toml::Value::Float(f)) => SettingValue::Number(f.to_bits()),
        Some(_) => SettingValue::Other,
    }
}

/// The raw settings a table of entries yields: each recognized key's
/// value. The saturation factors are read from the keys named
/// `standard_desaturation` and `colored_desaturation`, as the settings
/// format spells them.
pub open spec fn raw_of_entries(m: Map<Seq<char>, SettingValue>) -> RawSettings {
    RawSettings {
        auto_install: entry_of(m, "auto_install"@),
        disable_flickering: entry_of(m, "disable_flickering"@),
        save_log: entry_of(m, "save_log"@),
        standard_hue: entry_of(m, "standard_hue"@),
        standard_saturation: entry_of(m, "standard_desaturation"@),
        standard_value: entry_of(m, "standard_value"@),
        standard_radius: entry_of(m, "standard_radius"@),
        colored_hue: entry_of(m, "colored_hue"@),
        colored_saturation: entry_of(m, "colored_desaturation"@),
        colored_value: entry_of(m, "colored_value"@),
        colored_radius: entry_of(m, "colored_radius"@),
    }
}

/// Loads the settings from a settings document: a document that does not
/// parse yields the defaults, a missing key falls back to its default, and
/// a key of the wrong type makes the whole file invalid.
pub fn load_light_config(text: &str) -> (r: Result<LightConfig, SettingsError>)
    ensures
        match parsed_settings(text@) {
            Some(entries) => r == config_from_raw_spec(raw_of_entries(entries)),
            None => r == Ok::<LightConfig, SettingsError>(default_config()),
        },
{
    match parse_settings(text) {
        None => Ok(LightConfig::default()),
        Some(t) => {
            let raw = RawSettings {
                auto_install: get_setting(&t, "auto_install"),
                disable_flickering: get_setting(&t, "disable_flickering"),
                save_log: get_setting(&t, "save_log"),
                standard_hue: get_setting(&t, "standard_hue"),
                standard_saturation: get_setting(&t, "standard_desaturation"),
                standard_value: get_setting(&t, "standard_value"),
                standard_radius: get_setting(&t, "standard_radius"),
                colored_hue: get_setting(&t, "colored_hue"),
                colored_saturation: get_setting(&t, "colored_desaturation"),
                colored_value: get_setting(&t, "colored_value"),
                colored_radius: get_setting(&t, "colored_radius"),
            };
            config_from_raw(raw)
        },
    }
}

} // verus!
