//! Per-fan configuration: thresholds, curve shape and the full-speed override.

use vstd::prelude::*;
use vstd::string::*;
use ini::{Ini, ParseError, Properties};
use crate::error::Error;
use crate::text::{
    decimal, decimal_string, lemma_decimal_injective, lemma_decimal_reads_back, parse_unsigned,
    parse_unsigned_in, same_text,
};

verus! {

/// `ini::Ini`, an INI document. Verus cannot look into it; its named
/// sections are `ini_sections`.
#[verifier::external_type_specification]
#[verifier::external_body]
pub struct ExIni(Ini);

/// `ini::Properties`, the keys and values of one section. Verus cannot look
/// into it; what a lookup finds there is `properties_map`.
#[verifier::external_type_specification]
#[verifier::external_body]
pub struct ExProperties(Properties);

/// `ini::ParseError`, the reason a text is no INI document. Nothing is said
/// of what it holds.
#[verifier::external_type_specification]
#[verifier::external_body]
pub struct ExParseError(ParseError);

/// The named sections of an INI document: under each name the properties
/// that a lookup of the section finds.
pub uninterp spec fn ini_sections(ini: Ini) -> Map<Seq<char>, Map<Seq<char>, Seq<char>>>;

/// The properties of a section: under each key the value that a lookup of
/// the key finds.
pub uninterp spec fn properties_map(properties: Properties) -> Map<Seq<char>, Seq<char>>;

/// The named sections that a text holds when read as an INI document, or
/// nothing where the text is malformed.
pub uninterp spec fn parsed_ini(text: Seq<char>) -> Option<Map<Seq<char>, Map<Seq<char>, Seq<char>>>>;

/// `Ini::load_from_str`: reads a text as an INI document. Whether that
/// succeeds and what the document then holds depends on the text alone.
#[verifier::external_body]
fn ini_load(text: &str) -> (loaded: Result<Ini, ParseError>)
    ensures
        loaded is Ok <==> parsed_ini(text@) is Some,
        loaded matches Ok(ini) ==> Some(ini_sections(ini)) == parsed_ini(text@),
{
    Ini::load_from_str(text)
}

/// `Ini::section` with a name: the properties of the section of that name,
/// or nothing where the document has no such section.
#[verifier::external_body]
fn ini_section<'a>(ini: &'a Ini, name: &str) -> (section: Option<&'a Properties>)
    ensures
        section is Some <==> ini_sections(*ini).dom().contains(name@),
        section matches Some(properties) ==> properties_map(*properties) == ini_sections(
            *ini,
        )[name@],
{
    ini.section(Some(name))
}

/// `Properties::get`: the value under a key, or nothing where the section
/// has no such key.
#[verifier::external_body]
fn properties_get<'a>(properties: &'a Properties, key: &str) -> (value: Option<&'a str>)
    ensures
        value is Some <==> properties_map(*properties).dom().contains(key@),
        value matches Some(text) ==> text@ == properties_map(*properties)[key@],
{
    properties.get(key)
}

/// `Ini::new`: a document without named sections.
#[verifier::external_body]
fn ini_new() -> (ini: Ini)
    ensures
        ini_sections(ini).dom() == Set::<Seq<char>>::empty(),
{
    Ini::new()
}

/// `Ini::with_section` and `SectionSetter::set`: puts a value under a key
/// of a named section, replacing what the key held and making the section
/// where there was none. Other keys and other sections stay as they were.
#[verifier::external_body]
fn ini_set(ini: &mut Ini, section: &str, key: &str, value: String)
    ensures
        ini_sections(*final(ini)) == ini_sections(*old(ini)).insert(
            section@,
            section_or_empty(ini_sections(*old(ini)), section@).insert(key@, value@),
        ),
{
    ini.with_section(Some(section)).set(key, value);
}

/// The properties of a section, or none where there is no such section.
pub open spec fn section_or_empty(
    sections: Map<Seq<char>, Map<Seq<char>, Seq<char>>>,
    name: Seq<char>,
) -> Map<Seq<char>, Seq<char>> {
    if sections.dom().contains(name) {
        sections[name]
    } else {
        Map::empty()
    }
}

/// The name of the section that configures the fan with this number.
pub open spec fn spec_section_name(number: nat) -> Seq<char> {
    "Fan"@ + decimal(number)
}

/// `format!` of `Fan` and a number: the three letters, then the number in
/// decimal digits without sign, padding or leading zeros.
#[verifier::external_body]
pub(crate) fn section_name(number: usize) -> (name: String)
    ensures
        name@ == spec_section_name(number as nat),
{
    format!("Fan{number}")
}

/// The shape of the ramp between the two temperature thresholds.
#[derive(Clone, Copy, Debug, PartialEq, Eq, Structural)]
pub enum SpeedCurve {
    Linear,
    Exponential,
    Logarithmic,
}

/// One fan's settings, fixed once loaded.
#[derive(Clone, Copy, Debug, PartialEq, Eq)]
pub struct FanConfig {
    /// At or below this temperature the fan runs at its minimum speed.
    pub low_temp: u8,
    /// At or above this temperature the fan runs at its maximum speed.
    pub high_temp: u8,
    /// How the speed rises between the two thresholds.
    pub speed_curve: SpeedCurve,
    /// Run at maximum speed whatever the temperature.
    pub always_full_speed: bool,
}

impl SpeedCurve {
    /// The curve's name as configuration files spell it.
    pub open spec fn spec_name(self) -> Seq<char> {
        match self {
            SpeedCurve::Linear => "linear"@,
            SpeedCurve::Exponential => "exponential"@,
            SpeedCurve::Logarithmic => "logarithmic"@,
        }
    }

    /// The curve that a name spells, if it spells one.
    pub open spec fn spec_from_str(s: Seq<char>) -> Option<SpeedCurve> {
        if s == "linear"@ {
            Some(SpeedCurve::Linear)
        } else if s == "exponential"@ {
            Some(SpeedCurve::Exponential)
        } else if s == "logarithmic"@ {
            Some(SpeedCurve::Logarithmic)
        } else {
            None
        }
    }

    /// The curve's name as configuration files spell it.
    pub fn name(&self) -> (name: &'static str)
        ensures
            name@ == self.spec_name(),
    {
        match self {
            SpeedCurve::Linear => "linear",
            SpeedCurve::Exponential => "exponential",
            SpeedCurve::Logarithmic => "logarithmic",
        }
    }

    /// Reads a curve's name: `linear`, `exponential` or `logarithmic`,
    /// spelled exactly so.
    pub fn from_str(s: &str) -> (curve: Result<SpeedCurve, ()>)
        ensures
            match SpeedCurve::spec_from_str(s@) {
                Some(c) => curve == Ok::<SpeedCurve, ()>(c),
                None => curve is Err,
            },
    {
        if same_text(s, "linear") {
            Ok(SpeedCurve::Linear)
        } else if same_text(s, "exponential") {
            Ok(SpeedCurve::Exponential)
        } else if same_text(s, "logarithmic") {
            Ok(SpeedCurve::Logarithmic)
        } else {
            Err(())
        }
    }
}

/// The truth value that a text spells: `true` or `false`, spelled exactly so.
pub open spec fn spec_parse_bool(s: Seq<char>) -> Option<bool> {
    if s == "true"@ {
        Some(true)
    } else if s == "false"@ {
        Some(false)
    } else {
        None
    }
}

/// The temperature that a text writes: an unsigned decimal number up to 255.
pub open spec fn spec_parse_u8(s: Seq<char>) -> Option<u8> {
    match parse_unsigned(s, 255) {
        Some(n) => Some(n as u8),
        None => None,
    }
}

/// The settings that a section's properties spell. The four keys are read
/// in the order `low_temp`, `high_temp`, `speed_curve`,
/// `always_full_speed`; the first that is missing or unreadable is the
/// error. Thresholds out of order are an invalid `high_temp`.
pub open spec fn spec_config_from(properties: Map<Seq<char>, Seq<char>>) -> Result<
    FanConfig,
    Error,
> {
    if !properties.dom().contains("low_temp"@) {
        Err(Error::MissingConfigValue("low_temp"))
    } else if spec_parse_u8(properties["low_temp"@]) is None {
        Err(Error::InvalidConfigValue("low_temp"))
    } else if !properties.dom().contains("high_temp"@) {
        Err(Error::MissingConfigValue("high_temp"))
    } else if spec_parse_u8(properties["high_temp"@]) is None {
        Err(Error::InvalidConfigValue("high_temp"))
    } else if !properties.dom().contains("speed_curve"@) {
        Err(Error::MissingConfigValue("speed_curve"))
    } else if SpeedCurve::spec_from_str(properties["speed_curve"@]) is None {
        Err(Error::InvalidConfigValue("speed_curve"))
    } else if !properties.dom().contains("always_full_speed"@) {
        Err(Error::MissingConfigValue("always_full_speed"))
    } else if spec_parse_bool(properties["always_full_speed"@]) is None {
        Err(Error::InvalidConfigValue("always_full_speed"))
    } else {
        let config = FanConfig {
            low_temp: spec_parse_u8(properties["low_temp"@])->0,
            high_temp: spec_parse_u8(properties["high_temp"@])->0,
            speed_curve: SpeedCurve::spec_from_str(properties["speed_curve"@])->0,
            always_full_speed: spec_parse_bool(properties["always_full_speed"@])->0,
        };
        if config.valid() {
            Ok(config)
        } else {
            Err(Error::InvalidConfigValue("high_temp"))
        }
    }
}

/// The settings of the fans numbered 1 to `fan_count` in a document: each
/// from the section named after its number. The first fan without a
/// section, or with a section that spells no settings, is the error.
pub open spec fn spec_configs(
    sections: Map<Seq<char>, Map<Seq<char>, Seq<char>>>,
    fan_count: nat,
) -> Result<Seq<FanConfig>, Error>
    decreases fan_count,
{
    if fan_count == 0 {
        Ok(Seq::empty())
    } else {
        match spec_configs(sections, (fan_count - 1) as nat) {
            Err(error) => Err(error),
            Ok(configs) => if !sections.dom().contains(spec_section_name(fan_count)) {
                Err(Error::MissingFanConfig(fan_count as usize))
            } else {
                match spec_config_from(sections[spec_section_name(fan_count)]) {
                    Err(error) => Err(error),
                    Ok(config) => Ok(configs.push(config)),
                }
            },
        }
    }
}

/// The properties that spell a fan's settings.
pub open spec fn spec_properties_of(config: FanConfig) -> Map<Seq<char>, Seq<char>> {
    Map::<Seq<char>, Seq<char>>::empty().insert(
        "low_temp"@,
        decimal(config.low_temp as nat),
    ).insert("high_temp"@, decimal(config.high_temp as nat)).insert(
        "speed_curve"@,
        config.speed_curve.spec_name(),
    ).insert(
        "always_full_speed"@,
        if config.always_full_speed {
            "true"@
        } else {
            "false"@
        },
    )
}

/// The document that gives each of the fans numbered 1 to `fan_count` a
/// section with the default settings.
pub open spec fn spec_default_sections(fan_count: nat) -> Map<
    Seq<char>,
    Map<Seq<char>, Seq<char>>,
>
    decreases fan_count,
{
    if fan_count == 0 {
        Map::empty()
    } else {
        spec_default_sections((fan_count - 1) as nat).insert(
            spec_section_name(fan_count),
            spec_properties_of(spec_default_config()),
        )
    }
}

/// The settings of a fan that nobody configured: a linear ramp from 55 to
/// 75 degrees.
pub open spec fn spec_default_config() -> FanConfig {
    FanConfig {
        low_temp: 55,
        high_temp: 75,
        speed_curve: SpeedCurve::Linear,
        always_full_speed: false,
    }
}

/// Reads a temperature threshold.
fn parse_u8(s: &str) -> (parsed: Option<u8>)
    ensures
        parsed == spec_parse_u8(s@),
{
    let len = s.unicode_len();
    assert(s@.subrange(0, len as int) =~= s@);
    match parse_unsigned_in(s, 0, len, 255) {
        Some(n) => Some(n as u8),
        None => None,
    }
}

/// Reads a truth value.
fn parse_bool(s: &str) -> (parsed: Option<bool>)
    ensures
        parsed == spec_parse_bool(s@),
{
    if same_text(s, "true") {
        Some(true)
    } else if same_text(s, "false") {
        Some(false)
    } else {
        None
    }
}

impl FanConfig {
    /// The thresholds leave room for a ramp: the low one lies below the high one.
    pub open spec fn valid(self) -> bool {
        self.low_temp < self.high_temp
    }

    /// Whether the low threshold lies below the high one.
    pub fn is_valid(&self) -> (ok: bool)
        ensures
            ok == self.valid(),
    {
        self.low_temp < self.high_temp
    }

    /// Reads a fan's settings out of its section. All four keys must be
    /// there and readable, and the low threshold below the high one.
    pub fn from_properties(properties: &Properties) -> (config: Result<FanConfig, Error>)
        ensures
            config == spec_config_from(properties_map(*properties)),
    {
        let low_temp = match properties_get(properties, "low_temp") {
            None => { return Err(Error::MissingConfigValue("low_temp")); },
            Some(text) => match parse_u8(text) {
                None => { return Err(Error::InvalidConfigValue("low_temp")); },
                Some(value) => value,
            },
        };
        let high_temp = match properties_get(properties, "high_temp") {
            None => { return Err(Error::MissingConfigValue("high_temp")); },
            Some(text) => match parse_u8(text) {
                None => { return Err(Error::InvalidConfigValue("high_temp")); },
                Some(value) => value,
            },
        };
        let speed_curve = match properties_get(properties, "speed_curve") {
            None => { return Err(Error::MissingConfigValue("speed_curve")); },
            Some(text) => match SpeedCurve::from_str(text) {
                Err(_) => { return Err(Error::InvalidConfigValue("speed_curve")); },
                Ok(value) => value,
            },
        };
        let always_full_speed = match properties_get(properties, "always_full_speed") {
            None => { return Err(Error::MissingConfigValue("always_full_speed")); },
            Some(text) => match parse_bool(text) {
                None => { return Err(Error::InvalidConfigValue("always_full_speed")); },
                Some(value) => value,
            },
        };
        let config = FanConfig { low_temp, high_temp, speed_curve, always_full_speed };
        if config.is_valid() {
            Ok(config)
        } else {
            Err(Error::InvalidConfigValue("high_temp"))
        }
    }

    /// Writes the settings into a section of a document, one key each.
    pub fn write_property(self, ini: &mut Ini, section: &str)
        ensures
            ini_sections(*final(ini)) == ini_sections(*old(ini)).insert(
                section@,
                section_or_empty(ini_sections(*old(ini)), section@).union_prefer_right(
                    spec_properties_of(self),
                ),
            ),
    {
        let ghost before = ini_sections(*ini);
        ini_set(ini, section, "low_temp", decimal_string(self.low_temp as u32));
        ini_set(ini, section, "high_temp", decimal_string(self.high_temp as u32));
        ini_set(ini, section, "speed_curve", self.speed_curve.name().to_owned());
        ini_set(
            ini,
            section,
            "always_full_speed",
            if self.always_full_speed {
                "true".to_owned()
            } else {
                "false".to_owned()
            },
        );
        assert(ini_sections(*ini)[section@] =~= section_or_empty(before, section@).union_prefer_right(
            spec_properties_of(self),
        ));
        assert(ini_sections(*ini) =~= before.insert(
            section@,
            section_or_empty(before, section@).union_prefer_right(spec_properties_of(self)),
        ));
    }
}

impl Default for FanConfig {
    /// A linear ramp from 55 to 75 degrees.
    fn default() -> (config: FanConfig)
        ensures
            config == spec_default_config(),
    {
        FanConfig {
            low_temp: 55,
            high_temp: 75,
            speed_curve: SpeedCurve::Linear,
            always_full_speed: false,
        }
    }
}

/// The settings of the fans numbered 1 to `fan_count` in a document: each
/// from the section named `Fan` and its number.
pub fn configs_from_ini(ini: &Ini, fan_count: usize) -> (configs: Result<Vec<FanConfig>, Error>)
    ensures
        match spec_configs(ini_sections(*ini), fan_count as nat) {
            Ok(expected) => configs matches Ok(found) && found@ == expected,
            Err(error) => configs matches Err(e) && e == error,
        },
{
    let mut configs: Vec<FanConfig> = Vec::new();
    let mut done: usize = 0;
    while done < fan_count
        invariant
            done <= fan_count,
            spec_configs(ini_sections(*ini), done as nat) == Ok::<Seq<FanConfig>, Error>(configs@),
        decreases fan_count - done,
    {
        let number = done + 1;
        let name = section_name(number);
        let section = match ini_section(ini, name.as_str()) {
            Some(section) => section,
            None => {
                proof {
                    lemma_configs_error_stays(ini_sections(*ini), number as nat, fan_count as nat);
                }
                return Err(Error::MissingFanConfig(number));
            },
        };
        match FanConfig::from_properties(section) {
            Ok(config) => {
                configs.push(config);
            },
            Err(error) => {
                proof {
                    lemma_configs_error_stays(ini_sections(*ini), number as nat, fan_count as nat);
                }
                return Err(error);
            },
        }
        done = number;
    }
    Ok(configs)
}

/// An error among the first fans is the error of the whole.
pub proof fn lemma_configs_error_stays(
    sections: Map<Seq<char>, Map<Seq<char>, Seq<char>>>,
    upto: nat,
    fan_count: nat,
)
    requires
        upto <= fan_count,
        spec_configs(sections, upto) is Err,
    ensures
        spec_configs(sections, fan_count) == spec_configs(sections, upto),
    decreases fan_count,
{
    if upto < fan_count {
        lemma_configs_error_stays(sections, upto, (fan_count - 1) as nat);
    }
}

/// Reads the settings of the fans numbered 1 to `fan_count` out of the text
/// of a configuration file.
pub fn parse_config_file(file_raw: &str, fan_count: usize) -> (configs: Result<
    Vec<FanConfig>,
    Error,
>)
    ensures
        match parsed_ini(file_raw@) {
            None => configs matches Err(e) && e == Error::ConfigParse,
            Some(sections) => match spec_configs(sections, fan_count as nat) {
                Ok(expected) => configs matches Ok(found) && found@ == expected,
                Err(error) => configs matches Err(e) && e == error,
            },
        },
{
    match ini_load(file_raw) {
        Ok(ini) => configs_from_ini(&ini, fan_count),
        Err(_) => Err(Error::ConfigParse),
    }
}

/// The default settings for each of `fan_count` fans, and the document to
/// save in which every fan has its section.
pub fn generate_config_file(fan_count: usize) -> (made: (Vec<FanConfig>, Ini))
    ensures
        made.0@ == Seq::new(fan_count as nat, |i: int| spec_default_config()),
        ini_sections(made.1) == spec_default_sections(fan_count as nat),
{
    let mut ini = ini_new();
    let mut configs: Vec<FanConfig> = Vec::new();
    let mut done: usize = 0;
    while done < fan_count
        invariant
            done <= fan_count,
            configs@ == Seq::new(done as nat, |i: int| spec_default_config()),
            ini_sections(ini) == spec_default_sections(done as nat),
        decreases fan_count - done,
    {
        let number = done + 1;
        let config = FanConfig::default();
        configs.push(config);
        let name = section_name(number);
        let ghost before = ini_sections(ini);
        config.write_property(&mut ini, name.as_str());
        proof {
            if before.dom().contains(name@) {
                lemma_default_sections(done as nat, name@);
            }
            assert(section_or_empty(before, name@).union_prefer_right(
                spec_properties_of(config),
            ) =~= spec_properties_of(config));
            assert(configs@ =~= Seq::new(number as nat, |i: int| spec_default_config()));
        }
        done = number;
    }
    (configs, ini)
}

/// Every section of the default document holds the default settings.
pub proof fn lemma_default_sections(fan_count: nat, name: Seq<char>)
    requires
        spec_default_sections(fan_count).dom().contains(name),
    ensures
        spec_default_sections(fan_count)[name] == spec_properties_of(spec_default_config()),
    decreases fan_count,
{
    if fan_count > 0 && name != spec_section_name(fan_count) {
        lemma_default_sections((fan_count - 1) as nat, name);
    }
}

/// The settings to run with, and the document to save where there was no
/// configuration file.
pub struct LoadedConfigs {
    /// One fan's settings after the other, in the fans' order.
    pub configs: Vec<FanConfig>,
    /// The document to save as the configuration file, where none was found.
    pub to_save: Option<Ini>,
}

/// Settles the fans' settings. Where the configuration file was found, its
/// text decides, and a text that does not configure every fan is refused.
/// Where none was found, every fan gets the default settings, and the
/// document that says so is handed back to be saved.
pub fn load_fan_configs(file_raw: Option<&str>, fan_count: usize) -> (loaded: Result<
    LoadedConfigs,
    Error,
>)
    ensures
        match file_raw {
            Some(text) => match parsed_ini(text@) {
                None => loaded matches Err(e) && e == Error::ConfigParse,
                Some(sections) => match spec_configs(sections, fan_count as nat) {
                    Ok(expected) => loaded matches Ok(found) && found.configs@ == expected
                        && found.to_save is None,
                    Err(error) => loaded matches Err(e) && e == error,
                },
            },
            None => {
                &&& loaded matches Ok(found)
                &&& found.configs@ == Seq::new(fan_count as nat, |i: int| spec_default_config())
                &&& found.to_save matches Some(ini)
                &&& ini_sections(ini) == spec_default_sections(fan_count as nat)
            },
        },
{
    match file_raw {
        Some(text) => match parse_config_file(text, fan_count) {
            Ok(configs) => Ok(LoadedConfigs { configs, to_save: None }),
            Err(error) => Err(error),
        },
        None => {
            let (configs, ini) = generate_config_file(fan_count);
            Ok(LoadedConfigs { configs, to_save: Some(ini) })
        },
    }
}

/// A curve's name reads back as the curve.
pub proof fn lemma_curve_name_reads_back(curve: SpeedCurve)
    ensures
        SpeedCurve::spec_from_str(curve.spec_name()) == Some(curve),
{
    reveal_strlit("linear");
    reveal_strlit("exponential");
    reveal_strlit("logarithmic");
    assert("linear"@.len() == 6 && "exponential"@.len() == 11 && "logarithmic"@.len() == 11);
    assert("exponential"@[0] == 'e' && "logarithmic"@[0] == 'l');
}

/// What `write_property` writes for settings whose thresholds are in order,
/// `from_properties` reads back as the same settings.
pub proof fn lemma_config_reads_back(config: FanConfig)
    requires
        config.valid(),
    ensures
        spec_config_from(spec_properties_of(config)) == Ok::<FanConfig, Error>(config),
{
    reveal_strlit("low_temp");
    reveal_strlit("high_temp");
    reveal_strlit("speed_curve");
    reveal_strlit("always_full_speed");
    reveal_strlit("true");
    reveal_strlit("false");
    lemma_decimal_reads_back(config.low_temp as nat, 255);
    lemma_decimal_reads_back(config.high_temp as nat, 255);
    lemma_curve_name_reads_back(config.speed_curve);
    assert("low_temp"@.len() == 8 && "high_temp"@.len() == 9 && "speed_curve"@.len() == 11
        && "always_full_speed"@.len() == 17);
    assert("true"@.len() == 4 && "false"@.len() == 5);
    let properties = spec_properties_of(config);
    assert(properties["low_temp"@] == decimal(config.low_temp as nat));
    assert(properties["high_temp"@] == decimal(config.high_temp as nat));
    assert(properties["speed_curve"@] == config.speed_curve.spec_name());
}

/// Fans with different numbers have sections with different names.
pub proof fn lemma_section_names_differ(a: nat, b: nat)
    requires
        a != b,
    ensures
        spec_section_name(a) != spec_section_name(b),
{
    if spec_section_name(a) == spec_section_name(b) {
        let prefix = "Fan"@;
        assert((prefix + decimal(a)).skip(prefix.len() as int) =~= decimal(a));
        assert((prefix + decimal(b)).skip(prefix.len() as int) =~= decimal(b));
        lemma_decimal_injective(a, b);
    }
}

/// The default document holds a section for each fan numbered 1 to
/// `fan_count`, and no section of another fan's name.
pub proof fn lemma_default_sections_names(fan_count: nat, number: nat)
    ensures
        spec_default_sections(fan_count).dom().contains(spec_section_name(number)) <==> 1
            <= number <= fan_count,
    decreases fan_count,
{
    if fan_count > 0 {
        lemma_default_sections_names((fan_count - 1) as nat, number);
        if number != fan_count {
            lemma_section_names_differ(number, fan_count);
        }
    }
}

/// The document generated for `fan_count` fans configures each of the
/// first `upto` of them with the default settings.
pub proof fn lemma_default_document_reads_back(fan_count: nat, upto: nat)
    requires
        upto <= fan_count,
    ensures
        spec_configs(spec_default_sections(fan_count), upto) == Ok::<Seq<FanConfig>, Error>(
            Seq::new(upto, |i: int| spec_default_config()),
        ),
    decreases upto,
{
    let sections = spec_default_sections(fan_count);
    if upto == 0 {
        assert(Seq::new(upto, |i: int| spec_default_config()) =~= Seq::<FanConfig>::empty());
    } else {
        lemma_default_document_reads_back(fan_count, (upto - 1) as nat);
        lemma_default_sections_names(fan_count, upto);
        lemma_default_sections(fan_count, spec_section_name(upto));
        lemma_config_reads_back(spec_default_config());
        assert(Seq::new((upto - 1) as nat, |i: int| spec_default_config()).push(
            spec_default_config(),
        ) =~= Seq::new(upto, |i: int| spec_default_config()));
    }
}

} // verus!
