//! The failures a fan daemon can meet.

use vstd::prelude::*;
use vstd::string::*;
use crate::config::{section_name, spec_section_name};

verus! {

/// Everything that can stop the daemon. Failures of the operating system
/// carry no payload here: the caller that met them keeps the cause.
#[derive(Clone, Copy, Debug, PartialEq, Eq)]
pub enum Error {
    /// The daemon was not started by root.
    NotRoot,
    /// No fan was found.
    NoFan,
    /// No CPU temperature sensor was found.
    NoCpu,
    /// A temperature sensor could not be read.
    TempRead,
    /// A temperature sensor could not be rewound.
    TempSeek,
    /// A temperature sensor's text is no unsigned decimal number.
    TempParse,
    /// The minimum fan speed could not be read.
    MinSpeedRead,
    /// The minimum fan speed is no unsigned decimal number.
    MinSpeedParse,
    /// The maximum fan speed could not be read.
    MaxSpeedRead,
    /// The maximum fan speed is no unsigned decimal number.
    MaxSpeedParse,
    /// The maximum fan speed lies below the minimum.
    InvalidSpeedRange,
    /// The pid file could not be read.
    PidRead,
    /// The pid file could not be written.
    PidWrite,
    /// The pid file could not be deleted.
    PidDelete,
    /// Another instance is running.
    AlreadyRunning,
    /// The default configuration file could not be created.
    ConfigCreate,
    /// The configuration file could not be read.
    ConfigRead,
    /// The configuration file is no well-formed INI text.
    ConfigParse,
    /// The configuration file has no section for the fan with this number.
    MissingFanConfig(usize),
    /// A fan's section lacks the key named.
    MissingConfigValue(&'static str),
    /// A fan's section holds an unusable value under the key named.
    InvalidConfigValue(&'static str),
    /// The offsets handed over for a logarithmic curve do not fit the fan.
    InvalidLogCurve,
    /// A fan's control file could not be opened.
    FanOpen,
    /// A fan's control file could not be written.
    FanWrite,
    /// The termination signals could not be hooked.
    Signal,
    /// A search pattern was malformed.
    Glob,
}

impl Error {
    /// The line that tells the user of the failure.
    pub open spec fn spec_message(self) -> Seq<char> {
        match self {
            Error::NotRoot => "T2 Fan Daemon must be run as root"@,
            Error::NoFan => "Fan not found"@,
            Error::NoCpu => "CPU temperature sensor not found"@,
            Error::TempRead => "Temperature sensor cannot be read"@,
            Error::TempSeek => "Temperature sensor cannot be seeked"@,
            Error::TempParse => "Temporature sensor cannot be parsed"@,
            Error::MinSpeedRead => "Cannot read minimum fan speed"@,
            Error::MinSpeedParse => "Cannot parse minimum fan speed"@,
            Error::MaxSpeedRead => "Cannot read maximum fan speed"@,
            Error::MaxSpeedParse => "Cannot parse maximum fan speed"@,
            Error::InvalidSpeedRange => "Maximum fan speed is below the minimum"@,
            Error::PidRead => "Cannot read pid file"@,
            Error::PidWrite => "Cannot write pid file"@,
            Error::PidDelete => "Cannot delete pid file"@,
            Error::AlreadyRunning => "T2 Fan Daemon is already running"@,
            Error::ConfigCreate => "Cannot create default config file"@,
            Error::ConfigRead => "Cannot read config file"@,
            Error::ConfigParse => "Cannot parse config file"@,
            Error::MissingFanConfig(number) => "Missing "@ + spec_section_name(number as nat)
                + " in config file"@,
            Error::MissingConfigValue(key) => "Missing "@ + key@ + " in config file"@,
            Error::InvalidConfigValue(key) => "Invalid "@ + key@ + " in config file"@,
            Error::InvalidLogCurve => "Logarithmic curve does not fit the fan"@,
            Error::FanOpen => "Cannot open fan controller handle"@,
            Error::FanWrite => "Cannot write to fan controller"@,
            Error::Signal => "Cannot setup shutdown signals"@,
            Error::Glob => "Programmer Error: Invalid glob pattern"@,
        }
    }

    /// The line that tells the user of the failure.
    pub fn message(&self) -> (message: String)
        ensures
            message@ == self.spec_message(),
    {
        match self {
            Error::NotRoot => "T2 Fan Daemon must be run as root".to_owned(),
            Error::NoFan => "Fan not found".to_owned(),
            Error::NoCpu => "CPU temperature sensor not found".to_owned(),
            Error::TempRead => "Temperature sensor cannot be read".to_owned(),
            Error::TempSeek => "Temperature sensor cannot be seeked".to_owned(),
            Error::TempParse => "Temporature sensor cannot be parsed".to_owned(),
            Error::MinSpeedRead => "Cannot read minimum fan speed".to_owned(),
            Error::MinSpeedParse => "Cannot parse minimum fan speed".to_owned(),
            Error::MaxSpeedRead => "Cannot read maximum fan speed".to_owned(),
            Error::MaxSpeedParse => "Cannot parse maximum fan speed".to_owned(),
            Error::InvalidSpeedRange => "Maximum fan speed is below the minimum".to_owned(),
            Error::PidRead => "Cannot read pid file".to_owned(),
            Error::PidWrite => "Cannot write pid file".to_owned(),
            Error::PidDelete => "Cannot delete pid file".to_owned(),
            Error::AlreadyRunning => "T2 Fan Daemon is already running".to_owned(),
            Error::ConfigCreate => "Cannot create default config file".to_owned(),
            Error::ConfigRead => "Cannot read config file".to_owned(),
            Error::ConfigParse => "Cannot parse config file".to_owned(),
            Error::MissingFanConfig(number) => {
                let name = section_name(*number);
                "Missing ".to_owned().concat(name.as_str()).concat(" in config file")
            },
            Error::MissingConfigValue(key) => "Missing ".to_owned().concat(key).concat(
                " in config file",
            ),
            Error::InvalidConfigValue(key) => "Invalid ".to_owned().concat(key).concat(
                " in config file",
            ),
            Error::InvalidLogCurve => "Logarithmic curve does not fit the fan".to_owned(),
            Error::FanOpen => "Cannot open fan controller handle".to_owned(),
            Error::FanWrite => "Cannot write to fan controller".to_owned(),
            Error::Signal => "Cannot setup shutdown signals".to_owned(),
            Error::Glob => "Programmer Error: Invalid glob pattern".to_owned(),
        }
    }
}

} // verus!
