//! One fan: its speed bounds, its control files and its curve.

use vstd::prelude::*;
use vstd::string::*;
use crate::config::{FanConfig, SpeedCurve};
use crate::curve::{
    cube, lemma_cube_monotonic, lemma_cube_strict, lemma_ramp_offset_bounds,
    lemma_ramp_offset_monotonic, offset_on_ramp, ramp_offset,
};
use crate::error::Error;
use crate::text::{
    decimal, decimal_string, parse_unsigned, parse_unsigned_in, trim, trim_end, trim_end_at,
    trim_start_at,
};

verus! {

/// Text to be written to a control file, replacing what the file holds.
#[derive(Debug, PartialEq, Eq)]
pub struct FileWrite {
    /// The file to write.
    pub path: String,
    /// What to write into it.
    pub contents: String,
}

impl View for FileWrite {
    type V = (Seq<char>, Seq<char>);

    /// The path and the contents, as text.
    open spec fn view(&self) -> (Seq<char>, Seq<char>) {
        (self.path@, self.contents@)
    }
}

/// The number that a speed file's text stands for once `trimmed` of white
/// space: an unsigned decimal number that fits 32 bits.
pub open spec fn spec_parse_speed(trimmed: Seq<char>) -> Option<u32> {
    match parse_unsigned(trimmed, u32::MAX as nat) {
        Some(speed) => Some(speed as u32),
        None => None,
    }
}

/// Reads the fan's minimum speed out of the text of its file, white space
/// at either end aside.
pub fn parse_min_speed(raw: &str) -> (speed: Result<u32, Error>)
    ensures
        match spec_parse_speed(trim(raw@)) {
            Some(min) => speed == Ok::<u32, Error>(min),
            None => speed == Err::<u32, Error>(Error::MinSpeedParse),
        },
{
    let end = trim_end_at(raw);
    let start = trim_start_at(raw, end);
    assert(raw@.subrange(start as int, end as int) =~= trim(raw@));
    match parse_unsigned_in(raw, start, end, u32::MAX) {
        Some(min) => Ok(min),
        None => Err(Error::MinSpeedParse),
    }
}

/// Reads the fan's maximum speed out of the text of its file, trailing
/// white space aside.
pub fn parse_max_speed(raw: &str) -> (speed: Result<u32, Error>)
    ensures
        match spec_parse_speed(trim_end(raw@)) {
            Some(max) => speed == Ok::<u32, Error>(max),
            None => speed == Err::<u32, Error>(Error::MaxSpeedParse),
        },
{
    let end = trim_end_at(raw);
    assert(raw@.subrange(0, end as int) =~= trim_end(raw@));
    match parse_unsigned_in(raw, 0, end, u32::MAX) {
        Some(max) => Ok(max),
        None => Err(Error::MaxSpeedParse),
    }
}

/// Whether `table` can serve `config` on a span, as `log_table_fits` says.
fn check_log_table(config: &FanConfig, span: u32, table: &Vec<u32>) -> (fits: bool)
    requires
        config.valid(),
        config.speed_curve == SpeedCurve::Logarithmic,
    ensures
        fits == log_table_fits(*config, span as int, table@),
{
    let wanted: usize = (config.high_temp - config.low_temp - 1) as usize;
    if table.len() != wanted {
        return false;
    }
    if table.len() > 0 && table[0] != 0 {
        return false;
    }
    let mut at: usize = 0;
    while at < table.len()
        invariant
            at <= table.len(),
            forall|i: int| 0 <= i < at ==> #[trigger] table[i] <= span,
            forall|i: int, j: int| 0 <= i <= j < at ==> table[i] <= table[j],
        decreases table.len() - at,
    {
        if table[at] > span {
            return false;
        }
        if at > 0 && table[at - 1] > table[at] {
            return false;
        }
        at = at + 1;
    }
    true
}

/// Why no controller can be made of these parts, if none can: thresholds
/// out of order, then bounds out of order, then a logarithmic curve whose
/// table does not fit.
pub open spec fn spec_new_error(
    config: FanConfig,
    min_speed: u32,
    max_speed: u32,
    log_offsets: Seq<u32>,
) -> Option<Error> {
    if !config.valid() {
        Some(Error::InvalidConfigValue("high_temp"))
    } else if min_speed > max_speed {
        Some(Error::InvalidSpeedRange)
    } else if config.speed_curve == SpeedCurve::Logarithmic && !log_table_fits(
        config,
        max_speed - min_speed,
        log_offsets,
    ) {
        Some(Error::InvalidLogCurve)
    } else {
        None
    }
}

/// A fan with the bounds its hardware reported and the curve it follows.
#[derive(Debug)]
pub struct FanController {
    manual_path: String,
    output_path: String,
    config: FanConfig,
    min_speed: u32,
    max_speed: u32,
    log_offsets: Vec<u32>,
}

impl FanController {
    /// The file that switches the fan between manual and automatic control.
    pub closed spec fn manual_path(&self) -> Seq<char> {
        self.manual_path@
    }

    /// The file that takes the fan's speed.
    pub closed spec fn output_path(&self) -> Seq<char> {
        self.output_path@
    }

    /// The fan's settings.
    pub closed spec fn config(&self) -> FanConfig {
        self.config
    }

    /// The lowest speed the fan accepts.
    pub closed spec fn min_speed(&self) -> u32 {
        self.min_speed
    }

    /// The highest speed the fan accepts.
    pub closed spec fn max_speed(&self) -> u32 {
        self.max_speed
    }

    /// The logarithmic curve as a table: entry `i` is the speed above the
    /// minimum at `i + 1` degrees above the low threshold. Empty for the
    /// other curves.
    pub closed spec fn log_offsets(&self) -> Seq<u32> {
        self.log_offsets@
    }

    /// The distance between the two thresholds.
    pub open spec fn range(&self) -> int {
        self.config().high_temp - self.config().low_temp
    }

    /// The distance between the two speed bounds.
    pub open spec fn span(&self) -> int {
        self.max_speed() - self.min_speed()
    }

    /// What every controller satisfies: ordered bounds, ordered thresholds,
    /// and for a logarithmic curve a table with one entry per temperature
    /// strictly between the thresholds, beginning at 0, none above the span,
    /// never falling.
    pub open spec fn wf(&self) -> bool {
        &&& self.min_speed() <= self.max_speed()
        &&& self.config().valid()
        &&& log_table_fits(self.config(), self.span(), self.log_offsets())
    }

    #[verifier::type_invariant]
    spec fn inv(&self) -> bool {
        self.wf()
    }

    /// A controller for the fan whose control files begin with `path`, with
    /// the settings and speed bounds given. A logarithmic curve is handed
    /// over as a table: entry `i` is the speed above the minimum at `i + 1`
    /// degrees above the low threshold, so that the first is 0; for the other
    /// curves the table is left aside. Refused are thresholds out of order,
    /// bounds out of order, and a table that does not fit.
    pub fn new(
        path: &str,
        config: FanConfig,
        min_speed: u32,
        max_speed: u32,
        log_offsets: Vec<u32>,
    ) -> (made: Result<FanController, Error>)
        ensures
            match spec_new_error(config, min_speed, max_speed, log_offsets@) {
                Some(error) => made matches Err(e) && e == error,
                None => made matches Ok(fan) && fan.wf() && fan.config() == config
                    && fan.min_speed() == min_speed && fan.max_speed() == max_speed
                    && fan.manual_path() == path@ + "_manual"@ && fan.output_path() == path@
                    + "_output"@ && fan.log_offsets() == if config.speed_curve
                    == SpeedCurve::Logarithmic {
                    log_offsets@
                } else {
                    Seq::<u32>::empty()
                },
            },
    {
        if !config.is_valid() {
            return Err(Error::InvalidConfigValue("high_temp"));
        }
        if min_speed > max_speed {
            return Err(Error::InvalidSpeedRange);
        }
        let table = if config.speed_curve == SpeedCurve::Logarithmic {
            if !check_log_table(&config, max_speed - min_speed, &log_offsets) {
                return Err(Error::InvalidLogCurve);
            }
            log_offsets
        } else {
            Vec::new()
        };
        Ok(
            FanController {
                manual_path: path.to_owned().concat("_manual"),
                output_path: path.to_owned().concat("_output"),
                config,
                min_speed,
                max_speed,
                log_offsets: table,
            },
        )
    }

    /// The write that switches manual control on or off: `"1"` or `"0"` to
    /// the fan's manual-control file.
    pub open spec fn spec_set_manual(&self, enabled: bool) -> (Seq<char>, Seq<char>) {
        (
            self.manual_path(),
            if enabled {
                "1"@
            } else {
                "0"@
            },
        )
    }

    /// The write that asks for a speed: the speed brought within the fan's
    /// bounds, in decimal digits, to the fan's output file.
    pub open spec fn spec_set_speed(&self, speed: u32) -> (Seq<char>, Seq<char>) {
        (self.output_path(), decimal(self.spec_clamp(speed) as nat))
    }

    /// What to write to hand the fan to manual control (`"1"`) or back to
    /// the firmware (`"0"`).
    pub fn set_manual(&self, enabled: bool) -> (write: FileWrite)
        ensures
            write@ == self.spec_set_manual(enabled),
    {
        FileWrite {
            path: self.manual_path.clone(),
            contents: if enabled {
                "1".to_owned()
            } else {
                "0".to_owned()
            },
        }
    }

    /// A requested speed brought within the fan's bounds.
    pub open spec fn spec_clamp(&self, speed: u32) -> u32 {
        if speed < self.min_speed() {
            self.min_speed()
        } else if speed > self.max_speed() {
            self.max_speed()
        } else {
            speed
        }
    }

    /// What to write to run the fan at `speed`: the speed brought within the
    /// fan's bounds, in decimal digits.
    pub fn set_speed(&self, speed: u32) -> (write: FileWrite)
        ensures
            write@ == self.spec_set_speed(speed),
            self.min_speed() <= self.spec_clamp(speed) <= self.max_speed(),
    {
        proof {
            use_type_invariant(self);
        }
        let clamped = if speed < self.min_speed {
            self.min_speed
        } else if speed > self.max_speed {
            self.max_speed
        } else {
            speed
        };
        FileWrite { path: self.output_path.clone(), contents: decimal_string(clamped) }
    }

    /// The speed above the minimum at a temperature strictly between the
    /// thresholds.
    pub open spec fn spec_ramp(&self, temp: u8) -> int {
        let t = temp - self.config().low_temp;
        match self.config().speed_curve {
            SpeedCurve::Linear => ramp_offset(t, self.range(), self.span()),
            SpeedCurve::Exponential => ramp_offset(cube(t), cube(self.range()), self.span()),
            SpeedCurve::Logarithmic => self.log_offsets()[t - 1] as int,
        }
    }

    /// The speed the fan should run at for a temperature.
    pub open spec fn spec_calc_speed(&self, temp: u8) -> int {
        if self.config().always_full_speed {
            self.max_speed() as int
        } else if temp <= self.config().low_temp {
            self.min_speed() as int
        } else if temp >= self.config().high_temp {
            self.max_speed() as int
        } else {
            self.min_speed() + self.spec_ramp(temp)
        }
    }

    /// The target speed for a temperature: the maximum under the full-speed
    /// override, the minimum up to the low threshold, the maximum from the
    /// high threshold on, and in between the point on the curve, rounded down.
    pub fn calc_speed(&self, temp: u8) -> (speed: u32)
        ensures
            speed == self.spec_calc_speed(temp),
            self.min_speed() <= speed <= self.max_speed(),
            self.config().always_full_speed ==> speed == self.max_speed(),
            !self.config().always_full_speed && temp <= self.config().low_temp ==> speed
                == self.min_speed(),
            temp >= self.config().high_temp ==> speed == self.max_speed(),
    {
        proof {
            use_type_invariant(self);
        }
        if self.config.always_full_speed {
            return self.max_speed;
        }
        if temp <= self.config.low_temp {
            return self.min_speed;
        }
        if temp >= self.config.high_temp {
            return self.max_speed;
        }
        let t: u64 = (temp - self.config.low_temp) as u64;
        let range: u64 = (self.config.high_temp - self.config.low_temp) as u64;
        let span: u32 = self.max_speed - self.min_speed;
        let offset: u32 = match self.config.speed_curve {
            SpeedCurve::Linear => {
                assert(t * span <= 255 * 0xffff_ffff) by (nonlinear_arith)
                    requires
                        0 <= t <= 255,
                        0 <= span <= 0xffff_ffff,
                ;
                offset_on_ramp(t, range, span)
            },
            SpeedCurve::Exponential => {
                proof {
                    lemma_cube_strict(t as int, range as int);
                    assert(0 <= t * t <= 255 * 255 && 0 <= t * t * t <= 255 * 255 * 255)
                        by (nonlinear_arith)
                        requires
                            0 <= t <= 255,
                    ;
                    assert(0 <= range * range <= 255 * 255 && 0 <= range * range * range <= 255
                        * 255 * 255) by (nonlinear_arith)
                        requires
                            0 <= range <= 255,
                    ;
                    assert((t * t * t) * span <= (255 * 255 * 255) * 0xffff_ffff)
                        by (nonlinear_arith)
                        requires
                            0 <= t * t * t <= 255 * 255 * 255,
                            0 <= span <= 0xffff_ffff,
                    ;
                }
                offset_on_ramp(t * t * t, range * range * range, span)
            },
            SpeedCurve::Logarithmic => self.log_offsets[(t - 1) as usize],
        };
        self.min_speed + offset
    }
}

/// Whether a table of offsets can serve a configuration on a span: empty but
/// for a logarithmic curve, and there one entry for each temperature strictly
/// between the thresholds, beginning at 0 as the logarithm of 1 does, none
/// above the span, never falling.
pub open spec fn log_table_fits(config: FanConfig, span: int, table: Seq<u32>) -> bool {
    if config.speed_curve == SpeedCurve::Logarithmic {
        &&& table.len() == config.high_temp - config.low_temp - 1
        &&& table.len() > 0 ==> table[0] == 0
        &&& forall|i: int| 0 <= i < table.len() ==> #[trigger] table[i] <= span
        &&& forall|i: int, j: int| 0 <= i <= j < table.len() ==> table[i] <= table[j]
    } else {
        table.len() == 0
    }
}

/// Under the full-speed override the target is the maximum speed at every
/// temperature.
pub proof fn lemma_full_speed_override(fan: FanController, temp: u8)
    requires
        fan.config().always_full_speed,
    ensures
        fan.spec_calc_speed(temp) == fan.max_speed(),
{
}

/// At the high threshold and above it the target is the maximum speed; at
/// the low threshold it is the minimum speed, unless the full-speed override
/// is on.
pub proof fn lemma_threshold_speeds(fan: FanController, temp: u8)
    requires
        fan.wf(),
    ensures
        !fan.config().always_full_speed ==> fan.spec_calc_speed(fan.config().low_temp)
            == fan.min_speed(),
        temp >= fan.config().high_temp ==> fan.spec_calc_speed(temp) == fan.max_speed(),
{
}

/// Strictly between the thresholds the curve stays within the span between
/// the speed bounds.
pub proof fn lemma_ramp_within_span(fan: FanController, temp: u8)
    requires
        fan.wf(),
        fan.config().low_temp < temp < fan.config().high_temp,
    ensures
        0 <= fan.spec_ramp(temp) <= fan.span(),
{
    let t = temp - fan.config().low_temp;
    match fan.config().speed_curve {
        SpeedCurve::Linear => {
            lemma_ramp_offset_bounds(t, fan.range(), fan.span());
        },
        SpeedCurve::Exponential => {
            lemma_cube_strict(t, fan.range());
            lemma_cube_monotonic(0, t);
            lemma_ramp_offset_bounds(cube(t), cube(fan.range()), fan.span());
        },
        SpeedCurve::Logarithmic => {
            assert(fan.log_offsets()[t - 1] <= fan.span());
        },
    }
}

/// The target speed lies within the fan's bounds at every temperature.
pub proof fn lemma_calc_speed_within_bounds(fan: FanController, temp: u8)
    requires
        fan.wf(),
    ensures
        fan.min_speed() <= fan.spec_calc_speed(temp) <= fan.max_speed(),
{
    if fan.config().low_temp < temp < fan.config().high_temp {
        lemma_ramp_within_span(fan, temp);
    }
}

/// Every curve is monotonic: a warmer temperature never asks for a lower
/// speed. For the linear curve between the thresholds this is the rising
/// straight line; it holds as well of the other curves, and across the
/// thresholds.
pub proof fn lemma_calc_speed_monotonic(fan: FanController, cooler: u8, warmer: u8)
    requires
        fan.wf(),
        cooler <= warmer,
    ensures
        fan.spec_calc_speed(cooler) <= fan.spec_calc_speed(warmer),
{
    lemma_calc_speed_within_bounds(fan, cooler);
    lemma_calc_speed_within_bounds(fan, warmer);
    let low = fan.config().low_temp;
    let high = fan.config().high_temp;
    if !fan.config().always_full_speed && low < cooler && warmer < high {
        let t1 = cooler - low;
        let t2 = warmer - low;
        match fan.config().speed_curve {
            SpeedCurve::Linear => {
                lemma_ramp_offset_monotonic(t1, t2, fan.range(), fan.span());
            },
            SpeedCurve::Exponential => {
                lemma_cube_monotonic(t1, t2);
                lemma_cube_strict(0, fan.range());
                lemma_ramp_offset_monotonic(cube(t1), cube(t2), cube(fan.range()), fan.span());
            },
            SpeedCurve::Logarithmic => {
                assert(fan.log_offsets()[t1 - 1] <= fan.log_offsets()[t2 - 1]);
            },
        }
    }
}

/// Whatever speed is requested, what `set_speed` writes lies within the
/// fan's bounds; a request within them is written as it is.
pub proof fn lemma_clamp_within_bounds(fan: FanController, speed: u32)
    requires
        fan.wf(),
    ensures
        fan.min_speed() <= fan.spec_clamp(speed) <= fan.max_speed(),
        fan.min_speed() <= speed <= fan.max_speed() ==> fan.spec_clamp(speed) == speed,
{
}

} // verus!
