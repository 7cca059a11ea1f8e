//! Temperature samples: what a sensor file's text says, and which of two
//! sources counts.

use vstd::prelude::*;
use crate::error::Error;
use crate::text::{parse_unsigned, parse_unsigned_in, trim_end, trim_end_at};

verus! {

/// The sample that a sensor's text stands for: the text without trailing
/// white space is an unsigned decimal number of millidegrees that fits 32
/// bits; the sample is its thousandth, rounded down, and of that the low
/// eight bits. `None` where the text is no such number.
pub open spec fn spec_parse_temperature(raw: Seq<char>) -> Option<u8> {
    match parse_unsigned(trim_end(raw), u32::MAX as nat) {
        Some(millis) => Some(((millis / 1000) % 256) as u8),
        None => None,
    }
}

/// Reads a temperature in degrees Celsius out of the text of a sensor file,
/// which holds millidegrees. Text that is no number is a parse error.
pub fn parse_temperature(raw: &str) -> (sample: Result<u8, Error>)
    ensures
        match spec_parse_temperature(raw@) {
            Some(degrees) => sample == Ok::<u8, Error>(degrees),
            None => sample == Err::<u8, Error>(Error::TempParse),
        },
{
    let end = trim_end_at(raw);
    assert(raw@.subrange(0, end as int) =~= trim_end(raw@));
    match parse_unsigned_in(raw, 0, end, u32::MAX) {
        Some(millis) => Ok(((millis / 1000) % 256) as u8),
        None => Err(Error::TempParse),
    }
}

/// The temperature that drives the fans: the hotter of CPU and GPU, or the
/// CPU alone where there is no GPU sensor.
pub open spec fn spec_hottest(cpu: u8, gpu: Option<u8>) -> u8 {
    match gpu {
        Some(g) if g > cpu => g,
        _ => cpu,
    }
}

/// Combines the CPU sample with the GPU sample, if any, into the one that
/// counts: the larger.
pub fn hottest(cpu: u8, gpu: Option<u8>) -> (temp: u8)
    ensures
        temp == spec_hottest(cpu, gpu),
        temp >= cpu,
        gpu matches Some(g) ==> temp >= g,
        temp == cpu || gpu == Some(temp),
{
    match gpu {
        Some(g) => if g > cpu {
            g
        } else {
            cpu
        },
        None => cpu,
    }
}

} // verus!
