use t2fand::error::Error;
use t2fand::sensor::{hottest, parse_temperature};

#[test]
fn millidegrees_become_degrees() {
    assert_eq!(parse_temperature("45000\n"), Ok(45));
    assert_eq!(parse_temperature("45999"), Ok(45));
    assert_eq!(parse_temperature("999\n"), Ok(0));
    assert_eq!(parse_temperature("0"), Ok(0));
    assert_eq!(parse_temperature("255000"), Ok(255));
    assert_eq!(parse_temperature("+42000"), Ok(42));
}

#[test]
fn degrees_keep_their_low_byte() {
    assert_eq!(parse_temperature("256000"), Ok(0));
    assert_eq!(parse_temperature("300000"), Ok(44));
    assert_eq!(parse_temperature("4294967295"), Ok((4294967u32 % 256) as u8));
}

#[test]
fn trailing_white_space_is_ignored() {
    assert_eq!(parse_temperature("61000 \t\r\n"), Ok(61));
    assert_eq!(parse_temperature("61000\u{2028}"), Ok(61));
    assert_eq!(parse_temperature("61000\n\n\n"), Ok(61));
}

#[test]
fn anything_else_is_a_parse_error() {
    for bad in ["", "\n", " 61000", "hot", "61000mC", "-5000", "6 1000", "4294967296", "61000\u{0}", "0x10"] {
        assert_eq!(parse_temperature(bad), Err(Error::TempParse), "{bad:?}");
    }
}

#[test]
fn hottest_source_counts() {
    assert_eq!(hottest(50, None), 50);
    assert_eq!(hottest(50, Some(60)), 60);
    assert_eq!(hottest(60, Some(50)), 60);
    assert_eq!(hottest(55, Some(55)), 55);
    assert_eq!(hottest(0, Some(255)), 255);
    assert_eq!(hottest(255, Some(0)), 255);
}
