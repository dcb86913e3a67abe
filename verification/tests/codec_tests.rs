use spectrum_lookup::codec::{parse_fivem_steam_id, Platform, PlatformId};
use spectrum_lookup::errors::CommandError;

#[test]
fn parse_valid_steam_id() {
    let r = parse_fivem_steam_id(String::from("steam:110000112345678"));
    assert_eq!(r, Ok(0x110000112345678));
}

#[test]
fn parse_builds_platform_id() {
    let r = PlatformId::parse("steam:1f");
    assert_eq!(
        r,
        Ok(PlatformId { platform: Platform::Steam, numeric_id: 0x1f })
    );
}

#[test]
fn parse_rejects_unknown_tag() {
    let r = parse_fivem_steam_id(String::from("xbox:1"));
    assert_eq!(r, Err(CommandError::InvalidIdentifierFormat));
}

#[test]
fn parse_rejects_bad_hex() {
    let r = parse_fivem_steam_id(String::from("steam:zz"));
    assert_eq!(r, Err(CommandError::InvalidIdentifierFormat));
}

#[test]
fn parse_rejects_missing_colon() {
    let r = parse_fivem_steam_id(String::from("steam110000112345678"));
    assert_eq!(r, Err(CommandError::InvalidIdentifierFormat));
}

#[test]
fn parse_rejects_empty_string() {
    let r = parse_fivem_steam_id(String::new());
    assert_eq!(r, Err(CommandError::InvalidIdentifierFormat));
}

#[test]
fn parse_rejects_empty_suffix() {
    let r = parse_fivem_steam_id(String::from("steam:"));
    assert_eq!(r, Err(CommandError::InvalidIdentifierFormat));
}

#[test]
fn parse_rejects_second_colon() {
    let r = parse_fivem_steam_id(String::from("steam:abc:def"));
    assert_eq!(r, Err(CommandError::InvalidIdentifierFormat));
}

#[test]
fn parse_rejects_sign_character() {
    let r = parse_fivem_steam_id(String::from("steam:+1f"));
    assert_eq!(r, Err(CommandError::InvalidIdentifierFormat));
}

#[test]
fn parse_rejects_value_above_sixty_four_bits() {
    let r = parse_fivem_steam_id(String::from("steam:10000000000000000"));
    assert_eq!(r, Err(CommandError::InvalidIdentifierFormat));
}

#[test]
fn parse_accepts_largest_value() {
    let r = parse_fivem_steam_id(String::from("steam:ffffffffffffffff"));
    assert_eq!(r, Ok(u64::MAX));
}

#[test]
fn parse_accepts_mixed_case_hex() {
    let r = parse_fivem_steam_id(String::from("steam:AbC9"));
    assert_eq!(r, Ok(0xabc9));
}
