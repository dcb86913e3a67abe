//! Parsing of colon-delimited platform identifiers.
//!
//! An identifier is accepted exactly when it is the recognized platform tag,
//! one colon, and a nonempty hexadecimal suffix whose value fits in 64 bits.

use crate::errors::CommandError;
use vstd::prelude::*;
use vstd::string::*;

verus! {

/// Whether `c` is an ASCII hexadecimal digit.
pub open spec fn is_hex_digit(c: char) -> bool {
    ('0' <= c && c <= '9') || ('a' <= c && c <= 'f') || ('A' <= c && c <= 'F')
}

/// The value of a hexadecimal digit; 0 for any other character.
pub open spec fn hex_digit_value(c: char) -> int {
    if '0' <= c && c <= '9' {
        c as int - '0' as int
    } else if 'a' <= c && c <= 'f' {
        c as int - 'a' as int + 10
    } else if 'A' <= c && c <= 'F' {
        c as int - 'A' as int + 10
    } else {
        0
    }
}

/// Whether every character of `s` is a hexadecimal digit.
pub open spec fn all_hex_digits(s: Seq<char>) -> bool {
    forall|i: int| 0 <= i < s.len() ==> is_hex_digit(#[trigger] s[i])
}

/// The value of `s` read as a base-16 numeral, most significant digit first.
pub open spec fn hex_value(s: Seq<char>) -> int
    decreases s.len(),
{
    if s.len() == 0 {
        0
    } else {
        hex_value(s.drop_last()) * 16 + hex_digit_value(s.last())
    }
}

/// The accepted identifier shape: `steam:` followed by a nonempty run of
/// hexadecimal digits whose value is representable in 64 bits.
pub open spec fn valid_steam_identifier(s: Seq<char>) -> bool {
    &&& s.len() > 6
    &&& s.subrange(0, 6) == "steam:"@
    &&& all_hex_digits(s.skip(6))
    &&& hex_value(s.skip(6)) <= u64::MAX
}

pub proof fn lemma_hex_value_nonneg(s: Seq<char>)
    ensures
        hex_value(s) >= 0,
    decreases s.len(),
{
    if s.len() > 0 {
        lemma_hex_value_nonneg(s.drop_last());
        assert(hex_digit_value(s.last()) >= 0);
    }
}

/// Reading more digits never decreases the value of a numeral.
pub proof fn lemma_hex_value_take_le(s: Seq<char>, k: int)
    requires
        0 <= k <= s.len(),
    ensures
        hex_value(s.take(k)) <= hex_value(s),
    decreases s.len(),
{
    if k == s.len() {
        assert(s.take(k) =~= s);
    } else {
        assert(s.drop_last().take(k) =~= s.take(k));
        lemma_hex_value_take_le(s.drop_last(), k);
        lemma_hex_value_nonneg(s.drop_last());
        assert(hex_value(s) == hex_value(s.drop_last()) * 16 + hex_digit_value(s.last()));
        assert(hex_digit_value(s.last()) >= 0);
    }
}

/// The platforms the codec recognizes in an identifier tag.
#[derive(Debug, PartialEq, Eq, Structural, Clone, Copy)]
pub enum Platform {
    Steam,
}

/// A parsed identifier: the platform tag and the numeric account id that the
/// hexadecimal suffix encodes.
#[derive(Debug, PartialEq, Eq, Structural, Clone, Copy)]
pub struct PlatformId {
    pub platform: Platform,
    pub numeric_id: u64,
}

impl PlatformId {
    /// Parses `raw` into a `PlatformId`.
    ///
    /// Succeeds exactly on valid identifiers and is total over all strings:
    /// any other input is answered with `InvalidIdentifierFormat`.
    pub fn parse(raw: &str) -> (r: Result<PlatformId, CommandError>)
        ensures
            valid_steam_identifier(raw@) ==> (r matches Ok(p) && p.platform is Steam
                && p.numeric_id == hex_value(raw@.skip(6))),
            !valid_steam_identifier(raw@) ==> (r matches Err(e) && e is InvalidIdentifierFormat),
    {
        proof {
            reveal_strlit("steam:");
        }
        let n = raw.unicode_len();
        if n <= 6 {
            assert(!valid_steam_identifier(raw@));
            return Err(CommandError::InvalidIdentifierFormat);
        }
        if raw.get_char(0) != 's' || raw.get_char(1) != 't' || raw.get_char(2) != 'e'
            || raw.get_char(3) != 'a' || raw.get_char(4) != 'm' || raw.get_char(5) != ':' {
            assert(!valid_steam_identifier(raw@)) by {
                if raw@.subrange(0, 6) == "steam:"@ {
                    assert(raw@.subrange(0, 6)[0] == 's');
                    assert(raw@.subrange(0, 6)[1] == 't');
                    assert(raw@.subrange(0, 6)[2] == 'e');
                    assert(raw@.subrange(0, 6)[3] == 'a');
                    assert(raw@.subrange(0, 6)[4] == 'm');
                    assert(raw@.subrange(0, 6)[5] == ':');
                }
            }
            return Err(CommandError::InvalidIdentifierFormat);
        }
        assert(raw@.subrange(0, 6) =~= "steam:"@);
        let suffix = raw.substring_char(6, n);
        proof {
            assert(suffix@ =~= raw@.skip(6));
        }
        match parse_hex_u64(suffix) {
            Ok(value) => Ok(PlatformId { platform: Platform::Steam, numeric_id: value }),
            Err(e) => Err(e),
        }
    }
}

/// Parses a nonempty string of hexadecimal digits as a base-16 `u64`.
///
/// Fails with `InvalidIdentifierFormat` on an empty string, on any character
/// that is not a hexadecimal digit, and on a value above `u64::MAX`.
fn parse_hex_u64(s: &str) -> (r: Result<u64, CommandError>)
    ensures
        (s@.len() > 0 && all_hex_digits(s@) && hex_value(s@) <= u64::MAX) ==> (r matches Ok(v)
            && v == hex_value(s@)),
        !(s@.len() > 0 && all_hex_digits(s@) && hex_value(s@) <= u64::MAX) ==> (r matches Err(e)
            && e is InvalidIdentifierFormat),
{
    let n = s.unicode_len();
    if n == 0 {
        return Err(CommandError::InvalidIdentifierFormat);
    }
    let mut i: usize = 0;
    let mut value: u64 = 0;
    while i < n
        invariant
            0 <= i <= n,
            n == s@.len(),
            all_hex_digits(s@.take(i as int)),
            value == hex_value(s@.take(i as int)),
        decreases n - i,
    {
        let c = s.get_char(i);
        let d: u64 = if c >= '0' && c <= '9' {
            (c as u32 - '0' as u32) as u64
        } else if c >= 'a' && c <= 'f' {
            (c as u32 - 'a' as u32) as u64 + 10
        } else if c >= 'A' && c <= 'F' {
            (c as u32 - 'A' as u32) as u64 + 10
        } else {
            assert(!is_hex_digit(s@[i as int]));
            return Err(CommandError::InvalidIdentifierFormat);
        };
        assert(d == hex_digit_value(s@[i as int]));
        if value > (u64::MAX - d) / 16 {
            proof {
                assert(s@.take(i as int + 1).drop_last() =~= s@.take(i as int));
                assert(s@.take(i as int + 1).last() == s@[i as int]);
                assert(hex_value(s@.take(i as int + 1)) > u64::MAX);
                lemma_hex_value_take_le(s@, i as int + 1);
            }
            return Err(CommandError::InvalidIdentifierFormat);
        }
        proof {
            assert(s@.take(i as int + 1).drop_last() =~= s@.take(i as int));
            assert(s@.take(i as int + 1).last() == s@[i as int]);
        }
        value = value * 16 + d;
        i = i + 1;
    }
    proof {
        assert(s@.take(n as int) =~= s@);
    }
    Ok(value)
}

/// Parses an identifier and hands back the numeric account id alone.
pub fn parse_fivem_steam_id(id: String) -> (r: Result<u64, CommandError>)
    ensures
        valid_steam_identifier(id@) ==> (r matches Ok(v) && v == hex_value(id@.skip(6))),
        !valid_steam_identifier(id@) ==> (r matches Err(e) && e is InvalidIdentifierFormat),
{
    match PlatformId::parse(id.as_str()) {
        Ok(p) => Ok(p.numeric_id),
        Err(e) => Err(e),
    }
}

} // verus!
