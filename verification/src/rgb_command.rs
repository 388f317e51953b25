//! The colour command of the serial line: `r=11;g=aa;b=ff;`.
//!
//! A line is a run of parts separated by `;`. A part of the form `key=value`
//! sets the red, green or blue level to the two hexadecimal digits of the
//! value; empty parts and parts without `=` are passed over. Levels that no
//! part sets are zero, and a later part overrides an earlier one.

use vstd::prelude::*;
use vstd::slice::slice_subrange;
use vstd::string::StringSliceAdditionalSpecFns;

verus! {

/// Why a command line was not understood.
#[derive(Clone, Copy, Debug, PartialEq, Eq, Structural)]
pub enum CommandError {
    /// A value is not two bytes long.
    InvalidHexLength,
    /// A value holds something that is no hexadecimal digit.
    InvalidHexCharacter,
    /// A key is none of `r`, `g` and `b`.
    UnknownKey,
}

impl CommandError {
    /// A short description for the log.
    pub fn message(&self) -> (text: &'static str)
        ensures
            text@ == match *self {
                CommandError::InvalidHexLength => "Invalid hex length"@,
                CommandError::InvalidHexCharacter => "Invalid hex character"@,
                CommandError::UnknownKey => "Unknown key"@,
            },
    {
        match self {
            CommandError::InvalidHexLength => "Invalid hex length",
            CommandError::InvalidHexCharacter => "Invalid hex character",
            CommandError::UnknownKey => "Unknown key",
        }
    }
}

/// The three levels of a colour command.
#[derive(Clone, Copy, Debug, PartialEq, Eq, Structural)]
pub struct Levels {
    pub r: u8,
    pub g: u8,
    pub b: u8,
}

/// The value of a hexadecimal digit, upper or lower case.
pub open spec fn digit_value(c: u8) -> Option<int> {
    if 0x30 <= c <= 0x39 {
        Some(c - 0x30)
    } else if 0x61 <= c <= 0x66 {
        Some(c - 0x61 + 10)
    } else if 0x41 <= c <= 0x46 {
        Some(c - 0x41 + 10)
    } else {
        None
    }
}

/// The byte that two hexadecimal digits stand for.
pub open spec fn hex_value(text: Seq<u8>) -> Result<u8, CommandError> {
    if text.len() != 2 {
        Err(CommandError::InvalidHexLength)
    } else {
        match (digit_value(text[0]), digit_value(text[1])) {
            (Some(high), Some(low)) => Ok((16 * high + low) as u8),
            _ => Err(CommandError::InvalidHexCharacter),
        }
    }
}

/// Where the part that starts at `from` ends: at the next `;` or at the end of the line.
pub open spec fn part_end(line: Seq<u8>, from: int) -> int
    decreases line.len() - from,
{
    if from >= line.len() {
        line.len() as int
    } else if line[from] == 0x3B {
        from
    } else {
        part_end(line, from + 1)
    }
}

/// Where the first `=` of the part from `from` to `to` stands, if it has one.
pub open spec fn find_equals(line: Seq<u8>, from: int, to: int) -> Option<int>
    decreases to - from,
{
    if from >= to {
        None
    } else if line[from] == 0x3D {
        Some(from)
    } else {
        find_equals(line, from + 1, to)
    }
}

/// The levels after the part from `from` to `to` was applied.
pub open spec fn after_part(line: Seq<u8>, from: int, to: int, levels: Levels) -> Result<
    Levels,
    CommandError,
> {
    match find_equals(line, from, to) {
        None => Ok(levels),
        Some(eq) => {
            let value = hex_value(line.subrange(eq + 1, to));
            if eq == from + 1 && line[from] == 0x72 {
                match value {
                    Ok(v) => Ok(Levels { r: v, ..levels }),
                    Err(e) => Err(e),
                }
            } else if eq == from + 1 && line[from] == 0x67 {
                match value {
                    Ok(v) => Ok(Levels { g: v, ..levels }),
                    Err(e) => Err(e),
                }
            } else if eq == from + 1 && line[from] == 0x62 {
                match value {
                    Ok(v) => Ok(Levels { b: v, ..levels }),
                    Err(e) => Err(e),
                }
            } else {
                Err(CommandError::UnknownKey)
            }
        },
    }
}

/// The levels after all parts from `from` on were applied, one after the other.
pub open spec fn after_parts(line: Seq<u8>, from: int, levels: Levels) -> Result<
    Levels,
    CommandError,
>
    decreases line.len() - from,
{
    let to = part_end(line, from);
    match after_part(line, from, to, levels) {
        Err(e) => Err(e),
        Ok(next) => if to >= line.len() || from > to {
            Ok(next)
        } else {
            after_parts(line, to + 1, next)
        },
    }
}

/// The levels that a command line sets.
pub open spec fn command_levels(line: Seq<u8>) -> Result<Levels, CommandError> {
    after_parts(line, 0, Levels { r: 0, g: 0, b: 0 })
}

fn digit(c: u8) -> (v: Option<u8>)
    ensures
        v is Some == digit_value(c) is Some,
        v matches Some(d) ==> d == digit_value(c)->Some_0 && d < 16,
{
    if 0x30 <= c && c <= 0x39 {
        Some(c - 0x30)
    } else if 0x61 <= c && c <= 0x66 {
        Some(c - 0x61 + 10)
    } else if 0x41 <= c && c <= 0x46 {
        Some(c - 0x41 + 10)
    } else {
        None
    }
}

fn hex_bytes(text: &[u8]) -> (r: Result<u8, CommandError>)
    ensures
        r == hex_value(text@),
{
    if text.len() != 2 {
        return Err(CommandError::InvalidHexLength);
    }
    let high = match digit(text[0]) {
        Some(d) => d,
        None => {
            return Err(CommandError::InvalidHexCharacter);
        },
    };
    match digit(text[1]) {
        Some(low) => Ok(16 * high + low),
        None => Err(CommandError::InvalidHexCharacter),
    }
}

/// Reads two hexadecimal digits as a byte.
pub fn hex_to_u8(hex_str: &str) -> (r: Result<u8, CommandError>)
    ensures
        r == hex_value(hex_str.spec_bytes()),
{
    hex_bytes(hex_str.as_bytes())
}

fn apply_part(line: &[u8], from: usize, to: usize, levels: Levels) -> (r: Result<
    Levels,
    CommandError,
>)
    requires
        from <= to <= line.len(),
    ensures
        r == after_part(line@, from as int, to as int, levels),
{
    let mut eq: usize = from;
    while eq < to && line[eq] != 0x3D
        invariant
            from <= eq <= to <= line.len(),
            find_equals(line@, from as int, to as int) == find_equals(line@, eq as int, to as int),
        decreases to - eq,
    {
        eq += 1;
    }
    if eq >= to {
        return Ok(levels);
    }
    let value = hex_bytes(slice_subrange(line, eq + 1, to));
    if eq == from + 1 && line[from] == 0x72 {
        match value {
            Ok(v) => Ok(Levels { r: v, g: levels.g, b: levels.b }),
            Err(e) => Err(e),
        }
    } else if eq == from + 1 && line[from] == 0x67 {
        match value {
            Ok(v) => Ok(Levels { r: levels.r, g: v, b: levels.b }),
            Err(e) => Err(e),
        }
    } else if eq == from + 1 && line[from] == 0x62 {
        match value {
            Ok(v) => Ok(Levels { r: levels.r, g: levels.g, b: v }),
            Err(e) => Err(e),
        }
    } else {
        Err(CommandError::UnknownKey)
    }
}

fn parse_bytes(line: &[u8]) -> (r: Result<Levels, CommandError>)
    ensures
        r == command_levels(line@),
{
    let mut levels = Levels { r: 0, g: 0, b: 0 };
    let mut from: usize = 0;
    loop
        invariant
            from <= line.len(),
            command_levels(line@) == after_parts(line@, from as int, levels),
        decreases line.len() - from,
    {
        let mut to: usize = from;
        while to < line.len() && line[to] != 0x3B
            invariant
                from <= to <= line.len(),
                part_end(line@, from as int) == part_end(line@, to as int),
            decreases line.len() - to,
        {
            to += 1;
        }
        levels = apply_part(line, from, to, levels)?;
        if to >= line.len() {
            return Ok(levels);
        }
        from = to + 1;
    }
}

/// Reads a colour command and returns its red, green and blue level.
pub fn parse_rgb_command(line: &str) -> (r: Result<(u8, u8, u8), CommandError>)
    ensures
        match r {
            Ok((red, green, blue)) => command_levels(line.spec_bytes()) == Ok::<
                Levels,
                CommandError,
            >(Levels { r: red, g: green, b: blue }),
            Err(e) => command_levels(line.spec_bytes()) == Err::<Levels, CommandError>(e),
        },
{
    match parse_bytes(line.as_bytes()) {
        Ok(levels) => Ok((levels.r, levels.g, levels.b)),
        Err(e) => Err(e),
    }
}

} // verus!
