//! What happens once at start-up: reading the sample count from the command
//! line and writing the banner.

use crate::numeral::{numeral, parse_unsigned16, push_numeral, unsigned16};
use crate::text::{append, append_str, bytes_of};
use vstd::prelude::*;
use vstd::utf8::encode_utf8;

verus! {

/// How the window is opened.
#[derive(Clone, Copy, Debug, PartialEq, Eq)]
pub struct WindowSettings {
    /// The logical width of the window.
    pub width: u32,
    /// The logical height of the window.
    pub height: u32,
    /// Whether frames wait for the display's refresh.
    pub vsync: bool,
    /// The antialiasing samples per pixel; zero switches multisampling off.
    pub samples: u16,
}

/// The title of the window.
pub const WINDOW_TITLE: &'static str = "Rotating Cube";

/// The settings of the window for a sample count: 800 by 600, without
/// waiting for the display's refresh.
pub open spec fn settings_for(samples: u16) -> WindowSettings {
    WindowSettings { width: 800, height: 600, vsync: false, samples }
}

/// The antialiasing sample count that an argument asks for: the number it
/// stands for, or zero when it stands for none.
pub open spec fn samples_of(argument: Seq<u8>) -> u16 {
    match unsigned16(argument) {
        Some(n) => n,
        None => 0,
    }
}

/// The sample count that a command line asks for. The count is the argument
/// after the program's name; without one it is zero.
pub open spec fn requested_samples(args: Seq<String>) -> u16 {
    if args.len() > 1 {
        samples_of(encode_utf8(args[1]@))
    } else {
        0
    }
}

/// The banner: `running {samples}x AA, at {speed}x speed.` and an empty line.
pub open spec fn banner_text(samples: u16, speed: Seq<u8>) -> Seq<u8> {
    bytes_of("running ") + numeral(samples as nat) + bytes_of("x AA, at ") + speed + bytes_of(
        "x speed.\n\n",
    )
}

/// Reads a sample count from one argument; what is no count reads as zero.
pub fn parse_samples(argument: &str) -> (samples: u16)
    ensures
        samples == samples_of(bytes_of(argument)),
{
    match parse_unsigned16(argument.as_bytes()) {
        Some(n) => n,
        None => 0,
    }
}

/// Reads the sample count from the command line, the program's name
/// included.
pub fn samples_from_args(args: &Vec<String>) -> (samples: u16)
    ensures
        samples == requested_samples(args@),
{
    if args.len() > 1 {
        parse_samples(args[1].as_str())
    } else {
        0
    }
}

/// The settings of the window for the sample count that was asked for.
pub fn window_settings(samples: u16) -> (settings: WindowSettings)
    ensures
        settings == settings_for(samples),
{
    WindowSettings { width: 800, height: 600, vsync: false, samples }
}

/// Writes the banner for `samples` and for the speed multiplier as the caller
/// wrote it.
pub fn banner(samples: u16, speed: &[u8]) -> (text: Vec<u8>)
    ensures
        text@ == banner_text(samples, speed@),
{
    let mut text: Vec<u8> = Vec::new();
    append_str(&mut text, "running ");
    push_numeral(&mut text, samples as u64);
    append_str(&mut text, "x AA, at ");
    append(&mut text, speed);
    append_str(&mut text, "x speed.\n\n");
    assert(text@ =~= banner_text(samples, speed@));
    text
}

} // verus!
