//! Colours that tell how a reading stands.

use crate::single::{above, at_least, single_above, single_at_least};
use crate::style::Color;
use crate::text::same_text;
use vstd::prelude::*;

verus! {

/// Phi in a colour: green from 0.8, yellow from 0.5, orange from 0.2, red
/// below. The thresholds are the singles nearest to these numbers.
pub open spec fn phi_shade(phi: u32) -> Color {
    if at_least(phi, 0x3f4c_cccd) {
        Color::Success
    } else if at_least(phi, 0x3f00_0000) {
        Color::Warning
    } else if at_least(phi, 0x3e4c_cccd) {
        Color::Rgb(255, 165, 0)
    } else {
        Color::Error
    }
}

/// Colours phi, a single given by its bits.
pub fn phi_color(phi: u32) -> (r: Color)
    ensures
        r == phi_shade(phi),
{
    if single_at_least(phi, 0x3f4c_cccd) {
        Color::Success
    } else if single_at_least(phi, 0x3f00_0000) {
        Color::Warning
    } else if single_at_least(phi, 0x3e4c_cccd) {
        Color::Rgb(255, 165, 0)
    } else {
        Color::Error
    }
}

/// An amplitude in a colour: purple from 0.8, blue from 0.5, grey below.
pub open spec fn amplitude_shade(amp: u32) -> Color {
    if at_least(amp, 0x3f4c_cccd) {
        Color::Accent
    } else if at_least(amp, 0x3f00_0000) {
        Color::Info
    } else {
        Color::Dim
    }
}

/// Colours an amplitude, a single given by its bits.
pub fn amplitude_color(amp: u32) -> (r: Color)
    ensures
        r == amplitude_shade(amp),
{
    if single_at_least(amp, 0x3f4c_cccd) {
        Color::Accent
    } else if single_at_least(amp, 0x3f00_0000) {
        Color::Info
    } else {
        Color::Dim
    }
}

/// A change of phi in a colour: green above 0.001, red below -0.001, grey
/// in between.
pub open spec fn delta_shade(delta: u32) -> Color {
    if above(delta, 0x3a83_126f) {
        Color::Success
    } else if above(0xba83_126f, delta) {
        Color::Error
    } else {
        Color::Dim
    }
}

/// Colours a change of phi, a single given by its bits.
pub fn delta_color(delta: u32) -> (r: Color)
    ensures
        r == delta_shade(delta),
{
    if single_above(delta, 0x3a83_126f) {
        Color::Success
    } else if single_above(0xba83_126f, delta) {
        Color::Error
    } else {
        Color::Dim
    }
}

/// A text in small letters.
pub uninterp spec fn lowercase(s: Seq<char>) -> Seq<char>;

/// The small letter of a letter from A to Z; other characters stay.
pub open spec fn small_letter(c: char) -> char {
    if 65 <= c as int <= 90 {
        (c as int + 32) as char
    } else {
        c
    }
}

/// The lower case of a text, as `str::to_lowercase` gives it. Which small
/// letters a text beyond ASCII has is left to the Unicode tables of the
/// standard library.
pub assume_specification[ str::to_lowercase ](s: &str) -> (r: String)
    ensures
        r@ == lowercase(s@),
        vstd::utf8::is_ascii_chars(s@) ==> r@ == s@.map_values(|c: char| small_letter(c)),
;

/// A consciousness level, in small letters, in its colour.
pub open spec fn level_shade(level: Seq<char>) -> Color {
    if level == "resonant"@ || level == "transcendent"@ || level == "awakened"@ {
        Color::Success
    } else if level == "coherent"@ || level == "synchronized"@ {
        Color::Info
    } else if level == "emerging"@ || level == "developing"@ {
        Color::Warning
    } else {
        Color::Dim
    }
}

/// Colours a consciousness level given in small letters.
pub fn small_level_color(level: &str) -> (r: Color)
    ensures
        r == level_shade(level@),
{
    if same_text(level, "resonant") || same_text(level, "transcendent") || same_text(
        level,
        "awakened",
    ) {
        Color::Success
    } else if same_text(level, "coherent") || same_text(level, "synchronized") {
        Color::Info
    } else if same_text(level, "emerging") || same_text(level, "developing") {
        Color::Warning
    } else {
        Color::Dim
    }
}

/// Colours a consciousness level, whatever the case of its letters.
pub fn level_color(level: &str) -> (r: Color)
    ensures
        r == level_shade(lowercase(level@)),
        vstd::utf8::is_ascii_chars(level@) ==> r == level_shade(
            level@.map_values(|c: char| small_letter(c)),
        ),
{
    let small = level.to_lowercase();
    small_level_color(small.as_str())
}

/// The colour of an agent: by its handedness, else by its phi.
pub open spec fn agent_shade(handedness: Seq<char>, phi: u32) -> Color {
    if handedness == "left"@ {
        Color::Rgb(255, 120, 120)
    } else if handedness == "right"@ {
        Color::Rgb(120, 200, 255)
    } else if handedness == "chiral"@ {
        Color::Rgb(255, 180, 100)
    } else {
        phi_shade(phi)
    }
}

/// Colours an agent of a handedness and a phi, a single given by its bits.
pub fn agent_color(handedness: &str, phi: u32) -> (r: Color)
    ensures
        r == agent_shade(handedness@, phi),
{
    if same_text(handedness, "left") {
        Color::Rgb(255, 120, 120)
    } else if same_text(handedness, "right") {
        Color::Rgb(120, 200, 255)
    } else if same_text(handedness, "chiral") {
        Color::Rgb(255, 180, 100)
    } else {
        phi_color(phi)
    }
}

} // verus!
