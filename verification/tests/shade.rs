use kannaka_tui::shade::{
    agent_color, amplitude_color, delta_color, level_color, phi_color, small_level_color,
};
use kannaka_tui::single::{single_above, single_at_least, single_larger};
use kannaka_tui::style::Color;

const ORANGE: Color = Color::Rgb(255, 165, 0);

#[test]
fn singles_compare_by_their_bits() {
    let samples = [
        0.0_f32,
        -0.0,
        1.0,
        -1.0,
        0.8,
        0.5,
        0.2,
        0.001,
        -0.001,
        f32::MIN_POSITIVE,
        f32::MAX,
        f32::MIN,
        f32::INFINITY,
        f32::NEG_INFINITY,
        f32::NAN,
        f32::from_bits(1),
        f32::from_bits(0x8000_0001),
        f32::from_bits(0xffc0_0001),
    ];
    for a in samples {
        for b in samples {
            assert_eq!(single_at_least(a.to_bits(), b.to_bits()), a >= b, "{} {}", a, b);
            assert_eq!(single_above(a.to_bits(), b.to_bits()), a > b, "{} {}", a, b);
        }
    }
}

fn next_below(x: f32) -> f32 {
    f32::from_bits(x.to_bits() - 1)
}

#[test]
fn phi_has_four_bands() {
    let shade = |x: f32| phi_color(x.to_bits());
    assert_eq!(shade(1.0), Color::Success);
    assert_eq!(shade(0.8), Color::Success);
    assert_eq!(shade(next_below(0.8)), Color::Warning);
    assert_eq!(shade(0.5), Color::Warning);
    assert_eq!(shade(next_below(0.5)), ORANGE);
    assert_eq!(shade(0.2), ORANGE);
    assert_eq!(shade(next_below(0.2)), Color::Error);
    assert_eq!(shade(-1.0), Color::Error);
    assert_eq!(shade(f32::NAN), Color::Error);
    assert_eq!(shade(f32::INFINITY), Color::Success);
}

#[test]
fn amplitudes_have_three_bands() {
    let shade = |x: f32| amplitude_color(x.to_bits());
    assert_eq!(shade(0.8), Color::Accent);
    assert_eq!(shade(next_below(0.8)), Color::Info);
    assert_eq!(shade(0.5), Color::Info);
    assert_eq!(shade(next_below(0.5)), Color::Dim);
    assert_eq!(shade(f32::NAN), Color::Dim);
}

#[test]
fn small_changes_are_grey() {
    let shade = |x: f32| delta_color(x.to_bits());
    assert_eq!(shade(0.001), Color::Dim);
    assert_eq!(shade(-0.001), Color::Dim);
    assert_eq!(shade(f32::from_bits(0.001_f32.to_bits() + 1)), Color::Success);
    assert_eq!(shade(f32::from_bits((-0.001_f32).to_bits() + 1)), Color::Error);
    assert_eq!(shade(0.0), Color::Dim);
    assert_eq!(shade(f32::NAN), Color::Dim);
}

#[test]
fn levels_are_coloured_whatever_their_case() {
    for level in ["Resonant", "transcendent", "AWAKENED"] {
        assert_eq!(level_color(level), Color::Success);
    }
    for level in ["Coherent", "synchronized"] {
        assert_eq!(level_color(level), Color::Info);
    }
    for level in ["emerging", "DevelOping"] {
        assert_eq!(level_color(level), Color::Warning);
    }
    for level in ["Unknown", "", "resonant "] {
        assert_eq!(level_color(level), Color::Dim);
    }
}

#[test]
fn lower_case_goes_beyond_ascii() {
    // The Kelvin sign has a small letter in ASCII.
    assert_eq!(level_color("AWA\u{212a}ENED"), Color::Success);
    assert_eq!(level_color("\u{c9}merging"), Color::Dim);
    assert_eq!(small_level_color("Resonant"), Color::Dim);
    assert_eq!(small_level_color("resonant"), Color::Success);
}

#[test]
fn agents_are_coloured_by_handedness_before_phi() {
    let phi = 0.9_f32.to_bits();
    assert_eq!(agent_color("left", phi), Color::Rgb(255, 120, 120));
    assert_eq!(agent_color("right", phi), Color::Rgb(120, 200, 255));
    assert_eq!(agent_color("chiral", phi), Color::Rgb(255, 180, 100));
    assert_eq!(agent_color("achiral", phi), Color::Success);
    assert_eq!(agent_color("Left", 0.3_f32.to_bits()), ORANGE);
}

#[test]
fn the_palette_has_its_parts() {
    assert_eq!(Color::Background.parts(), (10, 10, 26));
    assert_eq!(Color::Accent.parts(), (123, 104, 238));
    assert_eq!(Color::Success.parts(), (74, 222, 128));
    assert_eq!(Color::Error.parts(), (248, 113, 113));
    assert_eq!(Color::Warning.parts(), (251, 191, 36));
    assert_eq!(Color::Info.parts(), (0, 229, 255));
    assert_eq!(Color::Text.parts(), (224, 224, 224));
    assert_eq!(Color::Dim.parts(), (102, 102, 102));
    assert_eq!(ORANGE.parts(), (255, 165, 0));
}

#[test]
fn the_larger_single_is_chosen() {
    let samples = [0.0_f32, 1.0, -1.0, 0.25, f32::INFINITY, f32::NEG_INFINITY, f32::NAN];
    for a in samples {
        for b in samples {
            let chosen = f32::from_bits(single_larger(a.to_bits(), b.to_bits()));
            let expected = a.max(b);
            assert!(chosen == expected || (chosen.is_nan() && expected.is_nan()), "{} {}", a, b);
        }
    }
    assert_eq!(single_larger(0, 0x8000_0000), 0);
    assert_eq!(single_larger(0x8000_0000, 0), 0x8000_0000);
}
