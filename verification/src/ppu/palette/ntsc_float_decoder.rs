use vstd::prelude::*;

use crate::ppu::palette::color::{Brightness, Color, Hue};
use crate::ppu::register::ppu_registers::Emphasis;

verus! {

/// The number of phases in one period of the color subcarrier, in signal samples.
pub const WAVELENGTH: u64 = 12;

/// Whether a hue's square wave is high at a phase: it is high for the six phases starting at the
/// hue's number.
pub open spec fn spec_in_phase(hue: Hue, phase: u64) -> bool {
    (hue.spec_to_u8() + phase) % 12 < 6
}

/// The darkest hues, whose signal doesn't depend on the phase.
pub open spec fn is_dark(hue: Hue) -> bool {
    hue == Hue::DarkGray || hue == Hue::Black || hue == Hue::ExtraBlack
}

/// Which of the sixteen terminated voltage levels (four low, four high, then the same attenuated)
/// the composite signal of a color has at a phase. The darkest hues take the low brightness and
/// stay low; gray stays high. Emphasis attenuates the signal while the emphasized component's
/// phase (olive for red, magenta for green, cyan for blue) is high, except for black.
pub open spec fn spec_signal_level_index(phase: u64, color: Color, emphasis: Emphasis) -> int {
    let hue = color.spec_hue();
    let brightness = if is_dark(hue) { 1int } else { color.spec_brightness().spec_to_u8() as int };
    let attenuated = !(hue == Hue::Black || hue == Hue::ExtraBlack) && (
        (emphasis.red && spec_in_phase(Hue::Olive, phase))
        || (emphasis.green && spec_in_phase(Hue::Magenta, phase))
        || (emphasis.blue && spec_in_phase(Hue::Cyan, phase)));
    let low = brightness + if attenuated { 8int } else { 0 };
    let high = low + 4;
    if spec_in_phase(hue, phase) {
        if is_dark(hue) { low } else { high }
    } else {
        if hue == Hue::Gray { high } else { low }
    }
}

fn in_phase(hue: Hue, phase: u64) -> (r: bool)
    requires
        phase <= u64::MAX - 16,
    ensures
        r == spec_in_phase(hue, phase),
{
    (hue.to_u8() as u64 + phase) % WAVELENGTH < 6
}

/// The index of the voltage level of a color's composite signal at a phase (see
/// `spec_signal_level_index`).
pub fn signal_level_index(phase: u64, color: Color, emphasis: Emphasis) -> (r: usize)
    requires
        phase <= u64::MAX - 16,
    ensures
        r == spec_signal_level_index(phase, color, emphasis),
        r < 16,
{
    let hue = color.hue();
    let dark = matches!(hue, Hue::DarkGray | Hue::Black | Hue::ExtraBlack);
    let brightness = if dark { Brightness::Low } else { color.brightness() };

    let mut is_attenuated = (emphasis.red() && in_phase(Hue::Olive, phase))
        || (emphasis.green() && in_phase(Hue::Magenta, phase))
        || (emphasis.blue() && in_phase(Hue::Cyan, phase));
    if matches!(hue, Hue::Black | Hue::ExtraBlack) {
        is_attenuated = false;
    }

    let attenuation: usize = if is_attenuated { 8 } else { 0 };
    let brightness = brightness.to_u8() as usize;
    let mut low = brightness + attenuation;
    let mut high = 4 + brightness + attenuation;
    // Grays and blacks have signal levels that don't depend on the phase.
    if hue == Hue::Gray {
        low = high;
    }
    if dark {
        high = low;
    }

    if in_phase(hue, phase) { high } else { low }
}

} // verus!
