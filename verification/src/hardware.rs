use vstd::prelude::*;

verus! {

/// Clock of the display's SPI bus, in hertz.
pub const SPI_FREQUENCY: u32 = 40_000_000;

/// Counter period of the PWM slice that drives the buzzer.
pub const BUZZER_TOP: u16 = 0x9088;

/// Volume divisor of the buzzer at power-on.
pub const BUZZER_VOLUME: u16 = 1;

/// The PWM compare level of the buzzer for a counter period `top` and a
/// volume divisor `volume`: the period divided by the volume.
pub fn buzzer_compare(top: u16, volume: u16) -> (level: u16)
    requires
        volume != 0,
    ensures
        level == top / volume,
{
    top / volume
}

} // verus!
