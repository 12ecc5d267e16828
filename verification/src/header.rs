//! What the header line shows besides the numbers of the quote themselves:
//! the direction of the change and the volume in a readable unit.

use vstd::prelude::*;

verus! {

/// Direction of the change since the previous close.
#[derive(Debug, Clone, Copy, PartialEq, Eq, Structural)]
pub enum Trend {
    /// The price is unchanged or has risen.
    Up,
    /// The price has fallen.
    Down,
}

/// The unit in which a volume is shown.
#[derive(Debug, Clone, Copy, PartialEq, Eq, Structural)]
pub enum VolumeUnit {
    /// Below one thousand: the plain number.
    Units,
    /// From one thousand: thousands with two decimals.
    Thousands,
    /// From one million: millions with two decimals.
    Millions,
}

/// A volume in its unit, rounded to two decimals.
#[derive(Debug, Clone, Copy, PartialEq, Eq, Structural)]
pub struct VolumeLabel {
    pub unit: VolumeUnit,
    /// The digits before the decimal point.
    pub whole: u64,
    /// The two digits after the decimal point, zero for plain numbers.
    pub hundredths: u64,
}

/// Volume from which millions are shown.
pub const MILLION: u64 = 1_000_000;

/// Volume from which thousands are shown.
pub const THOUSAND: u64 = 1_000;

/// The direction of a percent change.
pub open spec fn trend_of(change_percent: int) -> Trend {
    if change_percent >= 0 {
        Trend::Up
    } else {
        Trend::Down
    }
}

/// The unit in which a volume is shown.
pub open spec fn unit_of(volume: u64) -> VolumeUnit {
    if volume >= MILLION {
        VolumeUnit::Millions
    } else if volume >= THOUSAND {
        VolumeUnit::Thousands
    } else {
        VolumeUnit::Units
    }
}

/// The volume in hundredths of its unit, rounded to the nearest hundredth
/// with halves rounded up.
pub open spec fn hundredths_of(volume: u64) -> int {
    match unit_of(volume) {
        VolumeUnit::Millions => (volume + 5_000) / 10_000,
        VolumeUnit::Thousands => (volume + 5) / 10,
        VolumeUnit::Units => volume * 100,
    }
}

/// The label of a volume.
pub open spec fn volume_label_of(volume: u64) -> VolumeLabel {
    VolumeLabel {
        unit: unit_of(volume),
        whole: (hundredths_of(volume) / 100) as u64,
        hundredths: (hundredths_of(volume) % 100) as u64,
    }
}

/// Decides the direction shown for a percent change.
pub fn trend(change_percent: i128) -> (direction: Trend)
    ensures
        direction == trend_of(change_percent as int),
{
    if change_percent >= 0 {
        Trend::Up
    } else {
        Trend::Down
    }
}

/// Scales a volume to the unit in which it is shown.
pub fn volume_label(volume: u64) -> (label: VolumeLabel)
    ensures
        label == volume_label_of(volume),
        label.hundredths < 100,
{
    if volume >= MILLION {
        let total: u64 = volume / 10_000 + (if volume % 10_000 >= 5_000 {
            1
        } else {
            0
        });
        VolumeLabel { unit: VolumeUnit::Millions, whole: total / 100, hundredths: total % 100 }
    } else if volume >= THOUSAND {
        let total: u64 = (volume + 5) / 10;
        VolumeLabel { unit: VolumeUnit::Thousands, whole: total / 100, hundredths: total % 100 }
    } else {
        VolumeLabel { unit: VolumeUnit::Units, whole: volume, hundredths: 0 }
    }
}

} // verus!
