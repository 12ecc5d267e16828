use stock_tui::header::{trend, volume_label, Trend, VolumeLabel, VolumeUnit, MILLION, THOUSAND};

#[test]
fn trend_is_up_for_no_change_and_rises() {
    assert_eq!(trend(0), Trend::Up);
    assert_eq!(trend(1), Trend::Up);
    assert_eq!(trend(i128::MAX), Trend::Up);
}

#[test]
fn trend_is_down_for_falls() {
    assert_eq!(trend(-1), Trend::Down);
    assert_eq!(trend(i128::MIN), Trend::Down);
}

#[test]
fn small_volumes_are_shown_plainly() {
    assert_eq!(THOUSAND, 1_000);
    assert_eq!(
        volume_label(0),
        VolumeLabel { unit: VolumeUnit::Units, whole: 0, hundredths: 0 }
    );
    assert_eq!(
        volume_label(999),
        VolumeLabel { unit: VolumeUnit::Units, whole: 999, hundredths: 0 }
    );
}

#[test]
fn thousands_have_two_decimals() {
    assert_eq!(
        volume_label(1_000),
        VolumeLabel { unit: VolumeUnit::Thousands, whole: 1, hundredths: 0 }
    );
    assert_eq!(
        volume_label(1_234),
        VolumeLabel { unit: VolumeUnit::Thousands, whole: 1, hundredths: 23 }
    );
    assert_eq!(
        volume_label(1_235),
        VolumeLabel { unit: VolumeUnit::Thousands, whole: 1, hundredths: 24 }
    );
    assert_eq!(
        volume_label(999_999),
        VolumeLabel { unit: VolumeUnit::Thousands, whole: 1_000, hundredths: 0 }
    );
}

#[test]
fn millions_have_two_decimals() {
    assert_eq!(MILLION, 1_000_000);
    assert_eq!(
        volume_label(1_000_000),
        VolumeLabel { unit: VolumeUnit::Millions, whole: 1, hundredths: 0 }
    );
    assert_eq!(
        volume_label(1_234_567),
        VolumeLabel { unit: VolumeUnit::Millions, whole: 1, hundredths: 23 }
    );
    assert_eq!(
        volume_label(1_235_000),
        VolumeLabel { unit: VolumeUnit::Millions, whole: 1, hundredths: 24 }
    );
    assert_eq!(
        volume_label(u64::MAX),
        VolumeLabel { unit: VolumeUnit::Millions, whole: 18_446_744_073_709, hundredths: 55 }
    );
}
