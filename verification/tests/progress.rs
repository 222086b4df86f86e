use release_installer::progress::DownloadProgress;
use release_installer::progress::Percentage;
use release_installer::progress::ProgressStatus;

#[test]
fn percentage_of_is_the_exact_share() {
    assert_eq!(Percentage::of(250, 1000), Percentage { numerator: 250, denominator: 1000 });
    assert_eq!(Percentage::of(250, 1000).whole_points(), 25);
    assert_eq!(Percentage::of(1, 3).whole_points(), 33);
    assert_eq!(Percentage::of(2, 3).whole_points(), 66);
    assert_eq!(Percentage::of(1000, 1000).whole_points(), 100);
    assert_eq!(Percentage::of(0, 1000).whole_points(), 0);
}

#[test]
fn percentage_of_nothing_is_zero() {
    assert_eq!(Percentage::of(5, 0), Percentage::zero());
    assert_eq!(Percentage::of(0, 0).whole_points(), 0);
}

#[test]
fn percentage_does_not_overflow_at_the_limits() {
    assert_eq!(Percentage::of(u64::MAX, u64::MAX).whole_points(), 100);
    assert_eq!(Percentage::of(u64::MAX, 1).whole_points(), 100 * (u64::MAX as u128));
    assert_eq!(Percentage { numerator: 1, denominator: 0 }.whole_points(), 0);
}

#[test]
fn fixed_events_are_at_zero_and_at_one_hundred() {
    assert_eq!(DownloadProgress::started().percentage.whole_points(), 0);
    assert_eq!(DownloadProgress::started().status, ProgressStatus::Started);
    assert_eq!(DownloadProgress::downloaded().percentage.whole_points(), 100);
    assert_eq!(DownloadProgress::downloaded().status, ProgressStatus::Downloaded);
    assert_eq!(DownloadProgress::installed().percentage.whole_points(), 100);
    assert_eq!(DownloadProgress::installed().status, ProgressStatus::Installed);
    assert_eq!(DownloadProgress::receiving(1, 4).status, ProgressStatus::Receiving);
}

#[test]
fn percentage_converts_to_a_decimal_value() {
    let p = DownloadProgress::receiving(250, 1000).percentage;
    let value = p.numerator as f64 / p.denominator as f64 * 100.0;
    assert_eq!(value, 25.0);
}

#[test]
fn labels_name_the_phase() {
    assert_eq!(ProgressStatus::Started.label(), "Downloading...");
    assert_eq!(ProgressStatus::Receiving.label(), "Downloading...");
    assert_eq!(ProgressStatus::Downloaded.label(), "Download complete. Unzipping...");
    assert_eq!(ProgressStatus::Installed.label(), "Installation complete!");
}
