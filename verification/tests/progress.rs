use installer_core::progress::{
    percent, scaled_share, Milestone, ProgressEvent, StatusKey, BUNDLE_PPM, CLEANING_PPM,
    DOWNLOAD_BASE_PPM, EXTRACT_BASE_PPM, FULL_SCALE, SHORTCUTS_PPM,
};

fn as_fraction(ppm: u32) -> f32 {
    ppm as f32 / FULL_SCALE as f32
}

#[test]
fn half_of_a_download_is_four_tenths() {
    let event = ProgressEvent::download(500_000, 1_000_000).expect("a report is due");
    assert_eq!(event.fraction_ppm, 400_000);
    assert_eq!(event.status, StatusKey::DownloadingPercent);
    assert_eq!(event.status.as_str(), "status_downloading_percent");
    assert_eq!(event.detail.as_deref(), Some("50"));
    assert_eq!(as_fraction(event.fraction_ppm), 0.2 + 0.4 * 0.5);
}

#[test]
fn download_is_reported_only_at_the_interval() {
    assert!(ProgressEvent::download(499_999, 1_000_000).is_none());
    assert!(ProgressEvent::download(500_001, 1_000_000).is_none());
    assert!(ProgressEvent::download(8_192, 1_000_000).is_none());
    assert!(ProgressEvent::download(100_000, 1_000_000).is_some());
    assert!(ProgressEvent::download(1_000_000, 1_000_000).is_some());
}

#[test]
fn download_of_unknown_length_is_never_reported() {
    assert!(ProgressEvent::download(100_000, 0).is_none());
    assert!(ProgressEvent::download(0, 0).is_none());
    assert!(ProgressEvent::download(200_000, 0).is_none());
}

#[test]
fn small_download_is_never_reported_after_its_start() {
    let total: u64 = 50_000;
    let mut received: u64 = 0;
    while received < total {
        received += 8_192.min(total - received);
        assert!(ProgressEvent::download(received, total).is_none());
    }
}

#[test]
fn download_fractions_span_two_to_six_tenths() {
    let first = ProgressEvent::download(0, 300_000).expect("a report is due");
    assert_eq!(first.fraction_ppm, 200_000);
    assert_eq!(first.detail.as_deref(), Some("0"));
    let third = ProgressEvent::download(100_000, 300_000).expect("a report is due");
    assert_eq!(third.fraction_ppm, 333_333);
    assert_eq!(third.detail.as_deref(), Some("33"));
    let two_thirds = ProgressEvent::download(200_000, 300_000).expect("a report is due");
    assert_eq!(two_thirds.fraction_ppm, 466_666);
    assert_eq!(two_thirds.detail.as_deref(), Some("67"));
    let all = ProgressEvent::download(300_000, 300_000).expect("a report is due");
    assert_eq!(all.fraction_ppm, 600_000);
    assert_eq!(all.detail.as_deref(), Some("100"));
}

#[test]
fn download_beyond_the_declared_length_stays_at_the_whole() {
    let event = ProgressEvent::download(200_000, 100_000).expect("a report is due");
    assert_eq!(event.fraction_ppm, 600_000);
    assert_eq!(event.detail.as_deref(), Some("100"));
}

#[test]
fn extraction_is_reported_every_tenth_entry() {
    assert!(ProgressEvent::extraction(0, 25).is_some());
    assert!(ProgressEvent::extraction(1, 25).is_none());
    assert!(ProgressEvent::extraction(9, 25).is_none());
    assert!(ProgressEvent::extraction(10, 25).is_some());
    assert!(ProgressEvent::extraction(20, 25).is_some());
    assert!(ProgressEvent::extraction(0, 0).is_none());
}

#[test]
fn extraction_fractions_span_six_to_nine_tenths() {
    let first = ProgressEvent::extraction(0, 40).expect("a report is due");
    assert_eq!(first.fraction_ppm, 600_000);
    assert_eq!(first.status, StatusKey::Installing);
    assert_eq!(first.detail, None);
    let quarter = ProgressEvent::extraction(10, 40).expect("a report is due");
    assert_eq!(quarter.fraction_ppm, 675_000);
    assert_eq!(as_fraction(quarter.fraction_ppm), 0.6 + 0.3 * 0.25);
    let late = ProgressEvent::extraction(30, 40).expect("a report is due");
    assert_eq!(late.fraction_ppm, 825_000);
}

#[test]
fn stage_events_carry_the_fixed_fractions() {
    assert_eq!(ProgressEvent::stage(StatusKey::Cleaning).fraction_ppm, CLEANING_PPM);
    assert_eq!(ProgressEvent::stage(StatusKey::DownloadingStart).fraction_ppm, DOWNLOAD_BASE_PPM);
    assert_eq!(ProgressEvent::stage(StatusKey::Extracting).fraction_ppm, EXTRACT_BASE_PPM);
    assert_eq!(ProgressEvent::stage(StatusKey::Shortcuts).fraction_ppm, SHORTCUTS_PPM);
    assert_eq!(ProgressEvent::stage(StatusKey::Opera).fraction_ppm, BUNDLE_PPM);
    assert_eq!(as_fraction(CLEANING_PPM), 0.1);
    assert_eq!(as_fraction(DOWNLOAD_BASE_PPM), 0.2);
    assert_eq!(as_fraction(EXTRACT_BASE_PPM), 0.6);
    assert_eq!(as_fraction(SHORTCUTS_PPM), 0.95);
    assert_eq!(as_fraction(BUNDLE_PPM), 0.98);
    assert_eq!(ProgressEvent::stage(StatusKey::Cleaning).detail, None);
}

#[test]
fn status_keys_are_spelled_as_the_observer_expects() {
    assert_eq!(StatusKey::Cleaning.as_str(), "status_cleaning");
    assert_eq!(StatusKey::DownloadingStart.as_str(), "status_downloading_start");
    assert_eq!(StatusKey::DownloadingPercent.as_str(), "status_downloading_percent");
    assert_eq!(StatusKey::Extracting.as_str(), "status_extracting");
    assert_eq!(StatusKey::Installing.as_str(), "status_installing");
    assert_eq!(StatusKey::Shortcuts.as_str(), "status_shortcuts");
    assert_eq!(StatusKey::Opera.as_str(), "status_opera");
}

#[test]
fn milestones_are_named_as_the_analytics_expect() {
    assert_eq!(Milestone::InstallStarted.name(), "install_started");
    assert_eq!(Milestone::OperaAccepted.name(), "opera_accepted");
    assert_eq!(Milestone::CleanupStarted.name(), "cleanup_started");
    assert_eq!(Milestone::CleanupFinished.name(), "cleanup_finished");
    assert_eq!(Milestone::DownloadStarted.name(), "download_started");
    assert_eq!(Milestone::DownloadFinished.name(), "download_finished");
    assert_eq!(Milestone::ExtractStarted.name(), "extract_started");
    assert_eq!(Milestone::ExtractComplete.name(), "extract_complete");
    assert_eq!(Milestone::UninstallerRegistered.name(), "uninstaller_registered");
    assert_eq!(Milestone::ShortcutsCreated.name(), "shortcuts_created");
    assert_eq!(Milestone::OperaInstalled.name(), "opera_installed");
    assert_eq!(Milestone::InstallComplete.name(), "install_complete");
}

#[test]
fn share_is_rounded_down_and_capped() {
    assert_eq!(scaled_share(400_000, 1, 3), 133_333);
    assert_eq!(scaled_share(400_000, 2, 3), 266_666);
    assert_eq!(scaled_share(400_000, 3, 3), 400_000);
    assert_eq!(scaled_share(400_000, 4, 3), 400_000);
    assert_eq!(scaled_share(300_000, 0, 7), 0);
    assert_eq!(scaled_share(u32::MAX, u64::MAX, u64::MAX), u32::MAX);
    assert_eq!(scaled_share(u32::MAX, u64::MAX - 1, u64::MAX), u32::MAX - 1);
}

#[test]
fn percent_rounds_to_the_nearest() {
    assert_eq!(percent(1, 3), 33);
    assert_eq!(percent(2, 3), 67);
    assert_eq!(percent(0, 9), 0);
    assert_eq!(percent(9, 9), 100);
    assert_eq!(percent(10, 9), 100);
    assert_eq!(percent(994, 1000), 99);
    assert_eq!(percent(996, 1000), 100);
}

#[test]
fn percent_rounds_halves_to_the_even() {
    assert_eq!(percent(1, 200), 0);
    assert_eq!(percent(3, 200), 2);
    assert_eq!(percent(5, 200), 2);
    assert_eq!(percent(7, 200), 4);
    assert_eq!(percent(199, 200), 100);
}

#[test]
fn percent_matches_the_formatting_of_floats() {
    let total: u64 = 1_000_000;
    let mut received: u64 = 0;
    while received <= total {
        let expected = format!("{:.0}", (received as f32 / total as f32) * 100.0);
        assert_eq!(percent(received, total).to_string(), expected);
        received += 100_000;
    }
}

#[test]
fn fractions_grow_with_the_bytes_received() {
    let total: u64 = 7_300_000;
    let mut last: u32 = 0;
    let mut received: u64 = 0;
    while received <= total {
        let event = ProgressEvent::download(received, total).expect("a report is due");
        assert!(event.fraction_ppm >= last);
        assert!(event.fraction_ppm <= 600_000);
        last = event.fraction_ppm;
        received += 100_000;
    }
}
