use lost_project_shell::installer::{
    decimal_string, download_step, installer_filename, is_success_status, DownloadEvent,
    DownloadPhase, InstallerError,
};

#[test]
fn filename_embeds_the_version() {
    let name = installer_filename("0.1.0");
    assert_eq!(name.as_str(), "The Lost Project_0.1.0_x64.dmg");
}

#[test]
fn filename_for_empty_version() {
    let name = installer_filename("");
    assert_eq!(name.as_str(), "The Lost Project__x64.dmg");
}

#[test]
fn filenames_differ_per_version() {
    assert_ne!(installer_filename("1.0.0"), installer_filename("1.0.1"));
}

#[test]
fn success_status_range() {
    assert!(!is_success_status(199));
    assert!(is_success_status(200));
    assert!(is_success_status(204));
    assert!(is_success_status(299));
    assert!(!is_success_status(300));
    assert!(!is_success_status(404));
    assert!(!is_success_status(500));
}

#[test]
fn decimal_rendering() {
    assert_eq!(decimal_string(0).as_str(), "0");
    assert_eq!(decimal_string(7).as_str(), "7");
    assert_eq!(decimal_string(10).as_str(), "10");
    assert_eq!(decimal_string(404).as_str(), "404");
    assert_eq!(decimal_string(65535).as_str(), "65535");
}

#[test]
fn error_messages_are_exact() {
    assert_eq!(
        InstallerError::RequestFailed.message().as_str(),
        "failed to download the installer"
    );
    assert_eq!(
        InstallerError::BadStatus(404).message().as_str(),
        "installer download failed with HTTP status 404"
    );
    assert_eq!(
        InstallerError::DownloadsDirUnavailable.message().as_str(),
        "could not locate the downloads directory"
    );
    assert_eq!(
        InstallerError::SaveFailed.message().as_str(),
        "failed to save the installer to the downloads directory"
    );
    assert_eq!(
        InstallerError::OpenFailed.message().as_str(),
        "failed to open the downloaded installer"
    );
}

#[test]
fn error_messages_are_distinct() {
    let errors = vec![
        InstallerError::RequestFailed,
        InstallerError::BadStatus(404),
        InstallerError::BadStatus(500),
        InstallerError::DownloadsDirUnavailable,
        InstallerError::SaveFailed,
        InstallerError::OpenFailed,
    ];
    let messages: Vec<String> = errors.iter().map(|e| e.message()).collect();
    for i in 0..messages.len() {
        for j in 0..messages.len() {
            if i != j {
                assert_ne!(messages[i], messages[j]);
            }
        }
    }
}

#[test]
fn download_happy_path() {
    let mut phase = DownloadPhase::Fetching;
    phase = download_step(phase, DownloadEvent::Response { status: 200, body_len: 1234 });
    assert_eq!(phase, DownloadPhase::Saving { expected_len: 1234 });
    phase = download_step(phase, DownloadEvent::Written { bytes: 1234 });
    assert_eq!(phase, DownloadPhase::Opening);
    phase = download_step(phase, DownloadEvent::Opened);
    assert_eq!(phase, DownloadPhase::Done);
}

#[test]
fn non_success_response_fails_before_any_write() {
    let phase = download_step(
        DownloadPhase::Fetching,
        DownloadEvent::Response { status: 404, body_len: 9 },
    );
    assert_eq!(phase, DownloadPhase::Failed { error: InstallerError::BadStatus(404) });
}

#[test]
fn network_failure_is_reported() {
    let phase = download_step(DownloadPhase::Fetching, DownloadEvent::NetworkFailure);
    assert_eq!(phase, DownloadPhase::Failed { error: InstallerError::RequestFailed });
}

#[test]
fn missing_downloads_directory_is_reported() {
    let phase = download_step(
        DownloadPhase::Saving { expected_len: 10 },
        DownloadEvent::DirectoryMissing,
    );
    assert_eq!(phase, DownloadPhase::Failed { error: InstallerError::DownloadsDirUnavailable });
}

#[test]
fn short_write_fails_the_save() {
    let phase = download_step(
        DownloadPhase::Saving { expected_len: 10 },
        DownloadEvent::Written { bytes: 9 },
    );
    assert_eq!(phase, DownloadPhase::Failed { error: InstallerError::SaveFailed });
}

#[test]
fn write_failure_is_reported() {
    let phase = download_step(DownloadPhase::Saving { expected_len: 10 }, DownloadEvent::WriteFailure);
    assert_eq!(phase, DownloadPhase::Failed { error: InstallerError::SaveFailed });
}

#[test]
fn open_failure_is_reported() {
    let phase = download_step(DownloadPhase::Opening, DownloadEvent::OpenFailure);
    assert_eq!(phase, DownloadPhase::Failed { error: InstallerError::OpenFailed });
}

#[test]
fn terminal_phases_do_not_move() {
    let failed = DownloadPhase::Failed { error: InstallerError::BadStatus(404) };
    let next = download_step(failed, DownloadEvent::Response { status: 200, body_len: 4 });
    assert_eq!(next, failed);
    let done = download_step(DownloadPhase::Done, DownloadEvent::OpenFailure);
    assert_eq!(done, DownloadPhase::Done);
}

#[test]
fn unexpected_events_are_ignored() {
    let phase = download_step(DownloadPhase::Fetching, DownloadEvent::Opened);
    assert_eq!(phase, DownloadPhase::Fetching);
    let phase = download_step(
        DownloadPhase::Saving { expected_len: 3 },
        DownloadEvent::Response { status: 200, body_len: 3 },
    );
    assert_eq!(phase, DownloadPhase::Saving { expected_len: 3 });
}
