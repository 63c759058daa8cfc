use ytmp3::converter::{Action, CommandMessage, Converter, Failure, Message, Phase};
use ytmp3::drives::Drive;
use ytmp3::provision::ProvisionError;
use ytmp3::yt::{JobError, UpdateError, YoutubeDownloader};

const VALID_LINK: &str = "https://www.youtube.com/watch?v=abc123";

fn usb_drive() -> Drive {
    Drive::new(String::from("USB"), String::from("/media/usb"))
}

fn fresh(drives: Vec<Drive>) -> Converter {
    let yd = YoutubeDownloader::new(String::from("/nonexistent/libs"));
    Converter::new(yd, drives)
}

fn is_spawn(a: &Action) -> bool {
    matches!(
        a,
        Action::SpawnProvisioner | Action::SpawnUpdateCheck | Action::SpawnDownload { .. }
    )
}

#[test]
fn ready_state_spawns_one_download_job() {
    let mut c = fresh(vec![usb_drive()]);
    c.update_checked = true;
    let a0 = c.update(Message::LinkChanged(String::from(VALID_LINK)), true);
    assert_eq!(a0, Action::Nothing);
    let a1 = c.update(Message::Save, true);
    match a1 {
        Action::SpawnDownload { url, destination } => {
            assert_eq!(url, VALID_LINK);
            assert_eq!(destination, "/media/usb");
        }
        other => panic!("expected a download spawn, got {:?}", other),
    }
    assert_eq!(c.phase, Phase::DownloadRunning);
}

#[test]
fn foreign_scheme_link_is_rejected_without_spawns() {
    let mut c = fresh(vec![usb_drive()]);
    let a0 = c.update(Message::LinkChanged(String::from("ftp://example.com/x")), true);
    assert_eq!(a0, Action::Nothing);
    let a1 = c.update(Message::Save, true);
    assert_eq!(a1, Action::Nothing);
    assert!(!is_spawn(&a1));
    assert_eq!(c.phase, Phase::InvalidLink);
}

#[test]
fn no_destination_reports_and_stays_idle() {
    let mut c = fresh(vec![]);
    c.update(Message::LinkChanged(String::from(VALID_LINK)), true);
    let a = c.update(Message::Save, true);
    assert_eq!(a, Action::ReportNoDestination);
    assert_eq!(c.phase, Phase::Idle);
}

#[test]
fn double_start_spawns_exactly_one_job() {
    let mut c = fresh(vec![usb_drive()]);
    c.update_checked = true;
    c.update(Message::LinkChanged(String::from(VALID_LINK)), true);
    let a1 = c.update(Message::Save, true);
    assert!(matches!(a1, Action::SpawnDownload { .. }));
    let a2 = c.update(Message::Save, true);
    assert_eq!(a2, Action::Nothing);
    assert_eq!(c.phase, Phase::DownloadRunning);
}

#[test]
fn update_check_runs_once_across_two_chains() {
    let mut c = fresh(vec![usb_drive()]);
    c.update(Message::LinkChanged(String::from(VALID_LINK)), true);
    let mut update_spawns = 0;

    // First chain: tools present, update not yet checked.
    let a1 = c.update(Message::Save, true);
    assert_eq!(a1, Action::SpawnUpdateCheck);
    update_spawns += 1;
    let a2 = c.update_cmd(CommandMessage::UpdateCheckDone(Ok(())), true);
    assert!(matches!(a2, Action::SpawnDownload { .. }));
    let a3 = c.update_cmd(CommandMessage::DownloadFinished(Ok(())), true);
    assert_eq!(a3, Action::Nothing);
    let a4 = c.update(Message::SwitchToNormal, true);
    assert_eq!(a4, Action::Nothing);
    assert_eq!(c.phase, Phase::Idle);

    // Second chain: the update check must not run again.
    let b1 = c.update(Message::Save, true);
    if matches!(b1, Action::SpawnUpdateCheck) {
        update_spawns += 1;
    }
    assert!(matches!(b1, Action::SpawnDownload { .. }));
    let b2 = c.update_cmd(CommandMessage::DownloadFinished(Ok(())), true);
    assert_eq!(b2, Action::Nothing);
    assert_eq!(c.phase, Phase::DownloadSucceeded);

    assert_eq!(update_spawns, 1);
}

#[test]
fn reentry_walks_every_phase_once() {
    let mut c = fresh(vec![usb_drive()]);
    c.update(Message::LinkChanged(String::from(VALID_LINK)), true);
    assert_eq!(c.phase, Phase::Idle);

    let a1 = c.update(Message::Save, false);
    assert_eq!(a1, Action::SpawnProvisioner);
    assert_eq!(c.phase, Phase::ProvisioningPrerequisites);

    let a2 = c.update_cmd(CommandMessage::PreDownloadDone(Ok(())), true);
    assert_eq!(a2, Action::SpawnUpdateCheck);
    assert_eq!(c.phase, Phase::CheckingUpdate);

    let a3 = c.update_cmd(CommandMessage::UpdateCheckDone(Ok(())), true);
    match a3 {
        Action::SpawnDownload { url, destination } => {
            assert_eq!(url, VALID_LINK);
            assert_eq!(destination, "/media/usb");
        }
        other => panic!("expected a download spawn, got {:?}", other),
    }
    assert_eq!(c.phase, Phase::DownloadRunning);

    let a4 = c.update_cmd(CommandMessage::DownloadFinished(Ok(())), true);
    assert_eq!(a4, Action::Nothing);
    assert_eq!(c.phase, Phase::DownloadSucceeded);

    let a5 = c.update(Message::SwitchToNormal, true);
    assert_eq!(a5, Action::Nothing);
    assert_eq!(c.phase, Phase::Idle);
}

#[test]
fn provisioning_failure_returns_to_idle_with_report() {
    let mut c = fresh(vec![usb_drive()]);
    c.update(Message::LinkChanged(String::from(VALID_LINK)), true);
    let a1 = c.update(Message::Save, false);
    assert_eq!(a1, Action::SpawnProvisioner);
    let a2 = c.update_cmd(
        CommandMessage::PreDownloadDone(Err(ProvisionError::ArchiveDecodeFailure)),
        false,
    );
    assert_eq!(
        a2,
        Action::ReportFailure(Failure::Provision(ProvisionError::ArchiveDecodeFailure))
    );
    assert_eq!(c.phase, Phase::Idle);
}

#[test]
fn update_failure_returns_to_idle_and_still_counts_as_checked() {
    let mut c = fresh(vec![usb_drive()]);
    c.update(Message::LinkChanged(String::from(VALID_LINK)), true);
    let a1 = c.update(Message::Save, true);
    assert_eq!(a1, Action::SpawnUpdateCheck);
    let a2 = c.update_cmd(
        CommandMessage::UpdateCheckDone(Err(UpdateError::UpdateFailed(2))),
        true,
    );
    assert_eq!(
        a2,
        Action::ReportFailure(Failure::Update(UpdateError::UpdateFailed(2)))
    );
    assert_eq!(c.phase, Phase::Idle);
    assert!(c.update_checked);
}

#[test]
fn job_failure_returns_to_idle_with_report() {
    let mut c = fresh(vec![usb_drive()]);
    c.update_checked = true;
    c.update(Message::LinkChanged(String::from(VALID_LINK)), true);
    let a1 = c.update(Message::Save, true);
    assert!(matches!(a1, Action::SpawnDownload { .. }));
    let a2 = c.update_cmd(
        CommandMessage::DownloadFinished(Err(JobError::JobFailed(1))),
        true,
    );
    assert_eq!(
        a2,
        Action::ReportFailure(Failure::Job(JobError::JobFailed(1)))
    );
    assert_eq!(c.phase, Phase::Idle);
}

#[test]
fn link_change_clears_invalid_link() {
    let mut c = fresh(vec![usb_drive()]);
    c.update(Message::LinkChanged(String::from("nonsense")), true);
    c.update(Message::Save, true);
    assert_eq!(c.phase, Phase::InvalidLink);
    c.update(Message::LinkChanged(String::from(VALID_LINK)), true);
    assert_eq!(c.phase, Phase::Idle);
}

#[test]
fn stored_inputs_do_not_change_while_busy() {
    let mut c = fresh(vec![usb_drive()]);
    c.update_checked = true;
    c.update(Message::LinkChanged(String::from(VALID_LINK)), true);
    c.update(Message::Save, true);
    assert_eq!(c.phase, Phase::DownloadRunning);
    c.update(
        Message::DriveSelection(Drive::new(String::from("SD"), String::from("/media/sd"))),
        true,
    );
    c.update(Message::LinkChanged(String::from("ftp://other")), true);
    assert_eq!(c.link, VALID_LINK);
    assert_eq!(c.selected_drive.as_ref().unwrap().mount_point, "/media/usb");
}

#[test]
fn start_ignored_during_success_display() {
    let mut c = fresh(vec![usb_drive()]);
    c.update_checked = true;
    c.update(Message::LinkChanged(String::from(VALID_LINK)), true);
    c.update(Message::Save, true);
    c.update_cmd(CommandMessage::DownloadFinished(Ok(())), true);
    assert_eq!(c.phase, Phase::DownloadSucceeded);
    let a = c.update(Message::Save, true);
    assert_eq!(a, Action::Nothing);
    assert_eq!(c.phase, Phase::DownloadSucceeded);
}

#[test]
fn new_selects_first_drive_and_starts_idle() {
    let c = fresh(vec![
        usb_drive(),
        Drive::new(String::from("SD"), String::from("/media/sd")),
    ]);
    assert_eq!(c.phase, Phase::Idle);
    assert!(!c.update_checked);
    assert_eq!(c.link, "");
    assert_eq!(c.selected_drive.as_ref().unwrap().name, "USB");

    let empty = fresh(vec![]);
    assert!(empty.selected_drive.is_none());
}
