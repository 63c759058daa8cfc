use ytmp3::archive::ArchiveKind;
use ytmp3::provision::{next_step, provision_plan, Platform, ProvisionStep};

#[test]
fn linux_plan_names_the_tar_xz_assets() {
    let p = provision_plan(Platform::Linux, "/opt/libs");
    assert_eq!(
        p.downloader_url,
        "https://github.com/yt-dlp/yt-dlp/releases/latest/download/yt-dlp"
    );
    assert_eq!(p.downloader_file, "/opt/libs/yt-dlp");
    assert_eq!(
        p.archive_url,
        "https://johnvansickle.com/ffmpeg/releases/ffmpeg-release-amd64-static.tar.xz"
    );
    assert_eq!(p.archive_file, "/opt/libs/ffmpeg.tar.xz");
    assert_eq!(p.transcoder_file, "/opt/libs/ffmpeg");
    assert_eq!(p.transcoder_entry, "ffmpeg");
    assert_eq!(p.archive_kind, ArchiveKind::TarXz);
    assert!(p.mark_executable);
}

#[test]
fn windows_plan_names_the_sevenz_assets() {
    let p = provision_plan(Platform::Windows, "/opt/libs");
    assert_eq!(
        p.downloader_url,
        "https://github.com/yt-dlp/yt-dlp/releases/latest/download/yt-dlp.exe"
    );
    assert_eq!(p.downloader_file, "/opt/libs/yt-dlp.exe");
    assert_eq!(
        p.archive_url,
        "https://www.gyan.dev/ffmpeg/builds/ffmpeg-git-essentials.7z"
    );
    assert_eq!(p.archive_file, "/opt/libs/ffmpeg.7z");
    assert_eq!(p.transcoder_file, "/opt/libs/ffmpeg.exe");
    assert_eq!(p.transcoder_entry, "ffmpeg.exe");
    assert_eq!(p.archive_kind, ArchiveKind::SevenZ);
    assert!(!p.mark_executable);
}

#[test]
fn the_plan_is_deterministic_across_calls() {
    let a = provision_plan(Platform::Linux, "/opt/libs");
    let b = provision_plan(Platform::Linux, "/opt/libs");
    assert_eq!(a.downloader_file, b.downloader_file);
    assert_eq!(a.archive_file, b.archive_file);
    assert_eq!(a.transcoder_file, b.transcoder_file);
}

#[test]
fn steps_run_in_the_fixed_fail_fast_order() {
    let mut s = ProvisionStep::CreateFolder;
    let mut seen = vec![s];
    while s != ProvisionStep::Done {
        s = next_step(s);
        seen.push(s);
    }
    assert_eq!(
        seen,
        vec![
            ProvisionStep::CreateFolder,
            ProvisionStep::InstallDownloader,
            ProvisionStep::FetchArchive,
            ProvisionStep::ExtractTranscoder,
            ProvisionStep::RemoveArchive,
            ProvisionStep::Done,
        ]
    );
    assert_eq!(next_step(ProvisionStep::Done), ProvisionStep::Done);
}
