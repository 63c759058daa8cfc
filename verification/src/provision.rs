//! Provisioning of the two tool binaries: the per-platform release-asset
//! plan (URLs, file names, archive decoder), the fixed fail-fast step order
//! the surrounding program runs, and a disk model on which the whole
//! sequence is proved idempotent — retrying after success changes nothing.

use vstd::prelude::*;
use vstd::string::StringExecFns;

use crate::archive::ArchiveKind;

verus! {

/// The build targets the release assets differ between.
#[derive(Clone, Copy, Debug, PartialEq, Eq, Structural)]
pub enum Platform {
    Linux,
    Windows,
}

/// The steps of one provisioning run, in their fixed order; each is a
/// fail-fast point.
#[derive(Clone, Copy, Debug, PartialEq, Eq, Structural)]
pub enum ProvisionStep {
    CreateFolder,
    InstallDownloader,
    FetchArchive,
    ExtractTranscoder,
    RemoveArchive,
    Done,
}

/// Why a provisioning run aborted: a network fetch or a disk write failed
/// at the recorded step, the archive bytes did not decode, or no archive
/// entry named the transcoder.
#[derive(Clone, Copy, Debug, PartialEq, Eq)]
pub enum ProvisionError {
    NetworkFailure(ProvisionStep),
    DiskWriteFailure(ProvisionStep),
    ArchiveDecodeFailure,
    MissingArchiveEntry,
}

/// Everything one provisioning run needs: asset URLs, the full paths the
/// files are written to, the archive decoder, the entry-name marker of the
/// transcoder, and whether executable permissions must be set afterwards.
#[derive(Debug)]
pub struct ProvisionPlan {
    pub downloader_url: String,
    pub downloader_file: String,
    pub archive_url: String,
    pub archive_file: String,
    pub transcoder_file: String,
    pub transcoder_entry: String,
    pub archive_kind: ArchiveKind,
    pub mark_executable: bool,
}

pub open spec fn spec_downloader_url(p: Platform) -> Seq<char> {
    match p {
        Platform::Linux => "https://github.com/yt-dlp/yt-dlp/releases/latest/download/yt-dlp"@,
        Platform::Windows => "https://github.com/yt-dlp/yt-dlp/releases/latest/download/yt-dlp.exe"@,
    }
}

pub open spec fn spec_archive_url(p: Platform) -> Seq<char> {
    match p {
        Platform::Linux => "https://johnvansickle.com/ffmpeg/releases/ffmpeg-release-amd64-static.tar.xz"@,
        Platform::Windows => "https://www.gyan.dev/ffmpeg/builds/ffmpeg-git-essentials.7z"@,
    }
}

pub open spec fn spec_downloader_file(p: Platform, folder: Seq<char>) -> Seq<char> {
    match p {
        Platform::Linux => folder + "/yt-dlp"@,
        Platform::Windows => folder + "/yt-dlp.exe"@,
    }
}

pub open spec fn spec_archive_file(p: Platform, folder: Seq<char>) -> Seq<char> {
    match p {
        Platform::Linux => folder + "/ffmpeg.tar.xz"@,
        Platform::Windows => folder + "/ffmpeg.7z"@,
    }
}

pub open spec fn spec_transcoder_file(p: Platform, folder: Seq<char>) -> Seq<char> {
    match p {
        Platform::Linux => folder + "/ffmpeg"@,
        Platform::Windows => folder + "/ffmpeg.exe"@,
    }
}

pub open spec fn spec_transcoder_entry(p: Platform) -> Seq<char> {
    match p {
        Platform::Linux => "ffmpeg"@,
        Platform::Windows => "ffmpeg.exe"@,
    }
}

pub open spec fn spec_archive_kind(p: Platform) -> ArchiveKind {
    match p {
        Platform::Linux => ArchiveKind::TarXz,
        Platform::Windows => ArchiveKind::SevenZ,
    }
}

/// The release-asset plan for one platform: same contract everywhere, only
/// the asset coordinates and the archive decoder differ.
pub fn provision_plan(platform: Platform, libs_folder: &str) -> (r: ProvisionPlan)
    ensures
        r.downloader_url@ == spec_downloader_url(platform),
        r.downloader_file@ == spec_downloader_file(platform, libs_folder@),
        r.archive_url@ == spec_archive_url(platform),
        r.archive_file@ == spec_archive_file(platform, libs_folder@),
        r.transcoder_file@ == spec_transcoder_file(platform, libs_folder@),
        r.transcoder_entry@ == spec_transcoder_entry(platform),
        r.archive_kind == spec_archive_kind(platform),
        r.mark_executable == (platform == Platform::Linux),
{
    match platform {
        Platform::Linux => ProvisionPlan {
            downloader_url: String::from_str(
                "https://github.com/yt-dlp/yt-dlp/releases/latest/download/yt-dlp",
            ),
            downloader_file: String::from_str(libs_folder).concat("/yt-dlp"),
            archive_url: String::from_str(
                "https://johnvansickle.com/ffmpeg/releases/ffmpeg-release-amd64-static.tar.xz",
            ),
            archive_file: String::from_str(libs_folder).concat("/ffmpeg.tar.xz"),
            transcoder_file: String::from_str(libs_folder).concat("/ffmpeg"),
            transcoder_entry: String::from_str("ffmpeg"),
            archive_kind: ArchiveKind::TarXz,
            mark_executable: true,
        },
        Platform::Windows => ProvisionPlan {
            downloader_url: String::from_str(
                "https://github.com/yt-dlp/yt-dlp/releases/latest/download/yt-dlp.exe",
            ),
            downloader_file: String::from_str(libs_folder).concat("/yt-dlp.exe"),
            archive_url: String::from_str(
                "https://www.gyan.dev/ffmpeg/builds/ffmpeg-git-essentials.7z",
            ),
            archive_file: String::from_str(libs_folder).concat("/ffmpeg.7z"),
            transcoder_file: String::from_str(libs_folder).concat("/ffmpeg.exe"),
            transcoder_entry: String::from_str("ffmpeg.exe"),
            archive_kind: ArchiveKind::SevenZ,
            mark_executable: false,
        },
    }
}

/// The step after `s` when `s` succeeded.
pub open spec fn spec_next_step(s: ProvisionStep) -> ProvisionStep {
    match s {
        ProvisionStep::CreateFolder => ProvisionStep::InstallDownloader,
        ProvisionStep::InstallDownloader => ProvisionStep::FetchArchive,
        ProvisionStep::FetchArchive => ProvisionStep::ExtractTranscoder,
        ProvisionStep::ExtractTranscoder => ProvisionStep::RemoveArchive,
        ProvisionStep::RemoveArchive => ProvisionStep::Done,
        ProvisionStep::Done => ProvisionStep::Done,
    }
}

/// Advances the provisioning sequence past a step that succeeded.  Any step
/// that fails instead aborts the whole run with a `ProvisionError`; nothing
/// is retried within a run.
pub fn next_step(s: ProvisionStep) -> (r: ProvisionStep)
    ensures
        r == spec_next_step(s),
{
    match s {
        ProvisionStep::CreateFolder => ProvisionStep::InstallDownloader,
        ProvisionStep::InstallDownloader => ProvisionStep::FetchArchive,
        ProvisionStep::FetchArchive => ProvisionStep::ExtractTranscoder,
        ProvisionStep::ExtractTranscoder => ProvisionStep::RemoveArchive,
        ProvisionStep::RemoveArchive => ProvisionStep::Done,
        ProvisionStep::Done => ProvisionStep::Done,
    }
}

/// What a successful provisioning run does to the files it touches, on a
/// disk modeled as a map from path to content: the downloader binary is
/// written, the archive is written, the transcoder entry extracted from it
/// is written, and the intermediate archive file is deleted again.
pub open spec fn spec_provision_effect(
    disk: Map<Seq<char>, Seq<u8>>,
    dl_path: Seq<char>,
    ar_path: Seq<char>,
    tr_path: Seq<char>,
    dl_bytes: Seq<u8>,
    ar_bytes: Seq<u8>,
    extracted: Seq<u8>,
) -> Map<Seq<char>, Seq<u8>> {
    disk.insert(dl_path, dl_bytes).insert(ar_path, ar_bytes).insert(tr_path, extracted).remove(
        ar_path,
    )
}

/// Retrying after success is safe: a second successful provisioning run
/// with the same fetched bytes leaves the disk exactly as the first did,
/// with the same two executables present and no archive file behind.
pub proof fn lemma_provision_idempotent(
    disk: Map<Seq<char>, Seq<u8>>,
    dl_path: Seq<char>,
    ar_path: Seq<char>,
    tr_path: Seq<char>,
    dl_bytes: Seq<u8>,
    ar_bytes: Seq<u8>,
    extracted: Seq<u8>,
)
    requires
        dl_path != ar_path,
        tr_path != ar_path,
        dl_path != tr_path,
    ensures
        spec_provision_effect(
            spec_provision_effect(disk, dl_path, ar_path, tr_path, dl_bytes, ar_bytes, extracted),
            dl_path,
            ar_path,
            tr_path,
            dl_bytes,
            ar_bytes,
            extracted,
        ) =~= spec_provision_effect(disk, dl_path, ar_path, tr_path, dl_bytes, ar_bytes, extracted),
        spec_provision_effect(disk, dl_path, ar_path, tr_path, dl_bytes, ar_bytes, extracted)[
            dl_path
        ] == dl_bytes,
        spec_provision_effect(disk, dl_path, ar_path, tr_path, dl_bytes, ar_bytes, extracted)[
            tr_path
        ] == extracted,
        !spec_provision_effect(
            disk,
            dl_path,
            ar_path,
            tr_path,
            dl_bytes,
            ar_bytes,
            extracted,
        ).contains_key(ar_path),
{
}

/// The three file paths of a plan never collide, on either platform, so the
/// deletion of the archive file can touch neither installed binary.
pub proof fn lemma_plan_paths_distinct(platform: Platform, folder: Seq<char>)
    ensures
        spec_downloader_file(platform, folder) != spec_archive_file(platform, folder),
        spec_transcoder_file(platform, folder) != spec_archive_file(platform, folder),
        spec_downloader_file(platform, folder) != spec_transcoder_file(platform, folder),
{
    reveal_strlit("/yt-dlp");
    reveal_strlit("/yt-dlp.exe");
    reveal_strlit("/ffmpeg.tar.xz");
    reveal_strlit("/ffmpeg.7z");
    reveal_strlit("/ffmpeg");
    reveal_strlit("/ffmpeg.exe");
    match platform {
        Platform::Linux => {
            lemma_append_neq_by_len(folder, "/yt-dlp"@, "/ffmpeg.tar.xz"@);
            lemma_append_neq_by_len(folder, "/ffmpeg"@, "/ffmpeg.tar.xz"@);
            lemma_append_neq_by_char(folder, "/yt-dlp"@, "/ffmpeg"@, 1);
        },
        Platform::Windows => {
            lemma_append_neq_by_len(folder, "/yt-dlp.exe"@, "/ffmpeg.7z"@);
            lemma_append_neq_by_len(folder, "/ffmpeg.exe"@, "/ffmpeg.7z"@);
            lemma_append_neq_by_char(folder, "/yt-dlp.exe"@, "/ffmpeg.exe"@, 1);
        },
    }
}

/// Appending different-length suffixes to one prefix gives different
/// sequences.
proof fn lemma_append_neq_by_len(folder: Seq<char>, a: Seq<char>, b: Seq<char>)
    requires
        a.len() != b.len(),
    ensures
        folder + a != folder + b,
{
    if folder + a == folder + b {
        assert((folder + a).len() == (folder + b).len());
    }
}

/// Appending suffixes that differ at position `k` to one prefix gives
/// different sequences.
proof fn lemma_append_neq_by_char(folder: Seq<char>, a: Seq<char>, b: Seq<char>, k: int)
    requires
        0 <= k < a.len(),
        k < b.len(),
        a[k] != b[k],
    ensures
        folder + a != folder + b,
{
    if folder + a == folder + b {
        assert((folder + a)[folder.len() + k] == a[k]);
        assert((folder + b)[folder.len() + k] == b[k]);
    }
}

} // verus!
