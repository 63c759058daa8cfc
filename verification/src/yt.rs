//! The two external command-line tools: where they live on disk, the exact
//! argument template a download job is spawned with, and the mapping from
//! process exit codes to typed errors.  Spawning itself is done by the
//! surrounding program; everything it passes to the tools is computed here.

use vstd::prelude::*;
use vstd::string::StringExecFns;

verus! {

/// The update-check invocation failed: the tool's self-update run exited
/// with the recorded non-zero code.
#[derive(Clone, Copy, Debug, PartialEq, Eq)]
pub enum UpdateError {
    UpdateFailed(i32),
}

/// A download job failed: the child process could not be spawned, or it
/// exited with the recorded non-zero code.
#[derive(Clone, Copy, Debug, PartialEq, Eq)]
pub enum JobError {
    SpawnFailure,
    JobFailed(i32),
}

/// Paths of the downloader and transcoder binaries, resolved once from the
/// libs folder at construction and immutable afterwards.
#[derive(Debug)]
pub struct YoutubeDownloader {
    pub yt_dlp_path: String,
    pub ffmpeg_path: String,
}

/// The fixed argument template of a download job: positional URL, output
/// name fixed to the source title, audio extraction only, quiet, mp3 output,
/// no playlist expansion, explicit transcoder location, output directory,
/// and a percent-only machine-readable progress line.
pub open spec fn spec_download_args(
    ffmpeg_path: Seq<char>,
    url: Seq<char>,
    dest_dir: Seq<char>,
) -> Seq<Seq<char>> {
    seq![
        url,
        "-o"@,
        "%(title)s"@,
        "-x"@,
        "-q"@,
        "--audio-format"@,
        "mp3"@,
        "--no-playlist"@,
        "--ffmpeg-location"@,
        ffmpeg_path,
        "-P"@,
        dest_dir,
        "--progress"@,
        "--progress-template"@,
        "%(progress._percent_str)s"@,
    ]
}

/// The argument the downloader is spawned with to run its own self-update.
pub open spec fn spec_update_args() -> Seq<Seq<char>> {
    seq!["-U"@]
}

/// Relies on std::path::Path::exists: whether a file with this path is
/// present on disk right now.  Nothing is promised of the answer.
#[verifier::external_body]
fn path_exists(path: &str) -> bool {
    std::path::Path::new(path).exists()
}

impl YoutubeDownloader {
    pub fn new(libs_folder: String) -> (r: Self)
        ensures
            r.yt_dlp_path@ == libs_folder@ + "/yt-dlp"@,
            r.ffmpeg_path@ == libs_folder@ + "/ffmpeg"@,
    {
        YoutubeDownloader {
            yt_dlp_path: libs_folder.clone().concat("/yt-dlp"),
            ffmpeg_path: libs_folder.concat("/ffmpeg"),
        }
    }

    /// Whether both tool binaries are present on disk.  A pure filesystem
    /// probe: absence is a valid answer, not an error, and no contract can
    /// pin the result because it depends on the machine's disk.
    pub fn check_prerequisites(&self) -> bool {
        path_exists(self.yt_dlp_path.as_str()) && path_exists(self.ffmpeg_path.as_str())
    }

    /// The exact argument vector for one download job.
    pub fn download_args(&self, url: &str, dest_dir: &str) -> (r: Vec<String>)
        ensures
            r.deep_view() == spec_download_args(self.ffmpeg_path@, url@, dest_dir@),
    {
        let mut v: Vec<String> = Vec::new();
        v.push(String::from_str(url));
        v.push(String::from_str("-o"));
        v.push(String::from_str("%(title)s"));
        v.push(String::from_str("-x"));
        v.push(String::from_str("-q"));
        v.push(String::from_str("--audio-format"));
        v.push(String::from_str("mp3"));
        v.push(String::from_str("--no-playlist"));
        v.push(String::from_str("--ffmpeg-location"));
        v.push(self.ffmpeg_path.clone());
        v.push(String::from_str("-P"));
        v.push(String::from_str(dest_dir));
        v.push(String::from_str("--progress"));
        v.push(String::from_str("--progress-template"));
        v.push(String::from_str("%(progress._percent_str)s"));
        proof {
            assert(v.deep_view() =~~= spec_download_args(self.ffmpeg_path@, url@, dest_dir@));
        }
        v
    }

    /// The exact argument vector for the self-update invocation.
    pub fn update_args(&self) -> (r: Vec<String>)
        ensures
            r.deep_view() == spec_update_args(),
    {
        let mut v: Vec<String> = Vec::new();
        v.push(String::from_str("-U"));
        proof {
            assert(v.deep_view() =~~= spec_update_args());
        }
        v
    }
}

/// Maps the exit code of the self-update invocation: zero is success, any
/// other code is an `UpdateError` carrying that code.
pub fn update_outcome(exit_code: i32) -> (r: Result<(), UpdateError>)
    ensures
        r is Ok <==> exit_code == 0,
        r is Err ==> r->Err_0 == UpdateError::UpdateFailed(exit_code),
{
    if exit_code == 0 {
        Ok(())
    } else {
        Err(UpdateError::UpdateFailed(exit_code))
    }
}

/// Maps the exit code of a download job: zero is success, any other code is
/// a `JobError` carrying that code.
pub fn job_outcome(exit_code: i32) -> (r: Result<(), JobError>)
    ensures
        r is Ok <==> exit_code == 0,
        r is Err ==> r->Err_0 == JobError::JobFailed(exit_code),
{
    if exit_code == 0 {
        Ok(())
    } else {
        Err(JobError::JobFailed(exit_code))
    }
}

} // verus!
