//! From a set of choices to the downloader's command line, and from what the
//! downloader leaves behind to the text shown for it.

use vstd::prelude::*;
use vstd::string::*;
use vstd::utf8::*;

use crate::formats::{AudioFormats, QualityOptions, VideoFormats};

verus! {

/// What one download is asked to fetch.
#[derive(Clone, Debug, PartialEq, Eq)]
pub struct DownloadOptions {
    pub url: String,
    pub quality: QualityOptions,
    pub video_format: VideoFormats,
    pub audio_format: AudioFormats,
    pub audio_only: bool,
}

/// The mathematical value of a [`DownloadOptions`].
pub struct DownloadOptionsView {
    pub url: Seq<char>,
    pub quality: QualityOptions,
    pub video_format: VideoFormats,
    pub audio_format: AudioFormats,
    pub audio_only: bool,
}

impl View for DownloadOptions {
    type V = DownloadOptionsView;

    open spec fn view(&self) -> DownloadOptionsView {
        DownloadOptionsView {
            url: self.url@,
            quality: self.quality,
            video_format: self.video_format,
            audio_format: self.audio_format,
            audio_only: self.audio_only,
        }
    }
}

/// A program and the arguments it is started with.
#[derive(Clone, Debug, PartialEq, Eq)]
pub struct CommandLine {
    pub program: String,
    pub args: Vec<String>,
}

/// The arguments for one download. An audio-only download takes the best
/// audio stream and extracts it in the chosen codec; any other takes the
/// streams the quality admits and recodes them into the chosen container.
/// The address always comes last.
pub open spec fn download_args(options: DownloadOptionsView) -> Seq<Seq<char>> {
    if options.audio_only {
        seq!["-f"@, "ba"@, "--audio-format"@, options.audio_format.spec_name(), "-x"@, options.url]
    } else {
        seq![
            "-f"@,
            options.quality.spec_format_selector(),
            "--recode-video"@,
            options.video_format.spec_name(),
            options.url,
        ]
    }
}

/// Whatever is chosen, the arguments open with the format switch and close
/// with the address, which is handed over as it stands; there are six of
/// them for an audio-only download and five for any other.
pub proof fn lemma_download_args_shape(options: DownloadOptionsView)
    ensures
        download_args(options).len() == if options.audio_only { 6int } else { 5int },
        download_args(options).first() == "-f"@,
        download_args(options).last() == options.url,
{
}

/// Builds the invocation of `yt-dlp` that performs the download.
pub fn download_command(options: &DownloadOptions) -> (cmd: CommandLine)
    ensures
        cmd.program@ == "yt-dlp"@,
        cmd.args.deep_view() == download_args(options@),
{
    let mut args: Vec<String> = Vec::new();
    args.push(String::from_str("-f"));
    if options.audio_only {
        args.push(String::from_str("ba"));
        args.push(String::from_str("--audio-format"));
        args.push(options.audio_format.name());
        args.push(String::from_str("-x"));
    } else {
        args.push(options.quality.format_selector());
        args.push(String::from_str("--recode-video"));
        args.push(options.video_format.name());
    }
    args.push(options.url.clone());
    assert(args.deep_view() =~= download_args(options@));
    CommandLine { program: String::from_str("yt-dlp"), args }
}

/// The line shown once a download has ended, by the downloader's exit code;
/// `None` stands for a process that was ended by a signal.
pub open spec fn spec_status_message(code: Option<i32>) -> Seq<char> {
    match code {
        Some(c) => if c == 0 {
            "Video downloaded successfully."@
        } else {
            "There was an issue while downloading the video."@
        },
        None => "Download was terminated."@,
    }
}

/// Returns the line shown once a download has ended.
pub fn status_message(code: Option<i32>) -> (text: String)
    ensures
        text@ == spec_status_message(code),
{
    match code {
        Some(c) => {
            if c == 0 {
                String::from_str("Video downloaded successfully.")
            } else {
                String::from_str("There was an issue while downloading the video.")
            }
        },
        None => String::from_str("Download was terminated."),
    }
}

/// What is printed for the bytes the downloader wrote to its standard
/// output: their text where they are UTF-8, a fixed notice where not.
pub open spec fn spec_console_text(stdout: Seq<u8>) -> Seq<char> {
    if valid_utf8(stdout) {
        decode_utf8(stdout)
    } else {
        "failed to convert output to utf"@
    }
}

/// `String::from_utf8` of the standard library. Trusted: it succeeds exactly
/// on byte sequences that are well-formed UTF-8, and the string it then
/// returns holds the characters those bytes encode.
#[verifier::external_body]
fn string_from_utf8(bytes: Vec<u8>) -> (decoded: Option<String>)
    ensures
        decoded is Some <==> valid_utf8(bytes@),
        decoded is Some ==> decoded->0@ == decode_utf8(bytes@),
{
    String::from_utf8(bytes).ok()
}

/// Returns what is printed for the downloader's standard output.
pub fn console_text(stdout: Vec<u8>) -> (text: String)
    ensures
        text@ == spec_console_text(stdout@),
{
    match string_from_utf8(stdout) {
        Some(decoded) => decoded,
        None => String::from_str("failed to convert output to utf"),
    }
}

} // verus!
