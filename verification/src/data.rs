//! The form's state and its reactions to the user and to finished downloads.

use vstd::prelude::*;
use vstd::string::*;

use crate::command::{spec_status_message, status_message, DownloadOptions, DownloadOptionsView};
use crate::formats::{AudioFormats, QualityOptions, VideoFormats};

verus! {

/// Everything the window shows and edits.
#[derive(Clone, Debug, PartialEq, Eq)]
pub struct AppState {
    pub video_url: String,
    pub preferred_quality: QualityOptions,
    pub video_format: VideoFormats,
    pub audio_format: AudioFormats,
    pub audio_only: bool,
    /// Set while a download is under way.
    pub busy: bool,
    /// The status line.
    pub output: String,
}

/// The mathematical value of an [`AppState`].
pub struct AppStateView {
    pub video_url: Seq<char>,
    pub preferred_quality: QualityOptions,
    pub video_format: VideoFormats,
    pub audio_format: AudioFormats,
    pub audio_only: bool,
    pub busy: bool,
    pub output: Seq<char>,
}

impl View for AppState {
    type V = AppStateView;

    open spec fn view(&self) -> AppStateView {
        AppStateView {
            video_url: self.video_url@,
            preferred_quality: self.preferred_quality,
            video_format: self.video_format,
            audio_format: self.audio_format,
            audio_only: self.audio_only,
            busy: self.busy,
            output: self.output@,
        }
    }
}

impl AppStateView {
    /// The state of a freshly opened window.
    pub open spec fn initial() -> AppStateView {
        AppStateView {
            video_url: Seq::empty(),
            preferred_quality: QualityOptions::Q1080,
            video_format: VideoFormats::mkv,
            audio_format: AudioFormats::mp3,
            audio_only: false,
            busy: false,
            output: Seq::empty(),
        }
    }

    /// The download that the current choices describe.
    pub open spec fn download_options(self) -> DownloadOptionsView {
        DownloadOptionsView {
            url: self.video_url,
            quality: self.preferred_quality,
            video_format: self.video_format,
            audio_format: self.audio_format,
            audio_only: self.audio_only,
        }
    }

    /// The status line shown while a download of the current address runs.
    pub open spec fn download_notice(self) -> Seq<char> {
        "Attempting to download "@ + self.video_url + "..."@
    }

    /// The status line shown for a request to stream the current address.
    pub open spec fn stream_notice(self) -> Seq<char> {
        "Attempting to stream "@ + self.video_url + " at "@ + self.preferred_quality.spec_name()
            + " quality"@
    }

    /// The state after a click on the download button. A click while a
    /// download runs is ignored.
    pub open spec fn after_click_download(self) -> AppStateView {
        if self.busy {
            self
        } else {
            AppStateView { busy: true, output: self.download_notice(), ..self }
        }
    }

    /// The state after a click on the stream button.
    pub open spec fn after_click_stream(self) -> AppStateView {
        AppStateView { output: self.stream_notice(), ..self }
    }

    /// The state after the event `cmd` has reached the delegate.
    pub open spec fn after_command(self, cmd: DelegateCommand) -> AppStateView {
        match cmd {
            DelegateCommand::FinishDownloadVideo(code) => AppStateView {
                busy: false,
                output: spec_status_message(code),
                ..self
            },
            DelegateCommand::Other => self,
        }
    }
}

/// A click on the download button leaves the form busy, and a further click
/// changes nothing: no second download starts while one runs.
pub proof fn lemma_click_download_guards_resubmission(state: AppStateView)
    ensures
        state.after_click_download().busy,
        state.after_click_download().after_click_download() == state.after_click_download(),
{
}

/// The end of a download frees the form, whatever the exit code: the next
/// click on the download button starts a download.
pub proof fn lemma_finish_releases_form(state: AppStateView, code: Option<i32>)
    ensures
        ({
            let idle = state.after_command(DelegateCommand::FinishDownloadVideo(code));
            &&& !idle.busy
            &&& idle.after_click_download().busy
            &&& idle.after_click_download().output == state.download_notice()
        }),
{
}

/// No reaction of the form touches what the user has chosen: the address,
/// the quality, the two formats and the audio-only mark stay as they are.
pub proof fn lemma_reactions_keep_choices(state: AppStateView, cmd: DelegateCommand)
    ensures
        state.after_click_download().download_options() == state.download_options(),
        state.after_click_stream().download_options() == state.download_options(),
        state.after_command(cmd).download_options() == state.download_options(),
{
}

impl AppState {
    /// An empty form: no address, 1080p, `mkv`, `mp3`, video and audio, idle.
    pub fn new() -> (state: AppState)
        ensures
            state@ == AppStateView::initial(),
    {
        AppState {
            video_url: String::new(),
            preferred_quality: QualityOptions::Q1080,
            video_format: VideoFormats::mkv,
            audio_format: AudioFormats::mp3,
            audio_only: false,
            busy: false,
            output: String::new(),
        }
    }

    /// Reacts to the download button. Where no download runs, the form turns
    /// busy, announces the download and hands back what is to be fetched;
    /// where one runs, nothing changes and nothing is handed back.
    pub fn click_download(data: &mut AppState) -> (request: Option<DownloadOptions>)
        ensures
            final(data)@ == old(data)@.after_click_download(),
            old(data).busy ==> request is None,
            !old(data).busy ==> request is Some && request->0@ == old(data)@.download_options(),
    {
        if !data.busy {
            let request = DownloadOptions {
                url: data.video_url.clone(),
                quality: data.preferred_quality,
                video_format: data.video_format,
                audio_format: data.audio_format,
                audio_only: data.audio_only,
            };
            data.output = String::from_str("Attempting to download ").concat(
                data.video_url.as_str(),
            ).concat("...");
            data.busy = true;
            Some(request)
        } else {
            None
        }
    }

    /// Reacts to the stream button: only the status line changes.
    pub fn click_stream(data: &mut AppState)
        ensures
            final(data)@ == old(data)@.after_click_stream(),
    {
        let quality = data.preferred_quality.name();
        data.output = String::from_str("Attempting to stream ").concat(
            data.video_url.as_str(),
        ).concat(" at ").concat(quality.as_str()).concat(" quality");
    }
}

/// An event that reaches the delegate.
#[derive(Clone, Copy, PartialEq, Eq, Debug, Structural)]
pub enum DelegateCommand {
    /// A download has ended, with the downloader's exit code, or `None`
    /// where a signal ended it.
    FinishDownloadVideo(Option<i32>),
    /// Any other event.
    Other,
}

/// Whether the delegate has dealt with an event.
#[derive(Clone, Copy, PartialEq, Eq, Debug, Structural)]
pub enum Handled {
    Yes,
    No,
}

/// Receives the events that concern the application as a whole.
pub struct Delegate;

impl Delegate {
    /// Deals with the end of a download: the form is idle again and its
    /// status line tells how the download went. Other events pass through
    /// and leave the form as it is.
    pub fn command(&mut self, cmd: &DelegateCommand, data: &mut AppState) -> (handled: Handled)
        ensures
            final(data)@ == old(data)@.after_command(*cmd),
            handled == Handled::Yes <==> cmd is FinishDownloadVideo,
            handled == Handled::No <==> cmd is Other,
    {
        match cmd {
            DelegateCommand::FinishDownloadVideo(code) => {
                data.busy = false;
                data.output = status_message(*code);
                Handled::Yes
            },
            DelegateCommand::Other => Handled::No,
        }
    }
}

} // verus!
