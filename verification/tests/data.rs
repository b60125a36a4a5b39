use ytdl_gui::{
    AppState, AudioFormats, Delegate, DelegateCommand, DownloadOptions, Handled, QualityOptions,
    VideoFormats,
};

fn filled() -> AppState {
    AppState {
        video_url: "https://example.com/v".to_string(),
        preferred_quality: QualityOptions::Q480,
        video_format: VideoFormats::mov,
        audio_format: AudioFormats::ogg,
        audio_only: true,
        busy: false,
        output: "earlier".to_string(),
    }
}

#[test]
fn new_state_is_an_empty_idle_form() {
    let state = AppState::new();
    assert_eq!(state.video_url, "");
    assert_eq!(state.preferred_quality, QualityOptions::Q1080);
    assert_eq!(state.video_format, VideoFormats::mkv);
    assert_eq!(state.audio_format, AudioFormats::mp3);
    assert!(!state.audio_only);
    assert!(!state.busy);
    assert_eq!(state.output, "");
}

#[test]
fn click_download_when_idle_starts_a_download() {
    let mut state = filled();
    let request = AppState::click_download(&mut state);
    assert_eq!(
        request,
        Some(DownloadOptions {
            url: "https://example.com/v".to_string(),
            quality: QualityOptions::Q480,
            video_format: VideoFormats::mov,
            audio_format: AudioFormats::ogg,
            audio_only: true,
        })
    );
    assert_eq!(
        state,
        AppState {
            busy: true,
            output: "Attempting to download https://example.com/v...".to_string(),
            ..filled()
        }
    );
}

#[test]
fn click_download_on_a_new_form() {
    let mut state = AppState::new();
    let request = AppState::click_download(&mut state);
    assert_eq!(
        request,
        Some(DownloadOptions {
            url: String::new(),
            quality: QualityOptions::Q1080,
            video_format: VideoFormats::mkv,
            audio_format: AudioFormats::mp3,
            audio_only: false,
        })
    );
    assert!(state.busy);
    assert_eq!(state.output, "Attempting to download ...");
}

#[test]
fn click_download_when_busy_is_ignored() {
    let mut state = AppState { busy: true, ..filled() };
    assert_eq!(AppState::click_download(&mut state), None);
    assert_eq!(state, AppState { busy: true, ..filled() });
}

#[test]
fn second_click_starts_no_second_download() {
    let mut state = filled();
    assert!(AppState::click_download(&mut state).is_some());
    let after_first = state.clone();
    state.video_url = "https://example.com/other".to_string();
    assert_eq!(AppState::click_download(&mut state), None);
    assert_eq!(
        state,
        AppState { video_url: "https://example.com/other".to_string(), ..after_first }
    );
}

#[test]
fn click_stream_announces_address_and_quality() {
    let mut state = filled();
    AppState::click_stream(&mut state);
    assert_eq!(
        state,
        AppState {
            output: "Attempting to stream https://example.com/v at Q480 quality".to_string(),
            ..filled()
        }
    );
}

#[test]
fn click_stream_leaves_a_running_download_alone() {
    let mut state = AppState { busy: true, ..AppState::new() };
    AppState::click_stream(&mut state);
    assert!(state.busy);
    assert_eq!(state.output, "Attempting to stream  at Q1080 quality");
}

#[test]
fn finished_download_with_code_zero() {
    let mut state = AppState { busy: true, ..filled() };
    let handled =
        Delegate.command(&DelegateCommand::FinishDownloadVideo(Some(0)), &mut state);
    assert_eq!(handled, Handled::Yes);
    assert_eq!(
        state,
        AppState { output: "Video downloaded successfully.".to_string(), ..filled() }
    );
}

#[test]
fn finished_download_with_another_code() {
    let mut state = AppState { busy: true, ..filled() };
    let handled =
        Delegate.command(&DelegateCommand::FinishDownloadVideo(Some(1)), &mut state);
    assert_eq!(handled, Handled::Yes);
    assert_eq!(
        state,
        AppState {
            output: "There was an issue while downloading the video.".to_string(),
            ..filled()
        }
    );
}

#[test]
fn finished_download_without_a_code() {
    let mut state = AppState { busy: true, ..filled() };
    let handled = Delegate.command(&DelegateCommand::FinishDownloadVideo(None), &mut state);
    assert_eq!(handled, Handled::Yes);
    assert_eq!(state, AppState { output: "Download was terminated.".to_string(), ..filled() });
}

#[test]
fn finish_event_on_an_idle_form_is_still_handled() {
    let mut state = filled();
    let handled =
        Delegate.command(&DelegateCommand::FinishDownloadVideo(Some(0)), &mut state);
    assert_eq!(handled, Handled::Yes);
    assert!(!state.busy);
    assert_eq!(state.output, "Video downloaded successfully.");
}

#[test]
fn other_events_pass_through() {
    let mut state = AppState { busy: true, ..filled() };
    let handled = Delegate.command(&DelegateCommand::Other, &mut state);
    assert_eq!(handled, Handled::No);
    assert_eq!(state, AppState { busy: true, ..filled() });
}

#[test]
fn form_can_download_again_after_a_download_ended() {
    let mut state = filled();
    let first = AppState::click_download(&mut state);
    assert!(first.is_some());
    Delegate.command(&DelegateCommand::FinishDownloadVideo(Some(3)), &mut state);
    let second = AppState::click_download(&mut state);
    assert_eq!(first, second);
    assert!(state.busy);
}
