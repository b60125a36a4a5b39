//! Decision logic of a small desktop front-end for the `yt-dlp` downloader.
//!
//! The crate holds everything the front-end decides: which command line a set
//! of user choices turns into, how the form's state reacts to a click and to
//! the end of a download, and which text is shown for each outcome. Running
//! the downloader and drawing widgets are left to the program around it.

pub mod command;
pub mod data;
pub mod formats;

pub use command::{console_text, download_command, status_message, CommandLine, DownloadOptions};
pub use data::{AppState, Delegate, DelegateCommand, Handled};
pub use formats::{AudioFormats, QualityOptions, VideoFormats};
