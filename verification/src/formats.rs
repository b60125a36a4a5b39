//! The choices a user can make: target resolution, video container and audio
//! codec, each with the text that stands for it.

use vstd::prelude::*;
use vstd::string::*;

verus! {

/// Upper bound on the height of the video that is fetched.
#[derive(Clone, Copy, PartialEq, Eq, Debug, Structural)]
pub enum QualityOptions {
    Q144,
    Q240,
    Q360,
    Q480,
    Q720,
    Q1080,
    Q1440,
    Q2160,
}

/// Container the downloaded video is recoded into.
#[allow(non_camel_case_types)]
#[derive(Clone, Copy, PartialEq, Eq, Debug, Structural)]
pub enum VideoFormats {
    mp4,
    mkv,
    mov,
}

/// Codec the extracted audio track is converted to.
#[allow(non_camel_case_types)]
#[derive(Clone, Copy, PartialEq, Eq, Debug, Structural)]
pub enum AudioFormats {
    mp3,
    wav,
    ogg,
}

/// The character for one decimal digit.
pub open spec fn digit(d: nat) -> char
    recommends
        d < 10,
{
    if d == 0 {
        '0'
    } else if d == 1 {
        '1'
    } else if d == 2 {
        '2'
    } else if d == 3 {
        '3'
    } else if d == 4 {
        '4'
    } else if d == 5 {
        '5'
    } else if d == 6 {
        '6'
    } else if d == 7 {
        '7'
    } else if d == 8 {
        '8'
    } else {
        '9'
    }
}

/// A number in decimal notation, without leading zeros.
pub open spec fn decimal(n: nat) -> Seq<char>
    decreases n,
{
    if n < 10 {
        seq![digit(n)]
    } else {
        decimal(n / 10).push(digit(n % 10))
    }
}

impl QualityOptions {
    /// The greatest height, in pixels, of the video that this choice admits.
    pub open spec fn height(self) -> nat {
        match self {
            QualityOptions::Q144 => 144,
            QualityOptions::Q240 => 240,
            QualityOptions::Q360 => 360,
            QualityOptions::Q480 => 480,
            QualityOptions::Q720 => 720,
            QualityOptions::Q1080 => 1080,
            QualityOptions::Q1440 => 1440,
            QualityOptions::Q2160 => 2160,
        }
    }

    /// The variant's identifier, as the `Debug` form prints it.
    pub open spec fn spec_name(self) -> Seq<char> {
        match self {
            QualityOptions::Q144 => "Q144"@,
            QualityOptions::Q240 => "Q240"@,
            QualityOptions::Q360 => "Q360"@,
            QualityOptions::Q480 => "Q480"@,
            QualityOptions::Q720 => "Q720"@,
            QualityOptions::Q1080 => "Q1080"@,
            QualityOptions::Q1440 => "Q1440"@,
            QualityOptions::Q2160 => "Q2160"@,
        }
    }

    /// The downloader's format filter: the best video stream that is no
    /// taller than the chosen height, joined with the best audio stream.
    pub open spec fn spec_format_selector(self) -> Seq<char> {
        match self {
            QualityOptions::Q144 => "bv[height<=144]+ba"@,
            QualityOptions::Q240 => "bv[height<=240]+ba"@,
            QualityOptions::Q360 => "bv[height<=360]+ba"@,
            QualityOptions::Q480 => "bv[height<=480]+ba"@,
            QualityOptions::Q720 => "bv[height<=720]+ba"@,
            QualityOptions::Q1080 => "bv[height<=1080]+ba"@,
            QualityOptions::Q1440 => "bv[height<=1440]+ba"@,
            QualityOptions::Q2160 => "bv[height<=2160]+ba"@,
        }
    }

    /// Returns the variant's identifier.
    pub fn name(self) -> (text: String)
        ensures
            text@ == self.spec_name(),
    {
        match self {
            QualityOptions::Q144 => String::from_str("Q144"),
            QualityOptions::Q240 => String::from_str("Q240"),
            QualityOptions::Q360 => String::from_str("Q360"),
            QualityOptions::Q480 => String::from_str("Q480"),
            QualityOptions::Q720 => String::from_str("Q720"),
            QualityOptions::Q1080 => String::from_str("Q1080"),
            QualityOptions::Q1440 => String::from_str("Q1440"),
            QualityOptions::Q2160 => String::from_str("Q2160"),
        }
    }

    /// Returns the format filter handed to the downloader after `-f`.
    pub fn format_selector(self) -> (text: String)
        ensures
            text@ == self.spec_format_selector(),
    {
        match self {
            QualityOptions::Q144 => String::from_str("bv[height<=144]+ba"),
            QualityOptions::Q240 => String::from_str("bv[height<=240]+ba"),
            QualityOptions::Q360 => String::from_str("bv[height<=360]+ba"),
            QualityOptions::Q480 => String::from_str("bv[height<=480]+ba"),
            QualityOptions::Q720 => String::from_str("bv[height<=720]+ba"),
            QualityOptions::Q1080 => String::from_str("bv[height<=1080]+ba"),
            QualityOptions::Q1440 => String::from_str("bv[height<=1440]+ba"),
            QualityOptions::Q2160 => String::from_str("bv[height<=2160]+ba"),
        }
    }
}

/// Every format filter asks for the best video stream whose height is at
/// most the height of the chosen quality, together with the best audio stream.
pub proof fn lemma_format_selector_bounds_height(quality: QualityOptions)
    ensures
        quality.spec_format_selector() == "bv[height<="@ + decimal(quality.height()) + "]+ba"@,
{
    reveal_with_fuel(decimal, 5);
    reveal_strlit("bv[height<=");
    reveal_strlit("]+ba");
    reveal_strlit("bv[height<=144]+ba");
    reveal_strlit("bv[height<=240]+ba");
    reveal_strlit("bv[height<=360]+ba");
    reveal_strlit("bv[height<=480]+ba");
    reveal_strlit("bv[height<=720]+ba");
    reveal_strlit("bv[height<=1080]+ba");
    reveal_strlit("bv[height<=1440]+ba");
    reveal_strlit("bv[height<=2160]+ba");
    assert(quality.spec_format_selector() =~= "bv[height<="@ + decimal(quality.height())
        + "]+ba"@);
}

/// Every quality is named by the letter `Q` and its height.
pub proof fn lemma_name_holds_height(quality: QualityOptions)
    ensures
        quality.spec_name() == "Q"@ + decimal(quality.height()),
{
    reveal_with_fuel(decimal, 5);
    reveal_strlit("Q");
    reveal_strlit("Q144");
    reveal_strlit("Q240");
    reveal_strlit("Q360");
    reveal_strlit("Q480");
    reveal_strlit("Q720");
    reveal_strlit("Q1080");
    reveal_strlit("Q1440");
    reveal_strlit("Q2160");
    assert(quality.spec_name() =~= "Q"@ + decimal(quality.height()));
}

impl VideoFormats {
    /// The container's name as the downloader expects it.
    pub open spec fn spec_name(self) -> Seq<char> {
        match self {
            VideoFormats::mp4 => "mp4"@,
            VideoFormats::mkv => "mkv"@,
            VideoFormats::mov => "mov"@,
        }
    }

    /// Returns the container's name.
    pub fn name(self) -> (text: String)
        ensures
            text@ == self.spec_name(),
    {
        match self {
            VideoFormats::mp4 => String::from_str("mp4"),
            VideoFormats::mkv => String::from_str("mkv"),
            VideoFormats::mov => String::from_str("mov"),
        }
    }
}

impl AudioFormats {
    /// The codec's name as the downloader expects it.
    pub open spec fn spec_name(self) -> Seq<char> {
        match self {
            AudioFormats::mp3 => "mp3"@,
            AudioFormats::wav => "wav"@,
            AudioFormats::ogg => "ogg"@,
        }
    }

    /// Returns the codec's name.
    pub fn name(self) -> (text: String)
        ensures
            text@ == self.spec_name(),
    {
        match self {
            AudioFormats::mp3 => String::from_str("mp3"),
            AudioFormats::wav => String::from_str("wav"),
            AudioFormats::ogg => String::from_str("ogg"),
        }
    }
}

} // verus!
