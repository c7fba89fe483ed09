//! Conversion profiles: which encoders and settings ffmpeg is given.
use vstd::prelude::*;
use crate::strings::{clone_opt, clone_strings, opt_str, strs};

verus! {

/// A named set of ffmpeg settings; every field is optional.
pub struct Profile {
    pub description: Option<String>,
    pub video_codec: Option<String>,
    pub audio_codec: Option<String>,
    pub preset: Option<String>,
    pub crf: Option<u32>,
    pub video_bitrate: Option<String>,
    pub audio_bitrate: Option<String>,
    pub extra_flags: Option<Vec<String>>,
    pub hwaccel: Option<String>,
}

/// The settings of a profile as text.
pub struct ProfileView {
    pub description: Option<Seq<char>>,
    pub video_codec: Option<Seq<char>>,
    pub audio_codec: Option<Seq<char>>,
    pub preset: Option<Seq<char>>,
    pub crf: Option<u32>,
    pub video_bitrate: Option<Seq<char>>,
    pub audio_bitrate: Option<Seq<char>>,
    pub extra_flags: Option<Seq<Seq<char>>>,
    pub hwaccel: Option<Seq<char>>,
}

impl View for Profile {
    type V = ProfileView;

    open spec fn view(&self) -> ProfileView {
        ProfileView {
            description: opt_str(self.description),
            video_codec: opt_str(self.video_codec),
            audio_codec: opt_str(self.audio_codec),
            preset: opt_str(self.preset),
            crf: self.crf,
            video_bitrate: opt_str(self.video_bitrate),
            audio_bitrate: opt_str(self.audio_bitrate),
            extra_flags: match self.extra_flags {
                Some(v) => Some(strs(v@)),
                None => None,
            },
            hwaccel: opt_str(self.hwaccel),
        }
    }
}

impl Profile {
    /// A copy of the profile with the same settings.
    pub fn duplicate(&self) -> (r: Profile)
        ensures
            r@ == self@,
    {
        let extra = match &self.extra_flags {
            Some(v) => Some(clone_strings(v)),
            None => None,
        };
        Profile {
            description: clone_opt(&self.description),
            video_codec: clone_opt(&self.video_codec),
            audio_codec: clone_opt(&self.audio_codec),
            preset: clone_opt(&self.preset),
            crf: self.crf,
            video_bitrate: clone_opt(&self.video_bitrate),
            audio_bitrate: clone_opt(&self.audio_bitrate),
            extra_flags: extra,
            hwaccel: clone_opt(&self.hwaccel),
        }
    }
}

} // verus!
