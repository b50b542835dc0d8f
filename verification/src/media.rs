//! What the player learns about the media that it plays, as plain values.

use vstd::prelude::*;

use crate::clock::ClockTime;

verus! {

/// A subtitle stream inside the media.
#[derive(Debug, PartialEq, Eq)]
pub struct SubtitleStream {
    pub language: Option<String>,
    pub title: Option<String>,
}

#[verifier::ext_equal]
pub struct SubtitleStreamView {
    pub language: Option<Seq<char>>,
    pub title: Option<Seq<char>>,
}

impl DeepView for SubtitleStream {
    type V = SubtitleStreamView;

    open spec fn deep_view(&self) -> SubtitleStreamView {
        SubtitleStreamView {
            language: self.language.deep_view(),
            title: self.title.deep_view(),
        }
    }
}

/// An audio stream inside the media.
#[derive(Debug, PartialEq, Eq)]
pub struct AudioStream {
    pub language: Option<String>,
    pub channels: i32,
}

#[verifier::ext_equal]
pub struct AudioStreamView {
    pub language: Option<Seq<char>>,
    pub channels: i32,
}

impl DeepView for AudioStream {
    type V = AudioStreamView;

    open spec fn deep_view(&self) -> AudioStreamView {
        AudioStreamView { language: self.language.deep_view(), channels: self.channels }
    }
}

/// A video stream inside the media.
#[derive(Clone, Copy, Debug, PartialEq, Eq)]
pub struct VideoStream {
    pub width: i32,
    pub height: i32,
}

impl DeepView for VideoStream {
    type V = VideoStream;

    open spec fn deep_view(&self) -> VideoStream {
        *self
    }
}

/// The media as a whole.
#[derive(Debug, PartialEq, Eq)]
pub struct MediaInfo {
    pub title: Option<String>,
    pub duration: ClockTime,
    pub subtitle_streams: Vec<SubtitleStream>,
    pub audio_streams: Vec<AudioStream>,
    pub video_streams: Vec<VideoStream>,
    pub number_of_video_streams: u32,
}

#[verifier::ext_equal]
pub struct MediaInfoView {
    pub title: Option<Seq<char>>,
    pub duration: ClockTime,
    pub subtitle_streams: Seq<SubtitleStreamView>,
    pub audio_streams: Seq<AudioStreamView>,
    pub video_streams: Seq<VideoStream>,
    pub number_of_video_streams: u32,
}

impl DeepView for MediaInfo {
    type V = MediaInfoView;

    open spec fn deep_view(&self) -> MediaInfoView {
        MediaInfoView {
            title: self.title.deep_view(),
            duration: self.duration,
            subtitle_streams: self.subtitle_streams.deep_view(),
            audio_streams: self.audio_streams.deep_view(),
            video_streams: self.video_streams.deep_view(),
            number_of_video_streams: self.number_of_video_streams,
        }
    }
}

/// Where media or subtitles come from: the URI, and the path of a local file.
#[derive(Debug, PartialEq, Eq)]
pub struct Location {
    pub uri: String,
    /// The bytes of the path that the URI stands for, where it stands for one.
    pub path: Option<Vec<u8>>,
}

#[verifier::ext_equal]
pub struct LocationView {
    pub uri: Seq<char>,
    pub path: Option<Seq<u8>>,
}

impl DeepView for Location {
    type V = LocationView;

    open spec fn deep_view(&self) -> LocationView {
        LocationView {
            uri: self.uri@,
            path: match self.path {
                Some(path) => Some(path@),
                None => None,
            },
        }
    }
}

/// A way to draw audio on the screen.
#[derive(Debug, PartialEq, Eq)]
pub struct Visualization {
    pub name: String,
    pub description: String,
}

#[verifier::ext_equal]
pub struct VisualizationView {
    pub name: Seq<char>,
    pub description: Seq<char>,
}

impl DeepView for Visualization {
    type V = VisualizationView;

    open spec fn deep_view(&self) -> VisualizationView {
        VisualizationView { name: self.name@, description: self.description@ }
    }
}

/// The subtitles to show: a stream of the media by its index, or a file by its URI.
#[derive(Debug, PartialEq, Eq)]
pub enum SubtitleTrack {
    Inband(i32),
    External(String),
}

#[verifier::ext_equal]
pub enum SubtitleTrackView {
    Inband(i32),
    External(Seq<char>),
}

impl DeepView for SubtitleTrack {
    type V = SubtitleTrackView;

    open spec fn deep_view(&self) -> SubtitleTrackView {
        match self {
            SubtitleTrack::Inband(index) => SubtitleTrackView::Inband(*index),
            SubtitleTrack::External(uri) => SubtitleTrackView::External(uri@),
        }
    }
}

/// The name of the visualization to draw.
#[derive(Debug, PartialEq, Eq)]
pub struct AudioVisualization(pub String);

impl DeepView for AudioVisualization {
    type V = Seq<char>;

    open spec fn deep_view(&self) -> Seq<char> {
        self.0@
    }
}

/// A jump relative to the current position.
#[derive(Clone, Copy, Debug, PartialEq, Eq)]
pub enum SeekDirection {
    Backward(ClockTime),
    Forward(ClockTime),
}

/// An audio volume: the IEEE 754 bits of a double between silence and full volume.
#[derive(Clone, Copy, Debug, PartialEq, Eq)]
pub struct Volume {
    pub bits: u64,
}

/// What the media engine is doing.
#[derive(Clone, Copy, Debug, PartialEq, Eq, Structural)]
pub enum PlaybackState {
    Stopped,
    Paused,
    Playing,
}

/// What the media engine reports.
#[derive(Clone, Copy, Debug, PartialEq, Eq)]
pub enum PlayerEvent {
    MediaInfoUpdated,
    PositionUpdated,
    VideoDimensionsChanged(i32, i32),
    StateChanged(PlaybackState),
    VolumeChanged(Volume),
    Error,
    /// A report that asks nothing of the window.
    Other,
}

/// What the event loop is asked to do.
#[derive(Clone, Copy, Debug, PartialEq, Eq)]
pub enum UIAction {
    ForwardedPlayerEvent(PlayerEvent),
    Quit,
}

/// The view of a text that may be missing is that text.
pub open spec fn is_view(text: Option<String>, view: Option<Seq<char>>) -> bool {
    match (text, view) {
        (Some(text), Some(view)) => text@ == view,
        (None, None) => true,
        _ => false,
    }
}

/// The view of what is known about the media keeps all of it: every stream, at its place.
pub proof fn law_media_is_viewed_whole(info: MediaInfo)
    ensures
        ({
            let view = info.deep_view();
            &&& is_view(info.title, view.title)
            &&& view.duration == info.duration
            &&& view.number_of_video_streams == info.number_of_video_streams
            &&& view.subtitle_streams.len() == info.subtitle_streams@.len()
            &&& view.audio_streams.len() == info.audio_streams@.len()
            &&& view.video_streams == info.video_streams@
            &&& forall|i: int|
                0 <= i < info.subtitle_streams@.len() ==> is_view(
                    info.subtitle_streams@[i].language,
                    (#[trigger] view.subtitle_streams[i]).language,
                ) && is_view(info.subtitle_streams@[i].title, view.subtitle_streams[i].title)
            &&& forall|i: int|
                0 <= i < info.audio_streams@.len() ==> is_view(
                    info.audio_streams@[i].language,
                    (#[trigger] view.audio_streams[i]).language,
                ) && info.audio_streams@[i].channels == view.audio_streams[i].channels
        }),
{
    assert(info.deep_view().video_streams =~= info.video_streams@);
}

/// The views of a location, a visualization and a selection keep all that these hold.
pub proof fn law_other_values_are_viewed_whole(
    location: Location,
    visualization: Visualization,
    track: SubtitleTrack,
    name: AudioVisualization,
)
    ensures
        location.deep_view().uri == location.uri@,
        location.path matches Some(path) ==> location.deep_view().path == Some(path@),
        location.path is None ==> location.deep_view().path is None,
        visualization.deep_view().name == visualization.name@,
        visualization.deep_view().description == visualization.description@,
        track matches SubtitleTrack::Inband(index) ==> track.deep_view()
            == SubtitleTrackView::Inband(index),
        track matches SubtitleTrack::External(uri) ==> track.deep_view()
            == SubtitleTrackView::External(uri@),
        name.deep_view() == name.0@,
{
}

} // verus!
