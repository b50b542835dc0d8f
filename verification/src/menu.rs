//! The entries of the track menus.

use vstd::prelude::*;
use vstd::utf8::*;

use crate::action;
use crate::action::Action;
use crate::command::{MenuItem, MenuItemView};
use crate::media::{
    AudioStream, AudioStreamView, Location, LocationView, MediaInfoView, SubtitleStream,
    SubtitleStreamView, VideoStream, Visualization, VisualizationView,
};
use crate::path;
use crate::text;

verus! {

/// An entry that asks `action` for `target`.
pub open spec fn menu_entry(label: Seq<char>, action: Action, target: Seq<char>) -> MenuItemView {
    MenuItemView { label, action: action::detailed_action(action, target) }
}

/// The label of the subtitle stream at `index`: its title, or its number counted from one, and
/// its language where it is known.
pub open spec fn subtitle_label(stream: SubtitleStreamView, index: int) -> Seq<char> {
    let title = match stream.title {
        Some(title) => title,
        None => "Track "@ + text::int_text(index + 1),
    };
    match stream.language {
        Some(language) => title + " - ["@ + language + "]"@,
        None => title,
    }
}

/// The entries for the subtitle streams, behind one that disables subtitles.
pub open spec fn subtitle_entries(streams: Seq<SubtitleStreamView>) -> Seq<MenuItemView> {
    seq![menu_entry("Disable"@, Action::Subtitle, "none"@)] + Seq::new(
        streams.len(),
        |i: int|
            menu_entry(
                subtitle_label(streams[i], i),
                Action::Subtitle,
                "sub-"@ + text::int_text(i),
            ),
    )
}

/// The name of a subtitle file, where it is a local file whose name is text.
pub open spec fn subtitle_file_name(location: LocationView) -> Option<Seq<char>> {
    match location.path {
        Some(path) => match path::path_file_name(path) {
            Some(name) if valid_utf8(name) => Some(decode_utf8(name)),
            _ => None,
        },
        None => None,
    }
}

/// The entry for the subtitle file in use, if there is one that can be named.
pub open spec fn subtitle_file_entries(file: Option<LocationView>) -> Seq<MenuItemView> {
    match file {
        Some(location) => match subtitle_file_name(location) {
            Some(name) => seq![menu_entry(name, Action::Subtitle, "ext-"@ + location.uri)],
            None => seq![],
        },
        None => seq![],
    }
}

/// The entry to select: the subtitle file in use, or no subtitles.
pub open spec fn selected_subtitle(file: Option<LocationView>) -> Seq<char> {
    match file {
        Some(location) => match subtitle_file_name(location) {
            Some(_) => "ext-"@ + location.uri,
            None => "none"@,
        },
        None => "none"@,
    }
}

/// The whole subtitle menu.
pub open spec fn subtitle_menu(
    info: Option<MediaInfoView>,
    file: Option<LocationView>,
) -> Seq<MenuItemView> {
    match info {
        Some(info) => subtitle_entries(info.subtitle_streams) + subtitle_file_entries(file),
        None => subtitle_file_entries(file),
    }
}

/// The audio streams that get an entry: those whose language is known.
pub open spec fn named_streams(streams: Seq<AudioStreamView>) -> Seq<AudioStreamView> {
    streams.filter(|stream: AudioStreamView| stream.language is Some)
}

/// The entry for the audio stream that stands at `index` among those with an entry.
pub open spec fn audio_entry(stream: AudioStreamView, index: int) -> MenuItemView {
    menu_entry(
        stream.language->0 + " "@ + text::int_text(stream.channels as int) + " channels"@,
        Action::AudioTrack,
        "audio-"@ + text::int_text(index),
    )
}

/// The entries for the audio streams, behind one that disables audio.
pub open spec fn audio_menu(streams: Seq<AudioStreamView>) -> Seq<MenuItemView> {
    let named = named_streams(streams);
    seq![menu_entry("Disable"@, Action::AudioTrack, "audio--1"@)] + Seq::new(
        named.len(),
        |i: int| audio_entry(named[i], i),
    )
}

/// The entry for the video stream at `index`.
pub open spec fn video_entry(stream: VideoStream, index: int) -> MenuItemView {
    menu_entry(
        text::int_text(stream.width as int) + "x"@ + text::int_text(stream.height as int),
        Action::VideoTrack,
        "video-"@ + text::int_text(index),
    )
}

/// The entries for the video streams, behind one that disables video.
pub open spec fn video_menu(streams: Seq<VideoStream>) -> Seq<MenuItemView> {
    seq![menu_entry("Disable"@, Action::VideoTrack, "video--1"@)] + Seq::new(
        streams.len(),
        |i: int| video_entry(streams[i], i),
    )
}

/// The entries for the visualizations, behind one that disables them.
pub open spec fn visualization_menu(visualizations: Seq<VisualizationView>) -> Seq<MenuItemView> {
    seq![menu_entry("Disable"@, Action::AudioVisualization, "none"@)] + Seq::new(
        visualizations.len(),
        |i: int|
            menu_entry(
                visualizations[i].description,
                Action::AudioVisualization,
                visualizations[i].name,
            ),
    )
}

/// An entry that asks `action` for `target`.
fn item(label: String, action: Action, target: &str) -> (r: MenuItem)
    ensures
        r.deep_view() == menu_entry(label@, action, target@),
{
    MenuItem { label, action: action.detailed(target) }
}

/// A menu whose only entry disables what `action` selects.
fn disabled_menu(action: Action, target: &str) -> (r: Vec<MenuItem>)
    ensures
        r.deep_view() == seq![menu_entry("Disable"@, action, target@)],
{
    let items = vec![item("Disable".to_owned(), action, target)];
    assert(items.deep_view() =~= seq![menu_entry("Disable"@, action, target@)]);
    items
}

/// The label of the subtitle stream at `index`.
fn label_subtitle(stream: &SubtitleStream, index: i32) -> (r: String)
    requires
        0 <= index < i32::MAX,
    ensures
        r@ == subtitle_label(stream.deep_view(), index as int),
{
    let title = match &stream.title {
        Some(title) => title.clone(),
        None => text::join("Track ", text::i32_text(index + 1).as_str()),
    };
    match &stream.language {
        Some(language) => title.concat(" - [").concat(language.as_str()).concat("]"),
        None => title,
    }
}

/// The entries for the subtitle streams, behind one that disables subtitles.
pub fn list_subtitles(streams: &Vec<SubtitleStream>) -> (r: Vec<MenuItem>)
    requires
        streams@.len() <= i32::MAX,
    ensures
        r.deep_view() == subtitle_entries(streams.deep_view()),
{
    let mut items = disabled_menu(Action::Subtitle, "none");
    let mut i: usize = 0;
    while i < streams.len()
        invariant
            i <= streams@.len() <= i32::MAX,
            items.deep_view() == subtitle_entries(streams.deep_view()).take(i + 1),
        decreases streams@.len() - i,
    {
        let index: i32 = i as i32;
        let target = text::join("sub-", text::i32_text(index).as_str());
        let ghost before = items.deep_view();
        items.push(item(label_subtitle(&streams[i], index), Action::Subtitle, target.as_str()));
        i = i + 1;
        assert(items.deep_view() =~= subtitle_entries(streams.deep_view()).take(i + 1)) by {
            assert(items.deep_view().drop_last() =~= before);
        }
    }
    assert(items.deep_view() =~= subtitle_entries(streams.deep_view()));
    items
}

/// The name of a subtitle file, where it is a local file whose name is text.
pub fn name_subtitle_file(location: &Location) -> (r: Option<String>)
    ensures
        r.deep_view() == subtitle_file_name(location.deep_view()),
{
    match &location.path {
        Some(path) => match path::file_name(path.as_slice()) {
            Some(name) => text::to_text(name),
            None => None,
        },
        None => None,
    }
}

proof fn lemma_named_prefix(streams: Seq<AudioStreamView>, k: int)
    requires
        0 <= k <= streams.len(),
    ensures
        named_streams(streams.take(k)).len() <= named_streams(streams).len(),
    decreases streams.len(),
{
    reveal(Seq::filter);
    if k == streams.len() {
        assert(streams.take(k) =~= streams);
    } else {
        lemma_named_prefix(streams.drop_last(), k);
        assert(streams.drop_last().take(k) =~= streams.take(k));
    }
}

/// How many audio streams get an entry.
pub fn count_named_streams(streams: &Vec<AudioStream>) -> (r: usize)
    ensures
        r == named_streams(streams.deep_view()).len(),
{
    let mut count: usize = 0;
    let mut i: usize = 0;
    proof {
        reveal(Seq::filter);
        assert(streams.deep_view().take(0) =~= seq![]);
    }
    while i < streams.len()
        invariant
            count <= i <= streams@.len(),
            count == named_streams(streams.deep_view().take(i as int)).len(),
        decreases streams@.len() - i,
    {
        proof {
            let all = streams.deep_view();
            reveal(Seq::filter);
            assert(all.take(i + 1).drop_last() =~= all.take(i as int));
            assert(all.take(i + 1).last() == streams@[i as int].deep_view());
        }
        if streams[i].language.is_some() {
            count = count + 1;
        }
        i = i + 1;
    }
    assert(streams.deep_view().take(i as int) =~= streams.deep_view());
    count
}

/// The entries for the audio streams, behind one that disables audio.
pub fn list_audio_tracks(streams: &Vec<AudioStream>) -> (r: Vec<MenuItem>)
    requires
        named_streams(streams.deep_view()).len() <= i32::MAX,
    ensures
        r.deep_view() == audio_menu(streams.deep_view()),
{
    let mut items = disabled_menu(Action::AudioTrack, "audio--1");
    let mut index: i32 = 0;
    let mut i: usize = 0;
    assert(streams.deep_view().take(0) =~= seq![]);
    assert(named_streams(seq![]) =~= seq![]) by {
        reveal(Seq::filter);
    }
    assert(items.deep_view() =~= audio_menu(streams.deep_view().take(0)));
    while i < streams.len()
        invariant
            i <= streams@.len(),
            named_streams(streams.deep_view()).len() <= i32::MAX,
            index == named_streams(streams.deep_view().take(i as int)).len(),
            items.deep_view() == audio_menu(streams.deep_view().take(i as int)),
        decreases streams@.len() - i,
    {
        let ghost all = streams.deep_view();
        let ghost before = items.deep_view();
        let stream = &streams[i];
        proof {
            reveal(Seq::filter);
            assert(all.take(i + 1).drop_last() =~= all.take(i as int));
            assert(all.take(i + 1).last() == stream.deep_view());
        }
        if let Some(language) = &stream.language {
            let target = text::join("audio-", text::i32_text(index).as_str());
            let label = text::join(language.as_str(), " ").concat(
                text::i32_text(stream.channels).as_str(),
            ).concat(" channels");
            items.push(item(label, Action::AudioTrack, target.as_str()));
            assert(named_streams(all.take(i + 1)) =~= named_streams(all.take(i as int)).push(
                stream.deep_view(),
            ));
            assert(items.deep_view() =~= audio_menu(all.take(i + 1))) by {
                let entry = audio_entry(stream.deep_view(), index as int);
                assert(items.deep_view() =~= before.push(entry));
                assert(before.len() == index + 1);
            }
            proof {
                lemma_named_prefix(all, i + 1);
            }
            index = index + 1;
        } else {
            assert(named_streams(all.take(i + 1)) =~= named_streams(all.take(i as int)));
        }
        i = i + 1;
    }
    assert(streams.deep_view().take(i as int) =~= streams.deep_view());
    items
}

/// The entries for the video streams, behind one that disables video.
pub fn list_video_tracks(streams: &Vec<VideoStream>) -> (r: Vec<MenuItem>)
    requires
        streams@.len() <= i32::MAX,
    ensures
        r.deep_view() == video_menu(streams.deep_view()),
{
    let mut items = disabled_menu(Action::VideoTrack, "video--1");
    let mut i: usize = 0;
    while i < streams.len()
        invariant
            i <= streams@.len() <= i32::MAX,
            items.deep_view() == video_menu(streams.deep_view()).take(i + 1),
        decreases streams@.len() - i,
    {
        let stream = streams[i];
        let target = text::join("video-", text::i32_text(i as i32).as_str());
        let label = text::i32_text(stream.width).concat("x").concat(
            text::i32_text(stream.height).as_str(),
        );
        let ghost before = items.deep_view();
        items.push(item(label, Action::VideoTrack, target.as_str()));
        i = i + 1;
        assert(items.deep_view() =~= video_menu(streams.deep_view()).take(i + 1)) by {
            assert(items.deep_view().drop_last() =~= before);
        }
    }
    assert(items.deep_view() =~= video_menu(streams.deep_view()));
    items
}

/// The entries for the visualizations, behind one that disables them.
pub fn list_visualizations(visualizations: &Vec<Visualization>) -> (r: Vec<MenuItem>)
    ensures
        r.deep_view() == visualization_menu(visualizations.deep_view()),
{
    let mut items = disabled_menu(Action::AudioVisualization, "none");
    let mut i: usize = 0;
    while i < visualizations.len()
        invariant
            i <= visualizations@.len(),
            items.deep_view() == visualization_menu(visualizations.deep_view()).take(i + 1),
        decreases visualizations@.len() - i,
    {
        let visualization = &visualizations[i];
        let ghost before = items.deep_view();
        items.push(
            item(
                visualization.description.clone(),
                Action::AudioVisualization,
                visualization.name.as_str(),
            ),
        );
        i = i + 1;
        assert(items.deep_view() =~= visualization_menu(visualizations.deep_view()).take(i + 1))
            by {
            assert(items.deep_view().drop_last() =~= before);
        }
    }
    assert(items.deep_view() =~= visualization_menu(visualizations.deep_view()));
    items
}

} // verus!
