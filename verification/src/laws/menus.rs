//! What the track menus show, entry by entry.

use vstd::prelude::*;
use vstd::utf8::*;

use crate::action::{Action, VariantView};
use crate::command::{CommandView, Menu, MenuItemView};
use crate::media::{
    AudioStreamView, LocationView, MediaInfoView, SubtitleStreamView, VideoStream,
    VisualizationView,
};
use crate::menu;
use crate::model;
use crate::path;
use crate::player::VideoPlayer;
use crate::text;

verus! {

/// A title is the label by itself, and without one the label counts the streams from one. A
/// language is added in brackets, to either.
pub proof fn law_subtitle_labels(
    title: Option<Seq<char>>,
    language: Seq<char>,
    index: int,
)
    ensures
        ({
            let plain = menu::subtitle_label(SubtitleStreamView { language: None, title }, index);
            let labelled = menu::subtitle_label(
                SubtitleStreamView { language: Some(language), title },
                index,
            );
            &&& title matches Some(title) ==> plain == title
            &&& title is None ==> plain == "Track "@ + text::int_text(index + 1)
            &&& labelled == plain + " - ["@ + language + "]"@
        }),
{
}

/// The name under which a subtitle file is listed, as its path gives it: the last part of the
/// path, where that is text.
pub open spec fn listed_name(file: Option<LocationView>) -> Option<Seq<u8>> {
    match file {
        Some(location) => match location.path {
            Some(path) => match path::path_file_name(path) {
                Some(name) => if valid_utf8(name) {
                    Some(name)
                } else {
                    None
                },
                None => None,
            },
            None => None,
        },
        None => None,
    }
}

/// The section of `menu` that `command` adds.
pub open spec fn section(command: CommandView, menu: Menu) -> Option<Seq<MenuItemView>> {
    match command {
        CommandView::AppendSection(filled, items) => if filled == menu {
            Some(items)
        } else {
            None
        },
        _ => None,
    }
}

/// `item` has the label and asks for the action.
pub open spec fn is_item(item: MenuItemView, label: Seq<char>, action: Seq<char>) -> bool {
    item.label == label && item.action == action
}

/// The subtitle menu is emptied and filled, and an entry is selected. Where the media is known, the
/// first entry turns subtitles off and one follows for every stream, whether or not a file is in
/// use. A file in use that has a name comes last, and is the one that is selected; else none is.
pub proof fn law_subtitle_menu_is_complete(
    player: VideoPlayer,
    info: Option<MediaInfoView>,
    file: Option<LocationView>,
)
    ensures
        !player.has_engine ==> model::subtitle_menu_commands(player, info, file).len() == 0,
        player.has_engine ==> ({
            let commands = model::subtitle_menu_commands(player, info, file);
            let items = section(commands[1], Menu::SubtitleTrack)->0;
            let listed = listed_name(file);
            let streams = match info {
                Some(info) => info.subtitle_streams.len() + 1,
                None => 0,
            };
            &&& commands.len() == 3
            &&& commands[0] == CommandView::ClearMenu(Menu::SubtitleTrack)
            &&& section(commands[1], Menu::SubtitleTrack) is Some
            &&& items.len() == streams + (if listed is Some {
                1int
            } else {
                0
            })
            &&& info matches Some(info) ==> {
                &&& is_item(items[0], "Disable"@, "app.subtitle::none"@)
                &&& forall|i: int|
                    0 <= i < info.subtitle_streams.len() ==> is_item(
                        #[trigger] items[i + 1],
                        menu::subtitle_label(info.subtitle_streams[i], i),
                        "app.subtitle::sub-"@ + text::int_text(i),
                    )
            }
            &&& listed matches Some(name) ==> {
                &&& encode_utf8(items.last().label) == name
                &&& items.last().action == "app.subtitle::ext-"@ + file->0.uri
                &&& commands[2] == CommandView::RequestActionState(
                    Action::Subtitle,
                    VariantView::Text("ext-"@ + file->0.uri),
                )
            }
            &&& listed is None ==> commands[2] == CommandView::RequestActionState(
                Action::Subtitle,
                VariantView::Text("none"@),
            )
        }),
{
    if player.has_engine {
        let commands = model::subtitle_menu_commands(player, info, file);
        let items = menu::subtitle_menu(info, file);
        assert(commands[1] == CommandView::AppendSection(Menu::SubtitleTrack, items));
        lemma_subtitle_actions();
        if let Some(info) = info {
            assert forall|i: int| 0 <= i < info.subtitle_streams.len() implies is_item(
                #[trigger] items[i + 1],
                menu::subtitle_label(info.subtitle_streams[i], i),
                "app.subtitle::sub-"@ + text::int_text(i),
            ) by {
                assert(items[i + 1] == menu::subtitle_entries(info.subtitle_streams)[i + 1]);
                assert("app."@ + "subtitle"@ + "::"@ + ("sub-"@ + text::int_text(i)) =~= "app."@
                    + "subtitle"@ + "::"@ + "sub-"@ + text::int_text(i));
            }
        }
        if let Some(name) = listed_name(file) {
            decode_utf8_encode_utf8(name);
            let uri = file->0.uri;
            assert("app."@ + "subtitle"@ + "::"@ + ("ext-"@ + uri) =~= "app."@ + "subtitle"@
                + "::"@ + "ext-"@ + uri);
        }
    }
}

proof fn lemma_subtitle_actions()
    ensures
        "app."@ + "subtitle"@ + "::"@ + "none"@ == "app.subtitle::none"@,
        "app."@ + "subtitle"@ + "::"@ + "sub-"@ == "app.subtitle::sub-"@,
        "app."@ + "subtitle"@ + "::"@ + "ext-"@ == "app.subtitle::ext-"@,
{
    reveal_strlit("app.");
    reveal_strlit("subtitle");
    reveal_strlit("::");
    reveal_strlit("none");
    reveal_strlit("sub-");
    reveal_strlit("ext-");
    reveal_strlit("app.subtitle::none");
    reveal_strlit("app.subtitle::sub-");
    reveal_strlit("app.subtitle::ext-");
    assert("app."@ + "subtitle"@ + "::"@ + "none"@ =~= "app.subtitle::none"@);
    assert("app."@ + "subtitle"@ + "::"@ + "sub-"@ =~= "app.subtitle::sub-"@);
    assert("app."@ + "subtitle"@ + "::"@ + "ext-"@ =~= "app.subtitle::ext-"@);
}

/// The audio streams that get an entry are those with a language, in order: each stream counts by
/// itself.
pub proof fn law_named_streams(a: Seq<AudioStreamView>, b: Seq<AudioStreamView>, stream: AudioStreamView)
    ensures
        menu::named_streams(a + b) == menu::named_streams(a) + menu::named_streams(b),
        stream.language is Some ==> menu::named_streams(seq![stream]) == seq![stream],
        stream.language is None ==> menu::named_streams(seq![stream]).len() == 0,
        menu::named_streams(seq![]).len() == 0,
{
    let named = |stream: AudioStreamView| stream.language is Some;
    Seq::filter_distributes_over_add(a, b, named);
    reveal(Seq::filter);
    assert(seq![stream].drop_last() =~= seq![]);
    assert(seq![stream].last() == stream);
    assert(Seq::<AudioStreamView>::empty().filter(named) =~= seq![]);
    assert(menu::named_streams(seq![stream]) =~= if stream.language is Some {
        seq![stream]
    } else {
        seq![]
    });
}

/// The audio menu is emptied and filled: the first entry turns audio off, and one follows for every
/// stream with a language, with that language and the number of channels, numbered from zero.
pub proof fn law_audio_menu_is_complete(streams: Seq<AudioStreamView>)
    ensures
        ({
            let commands = model::replace_menu(Menu::AudioTrack, menu::audio_menu(streams));
            let items = section(commands[1], Menu::AudioTrack)->0;
            let named = menu::named_streams(streams);
            &&& commands.len() == 2
            &&& commands[0] == CommandView::ClearMenu(Menu::AudioTrack)
            &&& section(commands[1], Menu::AudioTrack) is Some
            &&& items.len() == named.len() + 1
            &&& is_item(items[0], "Disable"@, "app.audio-track::audio--1"@)
            &&& forall|i: int|
                0 <= i < named.len() ==> is_item(
                    #[trigger] items[i + 1],
                    named[i].language->0 + " "@ + text::int_text(named[i].channels as int)
                        + " channels"@,
                    "app.audio-track::audio-"@ + text::int_text(i),
                )
        }),
{
    let items = menu::audio_menu(streams);
    let named = menu::named_streams(streams);
    reveal_strlit("app.");
    reveal_strlit("audio-track");
    reveal_strlit("::");
    reveal_strlit("audio-");
    reveal_strlit("audio--1");
    reveal_strlit("app.audio-track::audio-");
    reveal_strlit("app.audio-track::audio--1");
    assert("app."@ + "audio-track"@ + "::"@ + "audio--1"@ =~= "app.audio-track::audio--1"@);
    assert("app."@ + "audio-track"@ + "::"@ + "audio-"@ =~= "app.audio-track::audio-"@);
    assert forall|i: int| 0 <= i < named.len() implies is_item(
        #[trigger] items[i + 1],
        named[i].language->0 + " "@ + text::int_text(named[i].channels as int) + " channels"@,
        "app.audio-track::audio-"@ + text::int_text(i),
    ) by {
        assert("app."@ + "audio-track"@ + "::"@ + ("audio-"@ + text::int_text(i)) =~= "app."@
            + "audio-track"@ + "::"@ + "audio-"@ + text::int_text(i));
    }
}

/// The video menu is emptied and filled: the first entry turns video off, and one follows for every
/// stream, with its width and its height, numbered from zero.
pub proof fn law_video_menu_is_complete(streams: Seq<VideoStream>)
    ensures
        ({
            let commands = model::replace_menu(Menu::VideoTrack, menu::video_menu(streams));
            let items = section(commands[1], Menu::VideoTrack)->0;
            &&& commands.len() == 2
            &&& commands[0] == CommandView::ClearMenu(Menu::VideoTrack)
            &&& section(commands[1], Menu::VideoTrack) is Some
            &&& items.len() == streams.len() + 1
            &&& is_item(items[0], "Disable"@, "app.video-track::video--1"@)
            &&& forall|i: int|
                0 <= i < streams.len() ==> is_item(
                    #[trigger] items[i + 1],
                    text::int_text(streams[i].width as int) + "x"@ + text::int_text(
                        streams[i].height as int,
                    ),
                    "app.video-track::video-"@ + text::int_text(i),
                )
        }),
{
    let items = menu::video_menu(streams);
    reveal_strlit("app.");
    reveal_strlit("video-track");
    reveal_strlit("::");
    reveal_strlit("video-");
    reveal_strlit("video--1");
    reveal_strlit("app.video-track::video-");
    reveal_strlit("app.video-track::video--1");
    assert("app."@ + "video-track"@ + "::"@ + "video--1"@ =~= "app.video-track::video--1"@);
    assert("app."@ + "video-track"@ + "::"@ + "video-"@ =~= "app.video-track::video-"@);
    assert forall|i: int| 0 <= i < streams.len() implies is_item(
        #[trigger] items[i + 1],
        text::int_text(streams[i].width as int) + "x"@ + text::int_text(streams[i].height as int),
        "app.video-track::video-"@ + text::int_text(i),
    ) by {
        assert("app."@ + "video-track"@ + "::"@ + ("video-"@ + text::int_text(i)) =~= "app."@
            + "video-track"@ + "::"@ + "video-"@ + text::int_text(i));
    }
}

/// The visualization menu is filled, without being emptied, and closed: the first entry turns
/// visualizations off, and one follows for every visualization, with its description and its
/// name. A menu that was closed before stays as it is. Either way it is closed afterwards, and
/// nothing else of the player changes.
pub proof fn law_visualization_menu_is_complete(
    player: VideoPlayer,
    visualizations: Seq<VisualizationView>,
)
    ensures
        ({
            let after = model::visualizations_filled(player);
            &&& after.visualizations_frozen
            &&& after.has_engine == player.has_engine
            &&& after.fullscreen == player.fullscreen
            &&& after.paused == player.paused
            &&& after.muted == player.muted
        }),
        player.visualizations_frozen ==> model::fill_visualizations_commands(
            player,
            visualizations,
        ).len() == 0,
        !player.visualizations_frozen ==> ({
            let commands = model::fill_visualizations_commands(player, visualizations);
            let items = section(commands[0], Menu::AudioVisualization)->0;
            &&& commands.len() == 2
            &&& commands[1] == CommandView::FreezeMenu(Menu::AudioVisualization)
            &&& section(commands[0], Menu::AudioVisualization) is Some
            &&& items.len() == visualizations.len() + 1
            &&& is_item(items[0], "Disable"@, "app.audio-visualization::none"@)
            &&& forall|i: int|
                0 <= i < visualizations.len() ==> is_item(
                    #[trigger] items[i + 1],
                    visualizations[i].description,
                    "app.audio-visualization::"@ + visualizations[i].name,
                )
        }),
{
    reveal_strlit("app.");
    reveal_strlit("audio-visualization");
    reveal_strlit("::");
    reveal_strlit("none");
    reveal_strlit("app.audio-visualization::");
    reveal_strlit("app.audio-visualization::none");
    assert("app."@ + "audio-visualization"@ + "::"@ =~= "app.audio-visualization::"@);
    assert("app."@ + "audio-visualization"@ + "::"@ + "none"@ =~= "app.audio-visualization::none"@);
}

/// The streams fit the menus where each kind of entry can be numbered with 32 bits; audio streams
/// without a language do not count.
pub proof fn law_streams_fit_menus(info: MediaInfoView)
    ensures
        model::fits_menus(info) <==> menu::named_streams(info.audio_streams).len() <= 2_147_483_647
            && info.video_streams.len() <= 2_147_483_647 && info.subtitle_streams.len()
            <= 2_147_483_647,
{
}

} // verus!
