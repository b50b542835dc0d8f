//! What holds of the player as a whole.

pub mod menus;
pub mod operations;

use vstd::prelude::*;
use vstd::utf8::*;

use crate::action;
use crate::action::{Action, Signal, VariantView};
use crate::clock;
use crate::clock::ClockTime;
use crate::command::{CommandView, MenuItemView};
use crate::media::{
    AudioStreamView, LocationView, MediaInfoView, PlayerEvent, SubtitleStreamView,
    SubtitleTrackView, UIAction, VideoStream, VisualizationView, Volume,
};
use crate::menu;
use crate::model;
use crate::path;
use crate::player::VideoPlayer;
use crate::selection;
use crate::text;

verus! {

/// Leaving fullscreen mode a second time does nothing.
pub proof fn law_leave_fullscreen_once(player: VideoPlayer)
    ensures
        model::leave_fullscreen_commands(model::changed(player, Action::Restore)) == Seq::<
            CommandView,
        >::empty(),
        !model::changed(player, Action::Restore).fullscreen,
{
}

/// However the player ends, it is no longer in fullscreen mode, and the last step is that the
/// window goes; the media engine keeps the position first, where there is one.
pub proof fn law_quit(player: VideoPlayer)
    ensures
        !model::activated(player, Action::Quit).fullscreen,
        !model::polled(player, Some(UIAction::Quit)).fullscreen,
        !model::reported(player, PlayerEvent::Error).fullscreen,
        model::quit_commands(player).last() == CommandView::StopWindow,
        player.has_engine ==> model::quit_commands(player)[0]
            == CommandView::WriteLastKnownMediaPosition,
        model::quit_commands(player).contains(CommandView::LeaveFullscreen) <==> player.fullscreen,
{
    let commands = model::quit_commands(player);
    let first = model::when(player.has_engine, seq![CommandView::WriteLastKnownMediaPosition]);
    if player.fullscreen {
        assert(commands[first.len() as int] == CommandView::LeaveFullscreen);
    }
}

/// Pausing, muting and entering fullscreen mode are undone by asking for them again.
pub proof fn law_toggle_twice(player: VideoPlayer, action: Action)
    requires
        action == Action::Pause || action == Action::AudioMute || action == Action::Fullscreen,
    ensures
        model::changed(model::changed(player, action), action) == player,
{
}

/// An action whose state the player keeps as a flag.
pub open spec fn is_flag(action: Action) -> bool {
    action == Action::Fullscreen || action == Action::Pause || action == Action::AudioMute
}

/// The flag that the player keeps for an action.
pub open spec fn flag(player: VideoPlayer, action: Action) -> bool {
    match action {
        Action::Fullscreen => player.fullscreen,
        Action::Pause => player.paused,
        _ => player.muted,
    }
}

/// The states stored in the actions follow the flags of the player: no other state is stored, and
/// a flag that changes is stored.
pub open spec fn mirrors(
    before: VideoPlayer,
    after: VideoPlayer,
    commands: Seq<CommandView>,
) -> bool {
    forall|action: Action| #[trigger]
        is_flag(action) ==> {
            &&& forall|i: int|
                0 <= i < commands.len() ==> (#[trigger] commands[i] matches
                    CommandView::SetActionState(stored, state) ==> stored == action ==> state
                    == VariantView::Boolean(flag(after, action)))
            &&& flag(after, action) != flag(before, action) ==> commands.contains(
                model::set_flag(action, flag(after, action)),
            )
        }
}

/// A new player is in the state that its actions are registered with.
pub proof fn law_initial_states(action: Action)
    requires
        is_flag(action),
    ensures
        action::initial_state(action) == Some(
            VariantView::Boolean(flag(model::initial_player(), action)),
        ),
{
}

/// The stored states follow the flags when an action is asked to change its state.
pub proof fn law_change_mirrors(player: VideoPlayer, action: Action, value: Option<VariantView>)
    ensures
        mirrors(
            player,
            model::changed(player, action),
            model::change_commands(player, action, value),
        ),
{
    let after = model::changed(player, action);
    let commands = model::change_commands(player, action, value);
    assert forall|kept: Action| #[trigger] is_flag(kept) && flag(after, kept) != flag(
        player,
        kept,
    ) implies commands.contains(model::set_flag(kept, flag(after, kept))) by {
        assert(commands.last() == model::set_flag(kept, flag(after, kept)));
    }
}

/// The stored states follow the flags when an action is triggered.
pub proof fn law_activate_mirrors(player: VideoPlayer, action: Action)
    ensures
        mirrors(
            player,
            model::activated(player, action),
            model::activate_commands(player, action),
        ),
{
    if action == Action::Quit {
        lemma_quit_mirrors(player);
    }
}

/// The stored states follow the flags when the media engine reports something, and when the event
/// loop takes an action from the queue.
pub proof fn law_report_mirrors(player: VideoPlayer, event: PlayerEvent)
    ensures
        mirrors(
            player,
            model::reported(player, event),
            model::report_commands(player, event),
        ),
        mirrors(
            player,
            model::polled(player, Some(UIAction::ForwardedPlayerEvent(event))),
            model::poll_commands(player, Some(UIAction::ForwardedPlayerEvent(event))),
        ),
        mirrors(
            player,
            model::polled(player, Some(UIAction::Quit)),
            model::poll_commands(player, Some(UIAction::Quit)),
        ),
{
    lemma_quit_mirrors(player);
    if event == PlayerEvent::Error {
        let quitting = model::quit_commands(player);
        let commands = model::report_commands(player, event);
        assert forall|kept: Action| #[trigger] is_flag(kept) && flag(
            model::reported(player, event),
            kept,
        ) != flag(player, kept) implies commands.contains(model::set_flag(kept, false)) by {
            assert(quitting.contains(model::set_flag(kept, false)));
            let i = choose|i: int|
                0 <= i < quitting.len() && quitting[i] == model::set_flag(kept, false);
            assert(commands[i + 1] == quitting[i]);
        }
    }
}

proof fn lemma_quit_mirrors(player: VideoPlayer)
    ensures
        mirrors(
            player,
            model::activated(player, Action::Quit),
            model::quit_commands(player),
        ),
{
    let commands = model::quit_commands(player);
    if player.fullscreen {
        assert(commands[commands.len() - 2] == model::set_flag(Action::Fullscreen, false));
    }
}

/// A command that only a media engine can carry out.
pub open spec fn is_for_engine(command: CommandView) -> bool {
    match command {
        CommandView::WriteLastKnownMediaPosition
        | CommandView::TogglePause(_)
        | CommandView::DumpPipeline(_)
        | CommandView::Seek(_)
        | CommandView::SeekTo(_)
        | CommandView::IncreaseVolume
        | CommandView::DecreaseVolume
        | CommandView::SetVolume(_)
        | CommandView::ToggleMute(_)
        | CommandView::SetAudioVisualization(_)
        | CommandView::SetAudioTrackIndex(_)
        | CommandView::SetVideoTrackIndex(_)
        | CommandView::ConfigureSubtitleTrack(_)
        | CommandView::StopPlayer
        | CommandView::LoadUri(_)
        | CommandView::LoadPlaylist(_)
        | CommandView::ReadMediaInfo
        | CommandView::ReadPosition
        | CommandView::ReadSubtitleTracks => true,
        _ => false,
    }
}

/// No command of the sequence is for a media engine.
pub open spec fn spares_engine(commands: Seq<CommandView>) -> bool {
    forall|i: int| 0 <= i < commands.len() ==> !is_for_engine(#[trigger] commands[i])
}

/// Before there is a media engine, nothing is asked of one, whatever the user does and whatever
/// is reported.
pub proof fn law_nothing_asked_of_missing_engine(
    player: VideoPlayer,
    action: Action,
    value: Option<VariantView>,
    event: PlayerEvent,
    queued: Option<UIAction>,
    uri: Option<Seq<char>>,
    uris: Seq<Option<Seq<char>>>,
    info: Option<MediaInfoView>,
    location: Option<LocationView>,
    seconds: u64,
    time: ClockTime,
    volume: Volume,
)
    requires
        !player.has_engine,
    ensures
        spares_engine(model::change_commands(player, action, value)),
        spares_engine(model::activate_commands(player, action)),
        spares_engine(model::report_commands(player, event)),
        spares_engine(model::poll_commands(player, queued)),
        spares_engine(model::open_commands(player, uris)),
        spares_engine(model::media_chosen_commands(player, uri)),
        spares_engine(model::subtitle_file_chosen_commands(player, uri)),
        spares_engine(model::subtitle_file_found_commands(player, uri)),
        spares_engine(model::media_info_commands(player, info, location)),
        spares_engine(model::subtitle_menu_commands(player, info, location)),
        spares_engine(model::position_commands(player, time)),
        spares_engine(model::volume_commands(player, volume)),
        spares_engine(model::seek_commands(player, seconds)),
{
}

/// The visualization menu is filled at most once: afterwards visualizations are neither asked for
/// nor added.
pub proof fn law_visualizations_filled_once(
    player: VideoPlayer,
    info: Option<MediaInfoView>,
    location: Option<LocationView>,
    visualizations: Seq<VisualizationView>,
)
    ensures
        model::fill_visualizations_commands(
            model::visualizations_filled(player),
            visualizations,
        ) == Seq::<CommandView>::empty(),
        !model::media_info_commands(
            model::visualizations_filled(player),
            info,
            location,
        ).contains(CommandView::ListVisualizations),
{
}

/// A player with a media engine can be asked by the entry for `target`, and does `command` about
/// it before the state of the action is stored.
pub open spec fn entry_does(
    player: VideoPlayer,
    entry: MenuItemView,
    action: Action,
    target: Seq<char>,
    command: CommandView,
) -> bool {
    let value = Some(VariantView::Text(target));
    &&& entry.action == action::detailed_action(action, target)
    &&& model::acceptable(action, value)
    &&& model::change_commands(player, action, value) == seq![
        command,
        CommandView::SetActionState(action, VariantView::Text(target)),
    ]
}

/// The first entry of the subtitle menu turns subtitles off, and each other one selects the
/// stream that it was made for.
pub proof fn law_subtitle_entries_select(
    player: VideoPlayer,
    streams: Seq<SubtitleStreamView>,
    i: int,
)
    requires
        player.has_engine,
        0 <= i <= streams.len() <= i32::MAX,
    ensures
        menu::subtitle_entries(streams).len() == streams.len() + 1,
        i == 0 ==> entry_does(
            player,
            menu::subtitle_entries(streams)[i],
            Action::Subtitle,
            "none"@,
            CommandView::ConfigureSubtitleTrack(None),
        ),
        i > 0 ==> entry_does(
            player,
            menu::subtitle_entries(streams)[i],
            Action::Subtitle,
            "sub-"@ + text::int_text(i - 1),
            CommandView::ConfigureSubtitleTrack(Some(SubtitleTrackView::Inband((i - 1) as i32))),
        ),
{
    if i == 0 {
        lemma_subtitle_selected(player, "none"@);
    } else {
        selection::law_subtitle_stream_round_trip((i - 1) as i32);
        lemma_subtitle_selected(player, "sub-"@ + text::int_text(i - 1));
    }
}

proof fn lemma_subtitle_selected(player: VideoPlayer, target: Seq<char>)
    requires
        player.has_engine,
    ensures
        model::change_commands(player, Action::Subtitle, Some(VariantView::Text(target))) == seq![
            CommandView::ConfigureSubtitleTrack(selection::subtitle_selection(target)->0),
            CommandView::SetActionState(Action::Subtitle, VariantView::Text(target)),
        ],
{
    assert(model::change_commands(player, Action::Subtitle, Some(VariantView::Text(target)))
        =~= seq![
        CommandView::ConfigureSubtitleTrack(selection::subtitle_selection(target)->0),
        CommandView::SetActionState(Action::Subtitle, VariantView::Text(target)),
    ]);
}

/// The first entry of the audio menu selects the track -1, which turns audio off, and each other
/// one selects the track that has its place among the entries.
pub proof fn law_audio_entries_select(
    player: VideoPlayer,
    streams: Seq<AudioStreamView>,
    i: int,
)
    requires
        player.has_engine,
        0 <= i <= menu::named_streams(streams).len() <= i32::MAX,
    ensures
        menu::audio_menu(streams).len() == menu::named_streams(streams).len() + 1,
        entry_does(
            player,
            menu::audio_menu(streams)[i],
            Action::AudioTrack,
            "audio-"@ + text::int_text(i - 1),
            CommandView::SetAudioTrackIndex((i - 1) as i32),
        ),
{
    selection::law_track_round_trip((i - 1) as i32);
    reveal_strlit("audio-");
    reveal_strlit("audio--1");
    assert("audio--1"@ =~= "audio-"@ + text::int_text(-1));
}

/// The first entry of the video menu selects the track -1, which turns video off, and each other
/// one selects the stream that it was made for.
pub proof fn law_video_entries_select(player: VideoPlayer, streams: Seq<VideoStream>, i: int)
    requires
        player.has_engine,
        0 <= i <= streams.len() <= i32::MAX,
    ensures
        menu::video_menu(streams).len() == streams.len() + 1,
        entry_does(
            player,
            menu::video_menu(streams)[i],
            Action::VideoTrack,
            "video-"@ + text::int_text(i - 1),
            CommandView::SetVideoTrackIndex((i - 1) as i32),
        ),
{
    selection::law_track_round_trip((i - 1) as i32);
    reveal_strlit("video-");
    reveal_strlit("video--1");
    assert("video--1"@ =~= "video-"@ + text::int_text(-1));
}

/// The first entry of the visualization menu turns visualizations off, and each other one selects
/// the visualization that it was made for. A visualization of the name `none` is the exception.
pub proof fn law_visualization_entries_select(
    player: VideoPlayer,
    visualizations: Seq<VisualizationView>,
    i: int,
)
    requires
        player.has_engine,
        0 <= i <= visualizations.len(),
        i > 0 ==> visualizations[i - 1].name != "none"@,
    ensures
        menu::visualization_menu(visualizations).len() == visualizations.len() + 1,
        i == 0 ==> entry_does(
            player,
            menu::visualization_menu(visualizations)[i],
            Action::AudioVisualization,
            "none"@,
            CommandView::SetAudioVisualization(None),
        ),
        i > 0 ==> entry_does(
            player,
            menu::visualization_menu(visualizations)[i],
            Action::AudioVisualization,
            visualizations[i - 1].name,
            CommandView::SetAudioVisualization(Some(visualizations[i - 1].name)),
        ),
{
}

/// A subtitle file in use that can be named has the last entry of the subtitle menu. That entry
/// is the one that is selected, and selecting it keeps the file in use.
pub proof fn law_subtitle_file_stays(
    player: VideoPlayer,
    info: Option<MediaInfoView>,
    file: LocationView,
)
    requires
        player.has_engine,
        menu::subtitle_file_name(file) is Some,
    ensures
        menu::selected_subtitle(Some(file)) == "ext-"@ + file.uri,
        menu::subtitle_menu(info, Some(file)).last().label == menu::subtitle_file_name(file)->0,
        entry_does(
            player,
            menu::subtitle_menu(info, Some(file)).last(),
            Action::Subtitle,
            menu::selected_subtitle(Some(file)),
            model::use_subtitle_file(file.uri),
        ),
{
    selection::law_subtitle_file_round_trip(file.uri);
    lemma_subtitle_selected(player, "ext-"@ + file.uri);
}

/// What the player asks the subtitle action to take, the action can take. Without a subtitle file
/// that can be named this turns subtitles off.
pub proof fn law_selected_subtitle_is_acceptable(file: Option<LocationView>)
    ensures
        model::acceptable(
            Action::Subtitle,
            Some(VariantView::Text(menu::selected_subtitle(file))),
        ),
        file is None || menu::subtitle_file_name(file->0) is None
            ==> selection::subtitle_selection(menu::selected_subtitle(file)) == Some(
            None::<SubtitleTrackView>,
        ),
{
    if let Some(location) = file {
        selection::law_subtitle_file_round_trip(location.uri);
    }
}

/// The subtitle file that is looked for stands in the directory of the media, under the name of
/// the media with the extension `srt`.
pub proof fn law_subtitle_file_beside_media(info: MediaInfoView, location: LocationView)
    requires
        location.path is Some,
        path::path_file_name(location.path->0) is Some,
    ensures
        ({
            let media = location.path->0;
            let searched = path::path_with_extension(media, encode_utf8("srt"@));
            &&& model::presentation_commands(info, location).last()
                == CommandView::FindSubtitleFile(searched)
            &&& path::path_directory(searched) == path::path_directory(media)
            &&& path::path_file_name(searched) == Some(
                path::file_stem(path::path_file_name(media)->0) + seq![path::DOT] + encode_utf8(
                    "srt"@,
                ),
            )
        }),
{
    reveal_strlit("srt");
    is_ascii_chars_encode_utf8("srt"@);
    let extension = encode_utf8("srt"@);
    assert forall|i: int| 0 <= i < extension.len() implies extension[i] != path::SLASH
        && extension[i] != path::DOT by {
        assert("srt"@[i] as u8 == extension[i]);
        assert("srt"@[i] == 's' || "srt"@[i] == 'r' || "srt"@[i] == 't');
    }
    path::law_extension_keeps_directory(location.path->0, extension);
}

/// The position that the user asks for is the one that the window shows once the media engine is
/// there, for every position that the clock can hold.
pub proof fn law_seek_shows_position(player: VideoPlayer, seconds: u64)
    requires
        player.has_engine,
        seconds * clock::NANOSECONDS_PER_SECOND <= u64::MAX,
    ensures
        ({
            let time = clock::clock_from_seconds(seconds);
            &&& model::seek_commands(player, seconds) == seq![CommandView::SeekTo(time)]
            &&& model::position_commands(player, time) == seq![
                CommandView::SetPositionRangeValue(seconds),
            ]
        }),
{
    clock::law_seconds_round_trip(seconds);
}

/// The audio and video actions are registered with the text that selects the first track.
pub proof fn law_initial_tracks(action: Action)
    requires
        action == Action::AudioTrack || action == Action::VideoTrack,
    ensures
        action::initial_state(action) matches Some(VariantView::Text(target))
            && selection::track_selection(target) == Some(0i32),
{
    selection::law_track_round_trip(0);
    reveal_strlit("audio-");
    reveal_strlit("video-");
    reveal_strlit("audio-0");
    reveal_strlit("video-0");
    assert("audio-0"@ =~= "audio-"@ + text::int_text(0));
    assert("video-0"@ =~= "video-"@ + text::int_text(0));
}

/// The signal by which an action reaches the player.
pub open spec fn listened_signal(action: Action) -> Signal {
    match action {
        Action::DumpPipeline
        | Action::OpenMedia
        | Action::OpenSubtitleFile
        | Action::About
        | Action::Quit => Signal::Activate,
        _ => Signal::ChangeState,
    }
}

/// Files that are opened are played: whatever the player did before, the media engine is created
/// first, and the files whose URI is known are handed to it last, in order.
pub proof fn law_opened_files_reach_engine(
    player: VideoPlayer,
    self_updater: bool,
    uris: Seq<Option<Seq<char>>>,
)
    ensures
        ({
            let commands = model::files_opened_commands(player, self_updater, uris);
            &&& commands[0] == CommandView::CreatePlayer("media-cache.json"@)
            &&& commands.last() == CommandView::LoadPlaylist(model::known_uris(uris))
        }),
{
}

/// A report of the media engine that is forwarded is taken from the queue as that report, and
/// nothing is forwarded without one. No report turns into a request to quit.
pub proof fn law_forwarded_events_are_dispatched(player: VideoPlayer, event: Option<PlayerEvent>)
    ensures
        model::forwarded(event) != Some(UIAction::Quit),
        model::forwarded(event) is Some <==> event is Some,
        model::forwarded(event) matches Some(UIAction::ForwardedPlayerEvent(kept)) ==> event
            == Some(kept),
        event matches Some(event) ==> {
            &&& model::polled(player, model::forwarded(Some(event))) == model::reported(
                player,
                event,
            )
            &&& model::poll_commands(player, model::forwarded(Some(event)))
                == model::report_commands(player, event)
        },
        event is None ==> {
            &&& model::polled(player, model::forwarded(event)) == player
            &&& model::poll_commands(player, model::forwarded(event)) == Seq::<
                CommandView,
            >::empty()
        },
{
}

/// Once the player is started, every action is registered exactly once and listened to exactly
/// once, by its signal.
pub proof fn law_every_action_is_listened_to(action: Action, self_updater: bool)
    ensures
        ({
            let steps = model::setup_commands() + model::start_commands(self_updater);
            &&& exists|i: int|
                0 <= i < steps.len() && #[trigger] steps[i] == CommandView::RegisterAction(action)
            &&& exists|i: int|
                0 <= i < steps.len() && #[trigger] steps[i] == CommandView::Connect(
                    action,
                    listened_signal(action),
                )
            &&& forall|i: int, j: int|
                0 <= i < j < steps.len() ==> #[trigger] steps[i] != #[trigger] steps[j]
            &&& forall|i: int|
                0 <= i < steps.len() ==> (#[trigger] steps[i] matches CommandView::Connect(
                    connected,
                    signal,
                ) ==> signal == listened_signal(connected))
        }),
{
    let setup = model::setup_commands();
    let start = model::start_commands(self_updater);
    let steps = setup + start;
    assert(setup.len() == 23);
    let place: int = match action {
        Action::Fullscreen => 0,
        Action::Restore => 1,
        Action::Pause => 2,
        Action::SeekForward => 3,
        Action::SeekBackward => 4,
        Action::OpenMedia => 5,
        Action::OpenSubtitleFile => 6,
        Action::AudioMute => 7,
        Action::VolumeIncrease => 8,
        Action::VolumeDecrease => 9,
        Action::DumpPipeline => 10,
        Action::Subtitle => 11,
        Action::AudioVisualization => 12,
        Action::AudioTrack => 13,
        Action::VideoTrack => 14,
        Action::About => 16,
        Action::Quit => 19,
    };
    assert(steps[place] == setup[place]);
    assert(steps[place] == CommandView::RegisterAction(action));
    let ear: int = match action {
        Action::About => 15,
        Action::Quit => 18,
        Action::Pause => 25,
        Action::DumpPipeline => 26,
        Action::SeekForward => 27,
        Action::SeekBackward => 28,
        Action::VolumeDecrease => 29,
        Action::VolumeIncrease => 30,
        Action::AudioMute => 31,
        Action::Fullscreen => 32,
        Action::Restore => 33,
        Action::Subtitle => 34,
        Action::AudioVisualization => 35,
        Action::AudioTrack => 36,
        Action::VideoTrack => 37,
        Action::OpenMedia => 38,
        Action::OpenSubtitleFile => 39,
    };
    assert(steps[ear] == CommandView::Connect(action, listened_signal(action)));
}

} // verus!
