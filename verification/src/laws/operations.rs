//! What each operation does about what it is given, and what it leaves alone.

use vstd::prelude::*;
use vstd::utf8::*;

use crate::action::{Action, Signal, VariantView};
use crate::clock::ClockTime;
use crate::command::{Command, CommandView, Menu};
use crate::laws::menus;
use crate::media::{
    LocationView, MediaInfoView, PlaybackState, PlayerEvent, SeekDirection, SubtitleTrackView,
    UIAction, Volume,
};
use crate::menu;
use crate::model;
use crate::path;
use crate::player::VideoPlayer;
use crate::selection;
use crate::text;

verus! {

/// `commands` are nothing at all.
pub open spec fn nothing(commands: Seq<CommandView>) -> bool {
    commands.len() == 0
}

/// `commands` are the one command.
pub open spec fn only(commands: Seq<CommandView>, command: CommandView) -> bool {
    commands.len() == 1 && commands[0] == command
}

/// `commands` are the two commands, in this order.
pub open spec fn both(commands: Seq<CommandView>, first: CommandView, second: CommandView) -> bool {
    commands.len() == 2 && commands[0] == first && commands[1] == second
}

/// A new player has no media engine, fills no screen, plays and sounds, and its visualization menu
/// is open. Starting it gives it an engine and changes nothing else.
pub proof fn law_start_gives_engine(player: VideoPlayer)
    ensures
        ({
            let new = model::initial_player();
            !new.has_engine && !new.fullscreen && !new.paused && !new.muted
                && !new.visualizations_frozen
        }),
        ({
            let after = model::started(player);
            &&& after.has_engine
            &&& after.fullscreen == player.fullscreen
            &&& after.paused == player.paused
            &&& after.muted == player.muted
            &&& after.visualizations_frozen == player.visualizations_frozen
        }),
{
}

/// The place of an action among all of them.
pub open spec fn place(action: Action) -> int {
    match action {
        Action::Fullscreen => 0,
        Action::Restore => 1,
        Action::Pause => 2,
        Action::SeekForward => 3,
        Action::SeekBackward => 4,
        Action::OpenMedia => 5,
        Action::OpenSubtitleFile => 6,
        Action::AudioMute => 7,
        Action::VolumeIncrease => 8,
        Action::VolumeDecrease => 9,
        Action::DumpPipeline => 10,
        Action::Subtitle => 11,
        Action::AudioVisualization => 12,
        Action::AudioTrack => 13,
        Action::VideoTrack => 14,
        Action::About => 15,
        Action::Quit => 16,
    }
}

/// Actions are registered in the order of their places, and one that needs no media engine is
/// listened to right before.
pub proof fn law_setup_order()
    ensures
        ({
            let steps = model::setup_commands();
            &&& forall|i: int, j: int|
                0 <= i < j < steps.len() ==> (#[trigger] steps[i] matches
                    CommandView::RegisterAction(first) ==> (#[trigger] steps[j] matches
                    CommandView::RegisterAction(second) ==> place(first) < place(second)))
            &&& forall|i: int, j: int|
                0 <= i < steps.len() && j == i + 1 ==> (#[trigger] steps[i] matches
                    CommandView::Connect(action, _) ==> #[trigger] steps[j]
                    == CommandView::RegisterAction(action))
        }),
{
}

/// What sets up the application: besides the actions, it listens to being activated and to files
/// being opened, and makes its window before its queue. The actions that need no media engine are
/// listened to from here on.
pub proof fn law_setup_steps()
    ensures
        ({
            let steps = model::setup_commands();
            &&& steps.len() == 23
            &&& steps.contains(CommandView::ConnectApplicationActivate)
            &&& steps.contains(CommandView::ConnectApplicationOpen)
            &&& steps.contains(CommandView::Connect(Action::About, Signal::Activate))
            &&& steps.contains(CommandView::Connect(Action::Quit, Signal::Activate))
            &&& steps[21] == CommandView::CreateWindow
            &&& steps[22] == CommandView::CreateEventQueue
            &&& forall|i: int|
                0 <= i < steps.len() ==> (#[trigger] steps[i] matches CommandView::Connect(
                    action,
                    _,
                ) ==> action == Action::About || action == Action::Quit)
        }),
{
    let steps = model::setup_commands();
    assert(steps[15] == CommandView::Connect(Action::About, Signal::Activate));
    assert(steps[17] == CommandView::ConnectApplicationActivate);
    assert(steps[18] == CommandView::Connect(Action::Quit, Signal::Activate));
    assert(steps[20] == CommandView::ConnectApplicationOpen);
}

/// What starts the player: the media engine is made first and its reports are forwarded, the
/// window is wired to it behind the actions, and the window starts last. Only a program that
/// updates itself looks for a release, right before that; nothing else depends on it.
pub proof fn law_start_steps(self_updater: bool)
    ensures
        ({
            let steps = model::start_commands(self_updater);
            let plain = model::start_commands(false);
            &&& plain.len() == 22
            &&& steps.contains(CommandView::CheckUpdate) <==> self_updater
            &&& self_updater ==> steps == plain.insert(21, CommandView::CheckUpdate)
            &&& plain[0] == CommandView::CreatePlayer("media-cache.json"@)
            &&& plain[1] == CommandView::ForwardPlayerEvents
            &&& forall|i: int| 2 <= i < 17 ==> (#[trigger] plain[i]) is Connect
            &&& plain[17] == CommandView::ShowVideoArea
            &&& plain[18] == CommandView::ConnectProgressFormat
            &&& plain[19] == CommandView::ConnectVolumeChanged
            &&& plain[20] == CommandView::ConnectPositionChanged
            &&& plain[21] == CommandView::StartWindow
        }),
{
    let steps = model::start_commands(self_updater);
    let plain = model::start_commands(false);
    if self_updater {
        assert(steps[21] == CommandView::CheckUpdate);
        assert(steps =~= plain.insert(21, CommandView::CheckUpdate));
    }
}

/// Quitting keeps the position where there is an engine, leaves fullscreen mode where the window is
/// in it, and ends with the window, in this order and with nothing else.
pub proof fn law_quit_steps(player: VideoPlayer)
    ensures
        ({
            let commands = model::quit_commands(player);
            let engine = if player.has_engine {
                1int
            } else {
                0
            };
            let screen = if player.fullscreen {
                2int
            } else {
                0
            };
            &&& commands.len() == engine + screen + 1
            &&& player.has_engine ==> commands[0] == CommandView::WriteLastKnownMediaPosition
            &&& player.fullscreen ==> commands[engine] == CommandView::LeaveFullscreen
                && commands[engine + 1] == CommandView::SetActionState(
                Action::Fullscreen,
                VariantView::Boolean(false),
            )
            &&& commands.last() == CommandView::StopWindow
        }),
{
}

/// The two players differ at most in fullscreen mode.
pub open spec fn same_but_screen(a: VideoPlayer, b: VideoPlayer) -> bool {
    &&& a.has_engine == b.has_engine
    &&& a.paused == b.paused
    &&& a.muted == b.muted
    &&& a.visualizations_frozen == b.visualizations_frozen
}

/// Quitting and an error of the engine end fullscreen mode; no other trigger or report changes the
/// player, and neither changes anything else of it.
pub proof fn law_what_triggers_change(player: VideoPlayer, action: Action, event: PlayerEvent)
    ensures
        same_but_screen(model::activated(player, action), player),
        same_but_screen(model::reported(player, event), player),
        model::activated(player, action).fullscreen == (player.fullscreen && action
            != Action::Quit),
        model::reported(player, event).fullscreen == (player.fullscreen && event
            != PlayerEvent::Error),
{
}

/// A request changes at most the flag of its own action: pausing and fullscreen mode always turn
/// over, muting turns over where there is an engine, restoring ends fullscreen mode.
pub proof fn law_what_requests_change(player: VideoPlayer, action: Action)
    ensures
        ({
            let after = model::changed(player, action);
            &&& after.has_engine == player.has_engine
            &&& after.visualizations_frozen == player.visualizations_frozen
            &&& after.paused != player.paused <==> action == Action::Pause
            &&& after.muted != player.muted <==> action == Action::AudioMute && player.has_engine
            &&& after.fullscreen != player.fullscreen <==> action == Action::Fullscreen || (action
                == Action::Restore && player.fullscreen)
        }),
{
}

/// A two-valued action stores the new flag as its state.
pub open spec fn stores(action: Action, flag: bool) -> CommandView {
    CommandView::SetActionState(action, VariantView::Boolean(flag))
}

/// Pausing tells the engine, where there is one, whether playback was paused before, and stores
/// the opposite.
pub proof fn law_pause_steps(player: VideoPlayer, value: Option<VariantView>)
    ensures
        ({
            let commands = model::change_commands(player, Action::Pause, value);
            let stored = stores(Action::Pause, !player.paused);
            &&& player.has_engine ==> both(
                commands,
                CommandView::TogglePause(player.paused),
                stored,
            )
            &&& !player.has_engine ==> only(commands, stored)
        }),
{
}

/// Muting tells the engine the new state and stores it; without an engine nothing happens.
pub proof fn law_mute_steps(player: VideoPlayer, value: Option<VariantView>)
    ensures
        ({
            let commands = model::change_commands(player, Action::AudioMute, value);
            &&& player.has_engine ==> both(
                commands,
                CommandView::ToggleMute(!player.muted),
                stores(Action::AudioMute, !player.muted),
            )
            &&& !player.has_engine ==> nothing(commands)
        }),
{
}

/// Fullscreen mode is entered outside of it and left inside of it; restoring the window only leaves
/// it. The state that is stored says which.
pub proof fn law_fullscreen_steps(player: VideoPlayer, value: Option<VariantView>)
    ensures
        ({
            let toggled = model::change_commands(player, Action::Fullscreen, value);
            let restored = model::change_commands(player, Action::Restore, value);
            &&& player.fullscreen ==> both(
                toggled,
                CommandView::LeaveFullscreen,
                stores(Action::Fullscreen, false),
            )
            &&& !player.fullscreen ==> both(
                toggled,
                CommandView::EnterFullscreen,
                stores(Action::Fullscreen, true),
            )
            &&& player.fullscreen ==> restored == toggled
            &&& !player.fullscreen ==> nothing(restored)
            &&& model::leave_fullscreen_commands(player) == restored
        }),
{
    assert(player.fullscreen ==> model::change_commands(player, Action::Restore, value)
        =~= model::change_commands(player, Action::Fullscreen, value));
}

/// A step forwards is five seconds, a step backwards two; a step of the volume goes the way that
/// its action says. Each asks the engine for one thing, where there is one.
pub proof fn law_steps_forwards_and_backwards(player: VideoPlayer, value: Option<VariantView>)
    ensures
        player.has_engine ==> {
            &&& only(
                model::change_commands(player, Action::SeekForward, value),
                CommandView::Seek(SeekDirection::Forward(ClockTime(Some(5_000_000_000)))),
            )
            &&& only(
                model::change_commands(player, Action::SeekBackward, value),
                CommandView::Seek(SeekDirection::Backward(ClockTime(Some(2_000_000_000)))),
            )
            &&& only(
                model::change_commands(player, Action::VolumeIncrease, value),
                CommandView::IncreaseVolume,
            )
            &&& only(
                model::change_commands(player, Action::VolumeDecrease, value),
                CommandView::DecreaseVolume,
            )
        },
        !player.has_engine ==> {
            &&& nothing(model::change_commands(player, Action::SeekForward, value))
            &&& nothing(model::change_commands(player, Action::SeekBackward, value))
            &&& nothing(model::change_commands(player, Action::VolumeIncrease, value))
            &&& nothing(model::change_commands(player, Action::VolumeDecrease, value))
        },
{
}

/// Actions that are triggered do nothing when they are asked to change their state, and the other
/// way round. Those that are triggered do one thing, and all but two of them need an engine.
pub proof fn law_triggered_actions(player: VideoPlayer, value: Option<VariantView>)
    ensures
        forall|action: Action|
            action == Action::OpenMedia || action == Action::OpenSubtitleFile || action
                == Action::About || action == Action::Quit || action == Action::DumpPipeline
                ==> nothing(#[trigger] model::change_commands(player, action, value)),
        forall|action: Action|
            action != Action::OpenMedia && action != Action::OpenSubtitleFile && action
                != Action::About && action != Action::Quit && action != Action::DumpPipeline
                ==> nothing(#[trigger] model::activate_commands(player, action)),
        only(
            model::activate_commands(player, Action::About),
            CommandView::DisplayAboutDialog,
        ),
        model::activate_commands(player, Action::Quit) == model::quit_commands(player),
        player.has_engine ==> {
            &&& only(
                model::activate_commands(player, Action::DumpPipeline),
                CommandView::DumpPipeline("glide"@),
            )
            &&& only(
                model::activate_commands(player, Action::OpenMedia),
                CommandView::ChooseMedia,
            )
            &&& only(
                model::activate_commands(player, Action::OpenSubtitleFile),
                CommandView::ChooseSubtitleFile,
            )
        },
        !player.has_engine ==> {
            &&& nothing(model::activate_commands(player, Action::DumpPipeline))
            &&& nothing(model::activate_commands(player, Action::OpenMedia))
            &&& nothing(model::activate_commands(player, Action::OpenSubtitleFile))
        },
{
}

/// Selecting by a text tells the engine, where there is one, what the text stands for, and stores
/// the text. Without an engine only the subtitle action stores it.
pub proof fn law_selections_are_carried_out(player: VideoPlayer, target: Seq<char>)
    ensures
        ({
            let value = Some(VariantView::Text(target));
            let subtitles = model::change_commands(player, Action::Subtitle, value);
            let visualization = model::change_commands(player, Action::AudioVisualization, value);
            let audio = model::change_commands(player, Action::AudioTrack, value);
            let video = model::change_commands(player, Action::VideoTrack, value);
            &&& model::subtitle_commands(player, value) == subtitles
            &&& model::visualization_commands(player, value) == visualization
            &&& model::audio_track_commands(player, value) == audio
            &&& model::video_track_commands(player, value) == video
            &&& player.has_engine ==> {
                &&& selection::subtitle_selection(target) matches Some(track) ==> both(
                    subtitles,
                    CommandView::ConfigureSubtitleTrack(track),
                    CommandView::SetActionState(Action::Subtitle, VariantView::Text(target)),
                )
                &&& visualization.len() == 2
                &&& target == "none"@ ==> visualization[0] == CommandView::SetAudioVisualization(
                    None,
                )
                &&& target != "none"@ ==> visualization[0] == CommandView::SetAudioVisualization(
                    Some(target),
                )
                &&& visualization[1] == CommandView::SetActionState(
                    Action::AudioVisualization,
                    VariantView::Text(target),
                )
                &&& selection::track_selection(target) matches Some(index) ==> both(
                    audio,
                    CommandView::SetAudioTrackIndex(index),
                    CommandView::SetActionState(Action::AudioTrack, VariantView::Text(target)),
                ) && both(
                    video,
                    CommandView::SetVideoTrackIndex(index),
                    CommandView::SetActionState(Action::VideoTrack, VariantView::Text(target)),
                )
            }
            &&& !player.has_engine ==> {
                &&& only(
                    subtitles,
                    CommandView::SetActionState(Action::Subtitle, VariantView::Text(target)),
                )
                &&& nothing(visualization)
                &&& nothing(audio)
                &&& nothing(video)
            }
        }),
{
}

/// A value that is no text selects nothing: the subtitle action stores it, the others do nothing.
/// No value at all does nothing anywhere.
pub proof fn law_other_values_select_nothing(player: VideoPlayer, value: VariantView)
    requires
        value !is Text,
    ensures
        only(
            model::change_commands(player, Action::Subtitle, Some(value)),
            CommandView::SetActionState(Action::Subtitle, value),
        ),
        nothing(model::change_commands(player, Action::AudioVisualization, Some(value))),
        nothing(model::change_commands(player, Action::AudioTrack, Some(value))),
        nothing(model::change_commands(player, Action::VideoTrack, Some(value))),
        nothing(model::change_commands(player, Action::Subtitle, None)),
        nothing(model::change_commands(player, Action::AudioVisualization, None)),
        nothing(model::change_commands(player, Action::AudioTrack, None)),
        nothing(model::change_commands(player, Action::VideoTrack, None)),
{
}

/// An action can be asked to take any value, but for texts that the subtitle action or a track
/// action would have to make sense of and cannot.
pub proof fn law_what_actions_can_take(action: Action, value: Option<VariantView>)
    ensures
        !model::acceptable(action, value) <==> (value matches Some(VariantView::Text(target)) && ((
        action == Action::Subtitle && selection::subtitle_selection(target) is None) || ((action
            == Action::AudioTrack || action == Action::VideoTrack) && selection::track_selection(
            target,
        ) is None))),
{
}

/// What the window shows is what the engine reports: the size of the video, what the engine is
/// doing, the volume. Of the media and the position it is told to ask the engine, where there is
/// one.
pub proof fn law_reports_are_shown(
    player: VideoPlayer,
    width: i32,
    height: i32,
    state: PlaybackState,
    volume: Volume,
)
    ensures
        only(
            model::report_commands(player, PlayerEvent::VideoDimensionsChanged(width, height)),
            CommandView::ResizeWindow(width, height),
        ),
        only(
            model::report_commands(player, PlayerEvent::StateChanged(state)),
            CommandView::ShowPlaybackState(state),
        ),
        only(
            model::report_commands(player, PlayerEvent::VolumeChanged(volume)),
            CommandView::ShowVolume(volume),
        ),
        player.has_engine ==> only(
            model::report_commands(player, PlayerEvent::MediaInfoUpdated),
            CommandView::ReadMediaInfo,
        ) && only(
            model::report_commands(player, PlayerEvent::PositionUpdated),
            CommandView::ReadPosition,
        ),
        !player.has_engine ==> nothing(
            model::report_commands(player, PlayerEvent::MediaInfoUpdated),
        ) && nothing(model::report_commands(player, PlayerEvent::PositionUpdated)),
        nothing(model::report_commands(player, PlayerEvent::Other)),
{
}

/// An error of the engine is said in one line, and quits.
pub proof fn law_errors_quit(player: VideoPlayer)
    ensures
        model::report_commands(player, PlayerEvent::Error).len() == model::quit_commands(
            player,
        ).len() + 1,
        model::report_commands(player, PlayerEvent::Error)[0] == CommandView::PrintError("Error!"@),
        model::report_commands(player, PlayerEvent::Error).skip(1) == model::quit_commands(player),
{
    assert(model::report_commands(player, PlayerEvent::Error).skip(1) =~= model::quit_commands(
        player,
    ));
}

/// A request to quit that comes out of the queue quits, and an empty queue does nothing.
pub proof fn law_queue_quits(player: VideoPlayer)
    ensures
        model::poll_commands(player, Some(UIAction::Quit)) == model::quit_commands(player),
        same_but_screen(model::polled(player, Some(UIAction::Quit)), player),
        !model::polled(player, Some(UIAction::Quit)).fullscreen,
        nothing(model::poll_commands(player, None)),
        model::polled(player, None) == player,
{
}

/// The title of the media is the title of the window, wherever the media comes from. Without one
/// it is the path of a local file, and only without both the URI.
pub proof fn law_window_title(
    title: Seq<char>,
    file: Seq<char>,
    other: Option<Seq<char>>,
    uri: Seq<char>,
)
    ensures
        model::window_title(Some(title), other, uri) == title,
        model::window_title(None, Some(file), uri) == file,
        model::window_title(None, None, uri) == uri,
{
}

/// What `commands` say the title of the window is, as their first step.
pub open spec fn titles(commands: Seq<CommandView>, title: Seq<char>) -> bool {
    commands.len() > 0 && commands[0] == CommandView::SetWindowTitle(title)
}

/// New information on media that comes from somewhere first sets the title of the window: the title
/// of the media; else the text that the bytes of its path encode; else its URI.
pub proof fn law_media_titles_window(
    player: VideoPlayer,
    info: MediaInfoView,
    location: LocationView,
    path: Seq<char>,
)
    requires
        player.has_engine,
    ensures
        ({
            let commands = model::media_info_commands(player, Some(info), Some(location));
            &&& info.title matches Some(title) ==> titles(commands, title)
            &&& info.title is None && location.path == Some(encode_utf8(path)) ==> titles(
                commands,
                path,
            )
            &&& info.title is None && location.path is None ==> titles(commands, location.uri)
            &&& info.title is None && location.path is Some && !valid_utf8(location.path->0)
                ==> titles(commands, text::lossy_text(location.path->0))
        }),
{
    encode_utf8_valid_utf8(path);
    encode_utf8_decode_utf8(path);
}

/// Behind the title the end of the position slider is set to the whole seconds of the duration,
/// where it is known, and a subtitle file is looked for, where the media is a local file: its path
/// with the extension `srt`. The rest is as for media that comes from nowhere.
pub proof fn law_media_is_presented(
    player: VideoPlayer,
    info: MediaInfoView,
    location: LocationView,
)
    requires
        player.has_engine,
    ensures
        ({
            let commands = model::media_info_commands(player, Some(info), Some(location));
            let rest = model::media_info_commands(player, Some(info), None);
            let known = if info.duration.0 is Some {
                1int
            } else {
                0
            };
            let local = if location.path is Some {
                1int
            } else {
                0
            };
            &&& commands.len() == 1 + known + local + rest.len()
            &&& commands.skip(1 + known + local) == rest
            &&& info.duration.0 matches Some(nanoseconds) ==> (commands[1] matches
                CommandView::SetPositionRangeEnd(seconds) && seconds * 1_000_000_000
                <= nanoseconds < (seconds + 1) * 1_000_000_000)
            &&& location.path matches Some(path) ==> commands[1 + known]
                == CommandView::FindSubtitleFile(
                path::path_with_extension(path, seq![0x73u8, 0x72u8, 0x74u8]),
            )
        }),
{
    reveal_strlit("srt");
    is_ascii_chars_encode_utf8("srt"@);
    let extension = encode_utf8("srt"@);
    assert(extension[0] == "srt"@[0] as u8);
    assert(extension[1] == "srt"@[1] as u8);
    assert(extension[2] == "srt"@[2] as u8);
    assert(extension =~= seq![0x73u8, 0x72u8, 0x74u8]);
    let presented = model::presentation_commands(info, location);
    let commands = model::media_info_commands(player, Some(info), Some(location));
    let rest = model::media_info_commands(player, Some(info), None);
    assert(commands =~= presented + rest);
    assert(commands.skip(presented.len() as int) =~= rest);
}

/// New information on the media, wherever it comes from, has the subtitle tracks read, and the audio
/// and video menus emptied and filled with the streams. Without video, visualizations are listed,
/// unless they were before, and can be chosen; with video their menu is emptied and they cannot.
pub proof fn law_media_fills_menus(player: VideoPlayer, info: MediaInfoView)
    requires
        player.has_engine,
    ensures
        ({
            let commands = model::media_info_commands(player, Some(info), None);
            let offered = info.number_of_video_streams == 0;
            let listed = offered && !player.visualizations_frozen;
            &&& commands.len() == if offered && !listed {
                6int
            } else {
                7
            }
            &&& commands[0] == CommandView::ReadSubtitleTracks
            &&& commands[1] == CommandView::ClearMenu(Menu::AudioTrack)
            &&& menus::section(commands[2], Menu::AudioTrack) == Some(
                menu::audio_menu(info.audio_streams),
            )
            &&& commands[3] == CommandView::ClearMenu(Menu::VideoTrack)
            &&& menus::section(commands[4], Menu::VideoTrack) == Some(
                menu::video_menu(info.video_streams),
            )
            &&& listed ==> commands[5] == CommandView::ListVisualizations
            &&& !offered ==> commands[5] == CommandView::ClearMenu(Menu::AudioVisualization)
            &&& commands.last() == CommandView::SetActionEnabled(
                Action::AudioVisualization,
                offered,
            )
        }),
{
}

/// Without information, and without an engine to give it, nothing is done about the media.
pub proof fn law_no_media_no_steps(
    player: VideoPlayer,
    info: Option<MediaInfoView>,
    location: Option<LocationView>,
)
    ensures
        info is None || !player.has_engine ==> nothing(
            model::media_info_commands(player, info, location),
        ),
{
}

/// The playlist is made of the files one by one: a file with a URI adds that URI at its place, and a
/// file without one adds nothing and changes nothing else.
pub proof fn law_playlist_is_made_of_files(
    a: Seq<Option<Seq<char>>>,
    b: Seq<Option<Seq<char>>>,
    uri: Seq<char>,
)
    ensures
        model::known_uris(a + b) == model::known_uris(a) + model::known_uris(b),
        model::known_uris(seq![Some(uri)]) == seq![uri],
        model::known_uris(seq![None]).len() == 0,
        model::known_uris(seq![]).len() == 0,
{
    let known = |uri: Option<Seq<char>>| uri is Some;
    let content = |uri: Option<Seq<char>>| uri->0;
    Seq::filter_distributes_over_add(a, b, known);
    assert((a.filter(known) + b.filter(known)).map_values(content) =~= a.filter(known).map_values(
        content,
    ) + b.filter(known).map_values(content));
    reveal(Seq::filter);
    let one = seq![Some(uri)];
    assert(one.drop_last() =~= seq![]);
    assert(one.last() == Some(uri));
    assert(one.filter(known) =~= one);
    assert(model::known_uris(one) =~= seq![uri]);
    let none = seq![None::<Seq<char>>];
    assert(none.drop_last() =~= seq![]);
    assert(none.last() is None);
    assert(none.filter(known) =~= seq![]);
}

/// Where every file has a URI, the playlist holds all of them, each at its place.
pub proof fn law_whole_playlist(uris: Seq<Option<Seq<char>>>)
    requires
        forall|i: int| 0 <= i < uris.len() ==> (#[trigger] uris[i]) is Some,
    ensures
        model::known_uris(uris).len() == uris.len(),
        forall|i: int|
            0 <= i < uris.len() ==> Some(#[trigger] model::known_uris(uris)[i]) == uris[i],
    decreases uris.len(),
{
    if uris.len() > 0 {
        let before = uris.drop_last();
        law_whole_playlist(before);
        law_playlist_is_made_of_files(before, seq![uris.last()], uris.last()->0);
        assert(before + seq![uris.last()] =~= uris);
        assert(uris.last() == Some(uris.last()->0));
        assert forall|i: int| 0 <= i < uris.len() implies Some(#[trigger] model::known_uris(uris)[i])
            == uris[i] by {
            if i < before.len() {
                assert(model::known_uris(uris)[i] == model::known_uris(before)[i]);
                assert(before[i] == uris[i]);
            }
        }
    } else {
        law_playlist_is_made_of_files(uris, uris, seq![]);
        assert(uris =~= seq![]);
    }
}

/// The files that are opened are handed to the engine, where there is one, as one playlist.
pub proof fn law_opened_files_are_loaded(player: VideoPlayer, uris: Seq<Option<Seq<char>>>)
    ensures
        player.has_engine ==> only(
            model::open_commands(player, uris),
            CommandView::LoadPlaylist(model::known_uris(uris)),
        ),
        !player.has_engine ==> nothing(model::open_commands(player, uris)),
{
}

/// Opening files starts the player as it starts without files, and then opens them.
pub proof fn law_opening_starts_first(
    player: VideoPlayer,
    self_updater: bool,
    uris: Seq<Option<Seq<char>>>,
)
    ensures
        ({
            let commands = model::files_opened_commands(player, self_updater, uris);
            let start = model::start_commands(self_updater);
            &&& commands.len() == start.len() + 1
            &&& commands.take(start.len() as int) == start
            &&& commands.last() == CommandView::LoadPlaylist(model::known_uris(uris))
        }),
{
    let commands = model::files_opened_commands(player, self_updater, uris);
    let start = model::start_commands(self_updater);
    assert(commands.take(start.len() as int) =~= start);
}

/// Media that the user chooses is named in a line, and takes the place of what is playing. Where
/// nothing is chosen, or there is no engine, nothing happens.
pub proof fn law_chosen_media_is_loaded(player: VideoPlayer, uri: Seq<char>)
    ensures
        player.has_engine ==> ({
            let commands = model::media_chosen_commands(player, Some(uri));
            &&& commands.len() == 3
            &&& commands[0] == CommandView::Print("loading "@ + uri)
            &&& commands[1] == CommandView::StopPlayer
            &&& commands[2] == CommandView::LoadUri(uri)
        }),
        !player.has_engine ==> nothing(model::media_chosen_commands(player, Some(uri))),
        nothing(model::media_chosen_commands(player, None)),
{
}

/// A subtitle file that the user chooses, or that is found beside the media, is the one that the
/// engine uses from then on. After a choice the subtitle menu is read anew, chosen or not.
pub proof fn law_subtitle_files_are_used(player: VideoPlayer, uri: Seq<char>)
    ensures
        ({
            let used = CommandView::ConfigureSubtitleTrack(Some(SubtitleTrackView::External(uri)));
            let chosen = model::subtitle_file_chosen_commands(player, Some(uri));
            let found = model::subtitle_file_found_commands(player, Some(uri));
            &&& player.has_engine ==> both(chosen, used, CommandView::ReadSubtitleTracks)
            &&& player.has_engine ==> only(found, used)
            &&& !player.has_engine ==> nothing(chosen) && nothing(found)
        }),
        player.has_engine ==> only(
            model::subtitle_file_chosen_commands(player, None),
            CommandView::ReadSubtitleTracks,
        ),
        !player.has_engine ==> nothing(model::subtitle_file_chosen_commands(player, None)),
        nothing(model::subtitle_file_found_commands(player, None)),
{
}

/// The engine is asked for the volume and the position that the sliders are moved to: that volume,
/// and that many seconds in nanoseconds, or an unknown position where the clock cannot hold them.
/// The window shows the whole seconds of the position that the engine gives, where it knows it.
pub proof fn law_sliders(player: VideoPlayer, volume: Volume, seconds: u64, position: ClockTime)
    ensures
        player.has_engine ==> {
            &&& only(model::volume_commands(player, volume), CommandView::SetVolume(volume))
            &&& only(
                model::seek_commands(player, seconds),
                CommandView::SeekTo(
                    ClockTime(
                        if seconds * 1_000_000_000 <= 0xffff_ffff_ffff_ffff {
                            Some((seconds * 1_000_000_000) as u64)
                        } else {
                            None
                        },
                    ),
                ),
            )
            &&& position.0 matches Some(nanoseconds) ==> {
                let shown = model::position_commands(player, position);
                shown.len() == 1 && (shown[0] matches CommandView::SetPositionRangeValue(value)
                    && value * 1_000_000_000 <= nanoseconds < (value + 1) * 1_000_000_000)
            }
        },
        !player.has_engine ==> {
            &&& nothing(model::volume_commands(player, volume))
            &&& nothing(model::seek_commands(player, seconds))
            &&& nothing(model::position_commands(player, position))
        },
        position.0 is None ==> nothing(model::position_commands(player, position)),
{
}

/// The view of a command that carries a value carries that value, for the same purpose.
pub proof fn law_command_views_keep_values(command: Command)
    ensures
        match (command, command.deep_view()) {
            (Command::RegisterAction(x), CommandView::RegisterAction(y)) => x == y,
            (Command::RegisterAction(_), _) => false,
            (Command::Connect(x, a), CommandView::Connect(y, b)) => x == y && a == b,
            (Command::Connect(..), _) => false,
            (Command::CreatePlayer(x), CommandView::CreatePlayer(y)) => x@ == y,
            (Command::CreatePlayer(_), _) => false,
            (Command::TogglePause(x), CommandView::TogglePause(y)) => x == y,
            (Command::TogglePause(_), _) => false,
            (Command::DumpPipeline(x), CommandView::DumpPipeline(y)) => x@ == y,
            (Command::DumpPipeline(_), _) => false,
            (Command::Seek(x), CommandView::Seek(y)) => x == y,
            (Command::Seek(_), _) => false,
            (Command::SeekTo(x), CommandView::SeekTo(y)) => x == y,
            (Command::SeekTo(_), _) => false,
            (Command::SetVolume(x), CommandView::SetVolume(y)) => x == y,
            (Command::SetVolume(_), _) => false,
            (Command::ToggleMute(x), CommandView::ToggleMute(y)) => x == y,
            (Command::ToggleMute(_), _) => false,
            (Command::SetAudioVisualization(x), CommandView::SetAudioVisualization(y)) => match x {
                Some(name) => y == Some(name.0@),
                None => y is None,
            },
            (Command::SetAudioVisualization(_), _) => false,
            (Command::SetAudioTrackIndex(x), CommandView::SetAudioTrackIndex(y)) => x == y,
            (Command::SetAudioTrackIndex(_), _) => false,
            (Command::SetVideoTrackIndex(x), CommandView::SetVideoTrackIndex(y)) => x == y,
            (Command::SetVideoTrackIndex(_), _) => false,
            (Command::ConfigureSubtitleTrack(x), CommandView::ConfigureSubtitleTrack(y)) => match x {
                Some(track) => y == Some(track.deep_view()),
                None => y is None,
            },
            (Command::ConfigureSubtitleTrack(_), _) => false,
            (Command::LoadUri(x), CommandView::LoadUri(y)) => x@ == y,
            (Command::LoadUri(_), _) => false,
            (Command::LoadPlaylist(x), CommandView::LoadPlaylist(y)) => x@.len() == y.len()
                && forall|i: int| 0 <= i < y.len() ==> #[trigger] y[i] == x@[i]@,
            (Command::LoadPlaylist(_), _) => false,
            (Command::SetWindowTitle(x), CommandView::SetWindowTitle(y)) => x@ == y,
            (Command::SetWindowTitle(_), _) => false,
            (Command::SetPositionRangeEnd(x), CommandView::SetPositionRangeEnd(y)) => x == y,
            (Command::SetPositionRangeEnd(_), _) => false,
            (Command::SetPositionRangeValue(x), CommandView::SetPositionRangeValue(y)) => x == y,
            (Command::SetPositionRangeValue(_), _) => false,
            (Command::ShowVolume(x), CommandView::ShowVolume(y)) => x == y,
            (Command::ShowVolume(_), _) => false,
            (Command::ShowPlaybackState(x), CommandView::ShowPlaybackState(y)) => x == y,
            (Command::ShowPlaybackState(_), _) => false,
            (Command::ResizeWindow(x, a), CommandView::ResizeWindow(y, b)) => x == y && a == b,
            (Command::ResizeWindow(..), _) => false,
            (Command::SetActionState(x, a), CommandView::SetActionState(y, b)) => x == y
                && a.deep_view() == b,
            (Command::SetActionState(..), _) => false,
            (Command::RequestActionState(x, a), CommandView::RequestActionState(y, b)) => x == y
                && a.deep_view() == b,
            (Command::RequestActionState(..), _) => false,
            (Command::SetActionEnabled(x, a), CommandView::SetActionEnabled(y, b)) => x == y && a
                == b,
            (Command::SetActionEnabled(..), _) => false,
            (Command::ClearMenu(x), CommandView::ClearMenu(y)) => x == y,
            (Command::ClearMenu(_), _) => false,
            (Command::AppendSection(x, a), CommandView::AppendSection(y, b)) => x == y && a@.len()
                == b.len() && forall|i: int| 0 <= i < b.len() ==> #[trigger] b[i] == a@[i].deep_view(),
            (Command::AppendSection(..), _) => false,
            (Command::FreezeMenu(x), CommandView::FreezeMenu(y)) => x == y,
            (Command::FreezeMenu(_), _) => false,
            (Command::FindSubtitleFile(x), CommandView::FindSubtitleFile(y)) => x@ == y,
            (Command::FindSubtitleFile(_), _) => false,
            (Command::Print(x), CommandView::Print(y)) => x@ == y,
            (Command::Print(_), _) => false,
            (Command::PrintError(x), CommandView::PrintError(y)) => x@ == y,
            (Command::PrintError(_), _) => false,
            _ => true,
        },
{
}

/// The view of a command that carries nothing is the command of that name.
pub proof fn law_plain_commands_are_viewed_as_themselves()
    ensures
        Command::IncreaseVolume.deep_view() is IncreaseVolume,
        Command::DecreaseVolume.deep_view() is DecreaseVolume,
        Command::EnterFullscreen.deep_view() is EnterFullscreen,
        Command::LeaveFullscreen.deep_view() is LeaveFullscreen,
        Command::StartWindow.deep_view() is StartWindow,
        Command::StopWindow.deep_view() is StopWindow,
        Command::StopPlayer.deep_view() is StopPlayer,
        Command::ReadMediaInfo.deep_view() is ReadMediaInfo,
        Command::ReadPosition.deep_view() is ReadPosition,
        Command::ReadSubtitleTracks.deep_view() is ReadSubtitleTracks,
        Command::ListVisualizations.deep_view() is ListVisualizations,
        Command::ChooseMedia.deep_view() is ChooseMedia,
        Command::ChooseSubtitleFile.deep_view() is ChooseSubtitleFile,
        Command::CheckUpdate.deep_view() is CheckUpdate,
        Command::DisplayAboutDialog.deep_view() is DisplayAboutDialog,
        Command::WriteLastKnownMediaPosition.deep_view() is WriteLastKnownMediaPosition,
        Command::ForwardPlayerEvents.deep_view() is ForwardPlayerEvents,
        Command::ShowVideoArea.deep_view() is ShowVideoArea,
        Command::ConnectProgressFormat.deep_view() is ConnectProgressFormat,
        Command::ConnectVolumeChanged.deep_view() is ConnectVolumeChanged,
        Command::ConnectPositionChanged.deep_view() is ConnectPositionChanged,
        Command::ConnectApplicationActivate.deep_view() is ConnectApplicationActivate,
        Command::ConnectApplicationOpen.deep_view() is ConnectApplicationOpen,
        Command::CreateWindow.deep_view() is CreateWindow,
        Command::CreateEventQueue.deep_view() is CreateEventQueue,
{
}

} // verus!
