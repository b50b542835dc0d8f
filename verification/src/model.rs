//! What the player does about requests of the user and reports of the media engine, as sequences
//! of commands.

use vstd::prelude::*;
use vstd::utf8::*;

use crate::action::{Action, Signal, VariantView};
use crate::clock;
use crate::clock::ClockTime;
use crate::command::{CommandView, Menu, MenuItemView};
use crate::media::{
    LocationView, MediaInfoView, PlayerEvent, SeekDirection, SubtitleTrackView, UIAction,
    VisualizationView, Volume,
};
use crate::menu;
use crate::path;
use crate::player::VideoPlayer;
use crate::selection;
use crate::text;

verus! {

/// `commands` under a condition, and nothing otherwise.
pub open spec fn when(condition: bool, commands: Seq<CommandView>) -> Seq<CommandView> {
    if condition {
        commands
    } else {
        seq![]
    }
}

/// A new player: without a media engine, in a window, neither paused nor muted.
pub open spec fn initial_player() -> VideoPlayer {
    VideoPlayer {
        has_engine: false,
        fullscreen: false,
        paused: false,
        muted: false,
        visualizations_frozen: false,
    }
}

/// The player after the application is activated.
pub open spec fn started(player: VideoPlayer) -> VideoPlayer {
    VideoPlayer { has_engine: true, ..player }
}

/// How the application is set up around a new player.
pub open spec fn setup_commands() -> Seq<CommandView> {
    seq![
        CommandView::RegisterAction(Action::Fullscreen),
        CommandView::RegisterAction(Action::Restore),
        CommandView::RegisterAction(Action::Pause),
        CommandView::RegisterAction(Action::SeekForward),
        CommandView::RegisterAction(Action::SeekBackward),
        CommandView::RegisterAction(Action::OpenMedia),
        CommandView::RegisterAction(Action::OpenSubtitleFile),
        CommandView::RegisterAction(Action::AudioMute),
        CommandView::RegisterAction(Action::VolumeIncrease),
        CommandView::RegisterAction(Action::VolumeDecrease),
        CommandView::RegisterAction(Action::DumpPipeline),
        CommandView::RegisterAction(Action::Subtitle),
        CommandView::RegisterAction(Action::AudioVisualization),
        CommandView::RegisterAction(Action::AudioTrack),
        CommandView::RegisterAction(Action::VideoTrack),
        CommandView::Connect(Action::About, Signal::Activate),
        CommandView::RegisterAction(Action::About),
        CommandView::ConnectApplicationActivate,
        CommandView::Connect(Action::Quit, Signal::Activate),
        CommandView::RegisterAction(Action::Quit),
        CommandView::ConnectApplicationOpen,
        CommandView::CreateWindow,
        CommandView::CreateEventQueue,
    ]
}

/// What happens when the application is activated. Only a program that updates itself looks for a
/// newer release.
pub open spec fn start_commands(self_updater: bool) -> Seq<CommandView> {
    seq![
        CommandView::CreatePlayer("media-cache.json"@),
        CommandView::ForwardPlayerEvents,
        CommandView::Connect(Action::Pause, Signal::ChangeState),
        CommandView::Connect(Action::DumpPipeline, Signal::Activate),
        CommandView::Connect(Action::SeekForward, Signal::ChangeState),
        CommandView::Connect(Action::SeekBackward, Signal::ChangeState),
        CommandView::Connect(Action::VolumeDecrease, Signal::ChangeState),
        CommandView::Connect(Action::VolumeIncrease, Signal::ChangeState),
        CommandView::Connect(Action::AudioMute, Signal::ChangeState),
        CommandView::Connect(Action::Fullscreen, Signal::ChangeState),
        CommandView::Connect(Action::Restore, Signal::ChangeState),
        CommandView::Connect(Action::Subtitle, Signal::ChangeState),
        CommandView::Connect(Action::AudioVisualization, Signal::ChangeState),
        CommandView::Connect(Action::AudioTrack, Signal::ChangeState),
        CommandView::Connect(Action::VideoTrack, Signal::ChangeState),
        CommandView::Connect(Action::OpenMedia, Signal::Activate),
        CommandView::Connect(Action::OpenSubtitleFile, Signal::Activate),
        CommandView::ShowVideoArea,
        CommandView::ConnectProgressFormat,
        CommandView::ConnectVolumeChanged,
        CommandView::ConnectPositionChanged,
    ] + when(self_updater, seq![CommandView::CheckUpdate]) + seq![CommandView::StartWindow]
}

/// The state of a two-valued action is to be stored.
pub open spec fn set_flag(action: Action, state: bool) -> CommandView {
    CommandView::SetActionState(action, VariantView::Boolean(state))
}

/// Leaving fullscreen mode: nothing to do outside of it.
pub open spec fn leave_fullscreen_commands(player: VideoPlayer) -> Seq<CommandView> {
    when(
        player.fullscreen,
        seq![CommandView::LeaveFullscreen, set_flag(Action::Fullscreen, false)],
    )
}

/// Quitting: the position is kept, the screen is given back, the window goes.
pub open spec fn quit_commands(player: VideoPlayer) -> Seq<CommandView> {
    when(player.has_engine, seq![CommandView::WriteLastKnownMediaPosition])
        + leave_fullscreen_commands(player) + seq![CommandView::StopWindow]
}

/// The commands that select the subtitles that `value` stands for.
pub open spec fn subtitle_commands(
    player: VideoPlayer,
    value: Option<VariantView>,
) -> Seq<CommandView> {
    match value {
        Some(VariantView::Text(target)) => when(
            player.has_engine,
            seq![CommandView::ConfigureSubtitleTrack(selection::subtitle_selection(target)->0)],
        ) + seq![CommandView::SetActionState(Action::Subtitle, VariantView::Text(target))],
        Some(other) => seq![CommandView::SetActionState(Action::Subtitle, other)],
        None => seq![],
    }
}

/// The commands that select the visualization that `value` names.
pub open spec fn visualization_commands(
    player: VideoPlayer,
    value: Option<VariantView>,
) -> Seq<CommandView> {
    match value {
        Some(VariantView::Text(name)) => when(
            player.has_engine,
            seq![
                CommandView::SetAudioVisualization(
                    if name == "none"@ {
                        None
                    } else {
                        Some(name)
                    },
                ),
                CommandView::SetActionState(Action::AudioVisualization, VariantView::Text(name)),
            ],
        ),
        _ => seq![],
    }
}

/// The commands that select the audio track that `value` stands for.
pub open spec fn audio_track_commands(
    player: VideoPlayer,
    value: Option<VariantView>,
) -> Seq<CommandView> {
    match value {
        Some(VariantView::Text(target)) => when(
            player.has_engine,
            seq![
                CommandView::SetAudioTrackIndex(selection::track_selection(target)->0),
                CommandView::SetActionState(Action::AudioTrack, VariantView::Text(target)),
            ],
        ),
        _ => seq![],
    }
}

/// The commands that select the video track that `value` stands for.
pub open spec fn video_track_commands(
    player: VideoPlayer,
    value: Option<VariantView>,
) -> Seq<CommandView> {
    match value {
        Some(VariantView::Text(target)) => when(
            player.has_engine,
            seq![
                CommandView::SetVideoTrackIndex(selection::track_selection(target)->0),
                CommandView::SetActionState(Action::VideoTrack, VariantView::Text(target)),
            ],
        ),
        _ => seq![],
    }
}

/// A text that an action is asked to take has to stand for something that it can select.
pub open spec fn acceptable(action: Action, value: Option<VariantView>) -> bool {
    match value {
        Some(VariantView::Text(target)) => match action {
            Action::Subtitle => selection::subtitle_selection(target) is Some,
            Action::AudioTrack | Action::VideoTrack => selection::track_selection(target) is Some,
            _ => true,
        },
        _ => true,
    }
}

/// The player after an action was asked to change its state.
pub open spec fn changed(player: VideoPlayer, action: Action) -> VideoPlayer {
    match action {
        Action::Pause => VideoPlayer { paused: !player.paused, ..player },
        Action::AudioMute => if player.has_engine {
            VideoPlayer { muted: !player.muted, ..player }
        } else {
            player
        },
        Action::Fullscreen => VideoPlayer { fullscreen: !player.fullscreen, ..player },
        Action::Restore => VideoPlayer { fullscreen: false, ..player },
        _ => player,
    }
}

/// What is done when an action is asked to change its state to `value`.
pub open spec fn change_commands(
    player: VideoPlayer,
    action: Action,
    value: Option<VariantView>,
) -> Seq<CommandView> {
    match action {
        Action::Pause => when(
            player.has_engine,
            seq![CommandView::TogglePause(player.paused)],
        ) + seq![set_flag(Action::Pause, !player.paused)],
        Action::SeekForward => when(
            player.has_engine,
            seq![
                CommandView::Seek(
                    SeekDirection::Forward(ClockTime(Some(clock::SEEK_FORWARD_OFFSET))),
                ),
            ],
        ),
        Action::SeekBackward => when(
            player.has_engine,
            seq![
                CommandView::Seek(
                    SeekDirection::Backward(ClockTime(Some(clock::SEEK_BACKWARD_OFFSET))),
                ),
            ],
        ),
        Action::VolumeDecrease => when(player.has_engine, seq![CommandView::DecreaseVolume]),
        Action::VolumeIncrease => when(player.has_engine, seq![CommandView::IncreaseVolume]),
        Action::AudioMute => when(
            player.has_engine,
            seq![CommandView::ToggleMute(!player.muted), set_flag(Action::AudioMute, !player.muted)],
        ),
        Action::Fullscreen => seq![
            if player.fullscreen {
                CommandView::LeaveFullscreen
            } else {
                CommandView::EnterFullscreen
            },
            set_flag(Action::Fullscreen, !player.fullscreen),
        ],
        Action::Restore => leave_fullscreen_commands(player),
        Action::Subtitle => subtitle_commands(player, value),
        Action::AudioVisualization => visualization_commands(player, value),
        Action::AudioTrack => audio_track_commands(player, value),
        Action::VideoTrack => video_track_commands(player, value),
        _ => seq![],
    }
}

/// The player after an action was triggered.
pub open spec fn activated(player: VideoPlayer, action: Action) -> VideoPlayer {
    match action {
        Action::Quit => VideoPlayer { fullscreen: false, ..player },
        _ => player,
    }
}

/// What is done when an action is triggered.
pub open spec fn activate_commands(player: VideoPlayer, action: Action) -> Seq<CommandView> {
    match action {
        Action::DumpPipeline => when(
            player.has_engine,
            seq![CommandView::DumpPipeline("glide"@)],
        ),
        Action::OpenMedia => when(player.has_engine, seq![CommandView::ChooseMedia]),
        Action::OpenSubtitleFile => when(player.has_engine, seq![CommandView::ChooseSubtitleFile]),
        Action::About => seq![CommandView::DisplayAboutDialog],
        Action::Quit => quit_commands(player),
        _ => seq![],
    }
}

/// The player after a report of the media engine.
pub open spec fn reported(player: VideoPlayer, event: PlayerEvent) -> VideoPlayer {
    match event {
        PlayerEvent::Error => VideoPlayer { fullscreen: false, ..player },
        _ => player,
    }
}

/// What is done about a report of the media engine.
pub open spec fn report_commands(player: VideoPlayer, event: PlayerEvent) -> Seq<CommandView> {
    match event {
        PlayerEvent::MediaInfoUpdated => when(player.has_engine, seq![CommandView::ReadMediaInfo]),
        PlayerEvent::PositionUpdated => when(player.has_engine, seq![CommandView::ReadPosition]),
        PlayerEvent::VideoDimensionsChanged(width, height) => seq![
            CommandView::ResizeWindow(width, height),
        ],
        PlayerEvent::StateChanged(state) => seq![CommandView::ShowPlaybackState(state)],
        PlayerEvent::VolumeChanged(volume) => seq![CommandView::ShowVolume(volume)],
        PlayerEvent::Error => seq![CommandView::PrintError("Error!"@)] + quit_commands(player),
        PlayerEvent::Other => seq![],
    }
}

/// The title of the window: that of the media, or the path of its file, or its URI.
pub open spec fn window_title(
    title: Option<Seq<char>>,
    file: Option<Seq<char>>,
    uri: Seq<char>,
) -> Seq<char> {
    match (title, file) {
        (Some(title), _) => title,
        (None, Some(file)) => file,
        (None, None) => uri,
    }
}

/// The path of `location` as text: the text that it encodes, or as much as can be read of it.
pub open spec fn location_text(location: LocationView) -> Option<Seq<char>> {
    match location.path {
        Some(path) => Some(
            if valid_utf8(path) {
                decode_utf8(path)
            } else {
                text::lossy_text(path)
            },
        ),
        None => None,
    }
}

/// What the window shows about the media, and the search for a subtitle file beside it.
pub open spec fn presentation_commands(
    info: MediaInfoView,
    location: LocationView,
) -> Seq<CommandView> {
    seq![
        CommandView::SetWindowTitle(
            window_title(info.title, location_text(location), location.uri),
        ),
    ] + (match clock::clock_seconds(info.duration) {
        Some(seconds) => seq![CommandView::SetPositionRangeEnd(seconds)],
        None => seq![],
    }) + (match location.path {
        Some(path) => seq![
            CommandView::FindSubtitleFile(
                path::path_with_extension(path, encode_utf8("srt"@)),
            ),
        ],
        None => seq![],
    })
}

/// The streams that the track menus list can be numbered with 32 bits.
pub open spec fn fits_menus(info: MediaInfoView) -> bool {
    &&& menu::named_streams(info.audio_streams).len() <= i32::MAX
    &&& info.video_streams.len() <= i32::MAX
    &&& info.subtitle_streams.len() <= i32::MAX
}

/// A menu gets new entries in place of its old ones.
pub open spec fn replace_menu(
    menu: Menu,
    items: Seq<MenuItemView>,
) -> Seq<CommandView> {
    seq![CommandView::ClearMenu(menu), CommandView::AppendSection(menu, items)]
}

/// Visualizations are on offer where there is no video to show.
pub open spec fn visualization_offer(player: VideoPlayer, info: MediaInfoView) -> Seq<CommandView> {
    if info.number_of_video_streams == 0 {
        when(!player.visualizations_frozen, seq![CommandView::ListVisualizations]) + seq![
            CommandView::SetActionEnabled(Action::AudioVisualization, true),
        ]
    } else {
        seq![
            CommandView::ClearMenu(Menu::AudioVisualization),
            CommandView::SetActionEnabled(Action::AudioVisualization, false),
        ]
    }
}

/// What is done about new information on the media.
pub open spec fn media_info_commands(
    player: VideoPlayer,
    info: Option<MediaInfoView>,
    location: Option<LocationView>,
) -> Seq<CommandView> {
    match info {
        Some(info) if player.has_engine => (match location {
            Some(location) => presentation_commands(info, location),
            None => seq![],
        }) + seq![CommandView::ReadSubtitleTracks] + replace_menu(
            Menu::AudioTrack,
            menu::audio_menu(info.audio_streams),
        ) + replace_menu(Menu::VideoTrack, menu::video_menu(info.video_streams))
            + visualization_offer(player, info),
        _ => seq![],
    }
}

/// The subtitle menu is built anew, and the entry in use is selected.
pub open spec fn subtitle_menu_commands(
    player: VideoPlayer,
    info: Option<MediaInfoView>,
    file: Option<LocationView>,
) -> Seq<CommandView> {
    when(
        player.has_engine,
        replace_menu(Menu::SubtitleTrack, menu::subtitle_menu(info, file)) + seq![
            CommandView::RequestActionState(
                Action::Subtitle,
                VariantView::Text(menu::selected_subtitle(file)),
            ),
        ],
    )
}

/// The URIs that are known, in order.
pub open spec fn known_uris(uris: Seq<Option<Seq<char>>>) -> Seq<Seq<char>> {
    uris.filter(|uri: Option<Seq<char>>| uri is Some).map_values(|uri: Option<Seq<char>>| uri->0)
}

/// What is done about the files that the user opens.
pub open spec fn open_commands(
    player: VideoPlayer,
    uris: Seq<Option<Seq<char>>>,
) -> Seq<CommandView> {
    when(player.has_engine, seq![CommandView::LoadPlaylist(known_uris(uris))])
}

/// What is done when the application is asked to open files: it is activated first.
pub open spec fn files_opened_commands(
    player: VideoPlayer,
    self_updater: bool,
    uris: Seq<Option<Seq<char>>>,
) -> Seq<CommandView> {
    start_commands(self_updater) + open_commands(started(player), uris)
}

/// What is done about the volume that the user sets.
pub open spec fn volume_commands(player: VideoPlayer, volume: Volume) -> Seq<CommandView> {
    when(player.has_engine, seq![CommandView::SetVolume(volume)])
}

/// What is done about the position that the user sets, in seconds.
pub open spec fn seek_commands(player: VideoPlayer, seconds: u64) -> Seq<CommandView> {
    when(player.has_engine, seq![CommandView::SeekTo(clock::clock_from_seconds(seconds))])
}

/// What is done about the media that the user chose, if any.
pub open spec fn media_chosen_commands(
    player: VideoPlayer,
    uri: Option<Seq<char>>,
) -> Seq<CommandView> {
    match uri {
        Some(uri) => when(
            player.has_engine,
            seq![
                CommandView::Print("loading "@ + uri),
                CommandView::StopPlayer,
                CommandView::LoadUri(uri),
            ],
        ),
        None => seq![],
    }
}

/// The subtitles come from a file.
pub open spec fn use_subtitle_file(uri: Seq<char>) -> CommandView {
    CommandView::ConfigureSubtitleTrack(Some(SubtitleTrackView::External(uri)))
}

/// What is done about the subtitle file that the user chose, if any.
pub open spec fn subtitle_file_chosen_commands(
    player: VideoPlayer,
    uri: Option<Seq<char>>,
) -> Seq<CommandView> {
    when(
        player.has_engine,
        (match uri {
            Some(uri) => seq![use_subtitle_file(uri)],
            None => seq![],
        }) + seq![CommandView::ReadSubtitleTracks],
    )
}

/// What is done about a subtitle file beside the media, if there is one.
pub open spec fn subtitle_file_found_commands(
    player: VideoPlayer,
    uri: Option<Seq<char>>,
) -> Seq<CommandView> {
    match uri {
        Some(uri) => when(player.has_engine, seq![use_subtitle_file(uri)]),
        None => seq![],
    }
}

/// What is done about the position that the media engine gives.
pub open spec fn position_commands(player: VideoPlayer, position: ClockTime) -> Seq<CommandView> {
    match clock::clock_seconds(position) {
        Some(seconds) => when(
            player.has_engine,
            seq![CommandView::SetPositionRangeValue(seconds)],
        ),
        None => seq![],
    }
}

/// The player after the visualization menu was filled.
pub open spec fn visualizations_filled(player: VideoPlayer) -> VideoPlayer {
    VideoPlayer { visualizations_frozen: true, ..player }
}

/// The visualization menu is filled once, and takes no changes afterwards.
pub open spec fn fill_visualizations_commands(
    player: VideoPlayer,
    visualizations: Seq<VisualizationView>,
) -> Seq<CommandView> {
    when(
        !player.visualizations_frozen,
        seq![
            CommandView::AppendSection(
                Menu::AudioVisualization,
                menu::visualization_menu(visualizations),
            ),
            CommandView::FreezeMenu(Menu::AudioVisualization),
        ],
    )
}

/// What a report of the media engine, if there is one, puts into the queue of the event loop.
pub open spec fn forwarded(event: Option<PlayerEvent>) -> Option<UIAction> {
    match event {
        Some(event) => Some(UIAction::ForwardedPlayerEvent(event)),
        None => None,
    }
}

/// The player after the event loop took one action from the queue.
pub open spec fn polled(player: VideoPlayer, action: Option<UIAction>) -> VideoPlayer {
    match action {
        Some(UIAction::Quit) => activated(player, Action::Quit),
        Some(UIAction::ForwardedPlayerEvent(event)) => reported(player, event),
        None => player,
    }
}

/// What is done about the action that the event loop took from the queue, if any.
pub open spec fn poll_commands(player: VideoPlayer, action: Option<UIAction>) -> Seq<CommandView> {
    match action {
        Some(UIAction::Quit) => quit_commands(player),
        Some(UIAction::ForwardedPlayerEvent(event)) => report_commands(player, event),
        None => seq![],
    }
}

} // verus!
