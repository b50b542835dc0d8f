use glide::action::{Action, Signal, Variant};
use glide::clock::ClockTime;
use glide::command::{Command, Menu, MenuItem};
use glide::media::{
    AudioStream, AudioVisualization, Location, MediaInfo, PlaybackState, PlayerEvent,
    SeekDirection, SubtitleStream, SubtitleTrack, UIAction, VideoStream, Visualization, Volume,
};
use glide::menu::count_named_streams;
use glide::player::{fits_menus, forward_event, is_acceptable, title_window, VideoPlayer};
use glide::selection::select_track;

fn started() -> VideoPlayer {
    let (mut player, _) = VideoPlayer::new();
    player.start(false);
    player
}

fn text(s: &str) -> Option<Variant> {
    Some(Variant::Text(s.to_string()))
}

fn entry(label: &str, action: &str) -> MenuItem {
    MenuItem { label: label.to_string(), action: action.to_string() }
}

fn media() -> MediaInfo {
    MediaInfo {
        title: None,
        duration: ClockTime(Some(90_500_000_000)),
        subtitle_streams: vec![
            SubtitleStream { language: Some("en".to_string()), title: Some("Full".to_string()) },
            SubtitleStream { language: None, title: None },
            SubtitleStream { language: Some("fr".to_string()), title: None },
        ],
        audio_streams: vec![
            AudioStream { language: Some("en".to_string()), channels: 2 },
            AudioStream { language: None, channels: 6 },
            AudioStream { language: Some("de".to_string()), channels: 6 },
        ],
        video_streams: vec![VideoStream { width: 1920, height: 1080 }],
        number_of_video_streams: 1,
    }
}

fn flag(action: Action, state: bool) -> Command {
    Command::SetActionState(action, Variant::Boolean(state))
}

#[test]
fn a_new_player_sets_up_the_application() {
    let (player, commands) = VideoPlayer::new();
    assert!(!player.has_engine && !player.fullscreen && !player.paused && !player.muted);
    assert_eq!(commands.len(), 23);
    assert_eq!(commands[0], Command::RegisterAction(Action::Fullscreen));
    assert_eq!(commands[15], Command::Connect(Action::About, Signal::Activate));
    assert_eq!(commands[22], Command::CreateEventQueue);
}

#[test]
fn actions_are_registered_with_name_parameter_and_state() {
    assert_eq!(Action::VolumeIncrease.name(), "audio-volume-increase");
    assert_eq!(Action::OpenSubtitleFile.name(), "open-subtitle-file");
    assert!(Action::AudioTrack.has_text_parameter());
    assert!(!Action::Pause.has_text_parameter());
    assert_eq!(Action::Restore.first_state(), Some(Variant::Boolean(true)));
    assert_eq!(Action::Pause.first_state(), Some(Variant::Boolean(false)));
    assert_eq!(Action::OpenMedia.first_state(), None);
    assert_eq!(Action::Subtitle.first_state(), text(""));
    assert_eq!(Action::AudioTrack.first_state(), text("audio-0"));
    assert_eq!(Action::VideoTrack.first_state(), text("video-0"));
    assert_eq!(Action::AudioVisualization.first_state(), text("none"));
    assert_eq!(Action::AudioTrack.detailed("audio-3"), "app.audio-track::audio-3");
}

#[test]
fn every_action_is_registered_and_listened_to_once() {
    let (mut player, mut commands) = VideoPlayer::new();
    commands.append(&mut player.start(true));
    let all = [
        Action::Fullscreen, Action::Restore, Action::Pause, Action::SeekForward,
        Action::SeekBackward, Action::OpenMedia, Action::OpenSubtitleFile, Action::AudioMute,
        Action::VolumeIncrease, Action::VolumeDecrease, Action::DumpPipeline, Action::Subtitle,
        Action::AudioVisualization, Action::AudioTrack, Action::VideoTrack, Action::About,
        Action::Quit,
    ];
    for action in all {
        let registered =
            commands.iter().filter(|c| matches!(c, Command::RegisterAction(a) if *a == action));
        assert_eq!(registered.count(), 1);
        let connected =
            commands.iter().filter(|c| matches!(c, Command::Connect(a, _) if *a == action));
        assert_eq!(connected.count(), 1);
    }
}

#[test]
fn starting_creates_an_engine() {
    let (mut player, _) = VideoPlayer::new();
    let commands = player.start(false);
    assert!(player.has_engine);
    assert_eq!(commands[0], Command::CreatePlayer("media-cache.json".to_string()));
    assert_eq!(commands.len(), 22);
    assert_eq!(commands[commands.len() - 1], Command::StartWindow);
}

#[test]
fn only_a_self_updater_looks_for_a_release() {
    let (mut player, _) = VideoPlayer::new();
    assert!(!player.start(false).contains(&Command::CheckUpdate));
    let commands = player.start(true);
    assert_eq!(commands.len(), 23);
    assert_eq!(
        commands[20..],
        [Command::ConnectPositionChanged, Command::CheckUpdate, Command::StartWindow]
    );
}

#[test]
fn opening_files_activates_the_application() {
    let uris = vec![Some("a".to_string()), None, Some("b".to_string())];
    for self_updater in [false, true] {
        let (mut player, _) = VideoPlayer::new();
        let mut other = player;
        let mut expected = other.start(self_updater);
        expected.push(Command::LoadPlaylist(vec!["a".to_string(), "b".to_string()]));
        assert_eq!(player.files_opened(&uris, self_updater), expected);
        assert_eq!(player, other);
    }
}

#[test]
fn reports_are_forwarded_one_by_one() {
    assert_eq!(forward_event(None), None);
    for event in [PlayerEvent::Error, PlayerEvent::Other, PlayerEvent::PositionUpdated] {
        let action = forward_event(Some(event));
        assert_eq!(action, Some(UIAction::ForwardedPlayerEvent(event)));
        let (mut polled, mut dispatched) = (started(), started());
        assert_eq!(polled.ui_action_handle(&action).0, dispatched.dispatch_event(&event));
        assert_eq!(polled, dispatched);
    }
}

#[test]
fn quitting_leaves_fullscreen_mode() {
    let mut player = started();
    player.change_action_state(Action::Fullscreen, &None);
    assert_eq!(
        player.quit(),
        vec![
            Command::WriteLastKnownMediaPosition,
            Command::LeaveFullscreen,
            flag(Action::Fullscreen, false),
            Command::StopWindow,
        ]
    );
    assert!(!player.fullscreen);
    assert_eq!(player.leave_fullscreen(), vec![]);
    let (mut idle, _) = VideoPlayer::new();
    assert_eq!(idle.activate_action(Action::Quit), vec![Command::StopWindow]);
}

#[test]
fn toggles_are_undone_by_toggling_again() {
    let mut player = started();
    let before = player;
    assert_eq!(
        player.change_action_state(Action::Pause, &None),
        vec![Command::TogglePause(false), flag(Action::Pause, true)]
    );
    assert_eq!(
        player.change_action_state(Action::Pause, &None),
        vec![Command::TogglePause(true), flag(Action::Pause, false)]
    );
    assert_eq!(
        player.change_action_state(Action::AudioMute, &None),
        vec![Command::ToggleMute(true), flag(Action::AudioMute, true)]
    );
    assert_eq!(
        player.change_action_state(Action::AudioMute, &None),
        vec![Command::ToggleMute(false), flag(Action::AudioMute, false)]
    );
    assert_eq!(
        player.change_action_state(Action::Fullscreen, &None),
        vec![Command::EnterFullscreen, flag(Action::Fullscreen, true)]
    );
    assert_eq!(
        player.change_action_state(Action::Fullscreen, &None),
        vec![Command::LeaveFullscreen, flag(Action::Fullscreen, false)]
    );
    assert!(player == before);
    player.change_action_state(Action::Fullscreen, &None);
    assert_eq!(
        player.change_action_state(Action::Restore, &None),
        vec![Command::LeaveFullscreen, flag(Action::Fullscreen, false)]
    );
    assert_eq!(player.change_action_state(Action::Restore, &None), vec![]);
}

#[test]
fn without_an_engine_none_is_asked() {
    let (mut player, _) = VideoPlayer::new();
    assert_eq!(player.change_action_state(Action::Pause, &None), vec![flag(Action::Pause, true)]);
    assert_eq!(player.change_action_state(Action::AudioMute, &None), vec![]);
    assert!(!player.muted);
    assert_eq!(player.change_action_state(Action::SeekForward, &None), vec![]);
    assert_eq!(player.change_action_state(Action::AudioTrack, &text("audio-1")), vec![]);
    assert_eq!(player.change_action_state(Action::VideoTrack, &text("video-1")), vec![]);
    assert_eq!(player.change_action_state(Action::AudioVisualization, &text("x")), vec![]);
    assert_eq!(
        player.change_action_state(Action::Subtitle, &text("sub-1")),
        vec![Command::SetActionState(Action::Subtitle, Variant::Text("sub-1".to_string()))]
    );
    assert_eq!(player.activate_action(Action::DumpPipeline), vec![]);
    assert_eq!(player.dispatch_event(&PlayerEvent::MediaInfoUpdated), vec![]);
    assert_eq!(player.dispatch_event(&PlayerEvent::PositionUpdated), vec![]);
    assert_eq!(player.open_files(&vec![Some("a".to_string())]), vec![]);
    assert_eq!(player.media_chosen(Some("a".to_string())), vec![]);
    assert_eq!(player.subtitle_file_chosen(Some("a".to_string())), vec![]);
    assert_eq!(player.subtitle_file_found(Some("a".to_string())), vec![]);
    assert_eq!(player.media_info_updated(&Some(media()), &None), vec![]);
    assert_eq!(player.refresh_subtitle_track_menu(&Some(media()), &None), vec![]);
    assert_eq!(player.position_updated(ClockTime(Some(5))), vec![]);
    assert_eq!(player.set_volume(Volume { bits: 0 }), vec![]);
    assert_eq!(player.seek_to(5), vec![]);
}

#[test]
fn seeking_and_volume() {
    let mut player = started();
    assert_eq!(
        player.change_action_state(Action::SeekForward, &None),
        vec![Command::Seek(SeekDirection::Forward(ClockTime(Some(5_000_000_000))))]
    );
    assert_eq!(
        player.change_action_state(Action::SeekBackward, &None),
        vec![Command::Seek(SeekDirection::Backward(ClockTime(Some(2_000_000_000))))]
    );
    assert_eq!(
        player.change_action_state(Action::VolumeIncrease, &None),
        vec![Command::IncreaseVolume]
    );
    assert_eq!(
        player.change_action_state(Action::VolumeDecrease, &None),
        vec![Command::DecreaseVolume]
    );
    let half = Volume { bits: 0.5f64.to_bits() };
    assert_eq!(player.set_volume(half), vec![Command::SetVolume(half)]);
    assert_eq!(player.seek_to(7), vec![Command::SeekTo(ClockTime(Some(7_000_000_000)))]);
    assert_eq!(player.seek_to(u64::MAX), vec![Command::SeekTo(ClockTime(None))]);
}

#[test]
fn activated_actions() {
    let mut player = started();
    assert_eq!(
        player.activate_action(Action::DumpPipeline),
        vec![Command::DumpPipeline("glide".to_string())]
    );
    assert_eq!(player.activate_action(Action::OpenMedia), vec![Command::ChooseMedia]);
    assert_eq!(player.activate_action(Action::OpenSubtitleFile), vec![Command::ChooseSubtitleFile]);
    assert_eq!(player.activate_action(Action::About), vec![Command::DisplayAboutDialog]);
    assert_eq!(player.activate_action(Action::Pause), vec![]);
    assert_eq!(player.change_action_state(Action::Quit, &None), vec![]);
}

#[test]
fn reports_of_the_engine() {
    let mut player = started();
    assert_eq!(player.dispatch_event(&PlayerEvent::MediaInfoUpdated), vec![Command::ReadMediaInfo]);
    assert_eq!(player.dispatch_event(&PlayerEvent::PositionUpdated), vec![Command::ReadPosition]);
    assert_eq!(
        player.dispatch_event(&PlayerEvent::VideoDimensionsChanged(640, 480)),
        vec![Command::ResizeWindow(640, 480)]
    );
    assert_eq!(
        player.dispatch_event(&PlayerEvent::StateChanged(PlaybackState::Playing)),
        vec![Command::ShowPlaybackState(PlaybackState::Playing)]
    );
    let full = Volume { bits: 1.0f64.to_bits() };
    assert_eq!(
        player.dispatch_event(&PlayerEvent::VolumeChanged(full)),
        vec![Command::ShowVolume(full)]
    );
    assert_eq!(player.dispatch_event(&PlayerEvent::Other), vec![]);
    assert_eq!(
        player.dispatch_event(&PlayerEvent::Error),
        vec![
            Command::PrintError("Error!".to_string()),
            Command::WriteLastKnownMediaPosition,
            Command::StopWindow,
        ]
    );
}

#[test]
fn the_event_loop() {
    let mut player = started();
    assert_eq!(player.ui_action_handle(&None), (vec![], false));
    assert_eq!(
        player.ui_action_handle(&Some(UIAction::ForwardedPlayerEvent(
            PlayerEvent::PositionUpdated
        ))),
        (vec![Command::ReadPosition], false)
    );
    assert_eq!(
        player.ui_action_handle(&Some(UIAction::Quit)),
        (vec![Command::WriteLastKnownMediaPosition, Command::StopWindow], false)
    );
}

#[test]
fn selecting_subtitles() {
    let player = started();
    assert_eq!(
        player.update_subtitle_track(&text("sub-2")),
        vec![
            Command::ConfigureSubtitleTrack(Some(SubtitleTrack::Inband(2))),
            Command::SetActionState(Action::Subtitle, Variant::Text("sub-2".to_string())),
        ]
    );
    assert_eq!(
        player.update_subtitle_track(&text("none"))[0],
        Command::ConfigureSubtitleTrack(None)
    );
    assert_eq!(
        player.update_subtitle_track(&text("ext-file:///s.srt"))[0],
        Command::ConfigureSubtitleTrack(Some(SubtitleTrack::External("file:///s.srt".to_string())))
    );
    assert_eq!(player.update_subtitle_track(&None), vec![]);
    assert_eq!(
        player.update_subtitle_track(&Some(Variant::Other)),
        vec![Command::SetActionState(Action::Subtitle, Variant::Other)]
    );
}

#[test]
fn selecting_tracks_and_visualizations() {
    let mut player = started();
    assert_eq!(
        player.change_action_state(Action::AudioTrack, &text("audio-1")),
        vec![
            Command::SetAudioTrackIndex(1),
            Command::SetActionState(Action::AudioTrack, Variant::Text("audio-1".to_string())),
        ]
    );
    assert_eq!(
        player.change_action_state(Action::VideoTrack, &text("video--1")),
        vec![
            Command::SetVideoTrackIndex(-1),
            Command::SetActionState(Action::VideoTrack, Variant::Text("video--1".to_string())),
        ]
    );
    assert_eq!(
        player.change_action_state(Action::AudioVisualization, &text("goom")),
        vec![
            Command::SetAudioVisualization(Some(AudioVisualization("goom".to_string()))),
            Command::SetActionState(Action::AudioVisualization, Variant::Text("goom".to_string())),
        ]
    );
    assert_eq!(
        player.change_action_state(Action::AudioVisualization, &text("none"))[0],
        Command::SetAudioVisualization(None)
    );
    assert_eq!(player.change_action_state(Action::AudioTrack, &Some(Variant::Other)), vec![]);
    assert_eq!(player.change_action_state(Action::AudioTrack, &None), vec![]);
}

#[test]
fn texts_that_actions_cannot_take() {
    assert!(is_acceptable(Action::Subtitle, &text("none")));
    assert!(!is_acceptable(Action::Subtitle, &text("")));
    assert!(!is_acceptable(Action::Subtitle, &text("sub-x")));
    assert!(is_acceptable(Action::AudioTrack, &text("audio-0")));
    assert!(!is_acceptable(Action::AudioTrack, &text("audio")));
    assert!(!is_acceptable(Action::VideoTrack, &text("video-x")));
    assert!(is_acceptable(Action::AudioVisualization, &text("")));
    assert!(is_acceptable(Action::Subtitle, &None));
    assert!(is_acceptable(Action::Subtitle, &Some(Variant::Boolean(true))));
}

#[test]
fn new_media_information() {
    let player = started();
    let location = Location {
        uri: "file:///dir/film.mkv".to_string(),
        path: Some(b"/dir/film.mkv".to_vec()),
    };
    assert_eq!(
        player.media_info_updated(&Some(media()), &Some(location)),
        vec![
            Command::SetWindowTitle("/dir/film.mkv".to_string()),
            Command::SetPositionRangeEnd(90),
            Command::FindSubtitleFile(b"/dir/film.srt".to_vec()),
            Command::ReadSubtitleTracks,
            Command::ClearMenu(Menu::AudioTrack),
            Command::AppendSection(
                Menu::AudioTrack,
                vec![
                    entry("Disable", "app.audio-track::audio--1"),
                    entry("en 2 channels", "app.audio-track::audio-0"),
                    entry("de 6 channels", "app.audio-track::audio-1"),
                ]
            ),
            Command::ClearMenu(Menu::VideoTrack),
            Command::AppendSection(
                Menu::VideoTrack,
                vec![
                    entry("Disable", "app.video-track::video--1"),
                    entry("1920x1080", "app.video-track::video-0"),
                ]
            ),
            Command::ClearMenu(Menu::AudioVisualization),
            Command::SetActionEnabled(Action::AudioVisualization, false),
        ]
    );
    assert_eq!(player.media_info_updated(&None, &None), vec![]);
}

#[test]
fn media_without_video_offers_visualizations_once() {
    let mut player = started();
    let info = || {
        let mut info = media();
        info.video_streams = vec![];
        info.number_of_video_streams = 0;
        info
    };
    let commands = player.media_info_updated(&Some(info()), &None);
    assert_eq!(commands[0], Command::ReadSubtitleTracks);
    assert_eq!(commands[5], Command::ListVisualizations);
    assert_eq!(commands[6], Command::SetActionEnabled(Action::AudioVisualization, true));
    let listed =
        vec![Visualization { name: "goom".to_string(), description: "Goom!".to_string() }];
    assert_eq!(
        player.fill_audio_visualization_menu(&listed),
        vec![
            Command::AppendSection(
                Menu::AudioVisualization,
                vec![
                    entry("Disable", "app.audio-visualization::none"),
                    entry("Goom!", "app.audio-visualization::goom"),
                ]
            ),
            Command::FreezeMenu(Menu::AudioVisualization),
        ]
    );
    assert_eq!(player.fill_audio_visualization_menu(&listed), vec![]);
    let again = player.media_info_updated(&Some(info()), &None);
    assert!(!again.contains(&Command::ListVisualizations));
    assert_eq!(again[5], Command::SetActionEnabled(Action::AudioVisualization, true));
}

#[test]
fn window_titles() {
    let titled = Some("Film".to_string());
    let uri = "http://host/film".to_string();
    assert_eq!(title_window(&titled, Some("/film".to_string()), &uri), "Film");
    assert_eq!(title_window(&None, Some("/film".to_string()), &uri), "/film");
    assert_eq!(title_window(&None, None, &uri), "http://host/film");
    let player = started();
    let plain = Location {
        uri: "file:///%C3%A9.mkv".to_string(),
        path: Some("/\u{e9}.mkv".as_bytes().to_vec()),
    };
    let commands = player.media_info_updated(&Some(media()), &Some(plain));
    assert_eq!(commands[0], Command::SetWindowTitle("/\u{e9}.mkv".to_string()));
    let odd = Location { uri: "file:///%FF".to_string(), path: Some(b"/\xff.mkv".to_vec()) };
    let commands = player.media_info_updated(&Some(media()), &Some(odd));
    assert_eq!(commands[0], Command::SetWindowTitle("/\u{fffd}.mkv".to_string()));
    assert_eq!(commands[2], Command::FindSubtitleFile(b"/\xff.srt".to_vec()));
    let remote = Location { uri: "http://host/film".to_string(), path: None };
    let mut info = media();
    info.duration = ClockTime(None);
    assert_eq!(
        player.media_info_updated(&Some(info), &Some(remote))[..2],
        [
            Command::SetWindowTitle("http://host/film".to_string()),
            Command::ReadSubtitleTracks,
        ]
    );
}

#[test]
fn the_subtitle_menu() {
    let mut player = started();
    let file = Location {
        uri: "file:///dir/film.srt".to_string(),
        path: Some(b"/dir/film.srt".to_vec()),
    };
    let commands = player.refresh_subtitle_track_menu(&Some(media()), &Some(file));
    assert_eq!(
        commands,
        vec![
            Command::ClearMenu(Menu::SubtitleTrack),
            Command::AppendSection(
                Menu::SubtitleTrack,
                vec![
                    entry("Disable", "app.subtitle::none"),
                    entry("Full - [en]", "app.subtitle::sub-0"),
                    entry("Track 2", "app.subtitle::sub-1"),
                    entry("Track 3 - [fr]", "app.subtitle::sub-2"),
                    entry("film.srt", "app.subtitle::ext-file:///dir/film.srt"),
                ]
            ),
            Command::RequestActionState(
                Action::Subtitle,
                Variant::Text("ext-file:///dir/film.srt".to_string())
            ),
        ]
    );
    let requested = text("ext-file:///dir/film.srt");
    assert!(is_acceptable(Action::Subtitle, &requested));
    assert_eq!(
        player.change_action_state(Action::Subtitle, &requested)[0],
        Command::ConfigureSubtitleTrack(Some(SubtitleTrack::External(
            "file:///dir/film.srt".to_string()
        )))
    );
}

#[test]
fn subtitle_files_without_a_name_are_not_listed() {
    let player = started();
    let unnamed = [
        Location { uri: "http://host/s".to_string(), path: None },
        Location { uri: "file:///".to_string(), path: Some(b"/".to_vec()) },
        Location { uri: "file:///%FF.srt".to_string(), path: Some(b"/\xff.srt".to_vec()) },
    ];
    for file in unnamed {
        assert_eq!(
            player.refresh_subtitle_track_menu(&None, &Some(file)),
            vec![
                Command::ClearMenu(Menu::SubtitleTrack),
                Command::AppendSection(Menu::SubtitleTrack, vec![]),
                Command::RequestActionState(Action::Subtitle, Variant::Text("none".to_string())),
            ]
        );
    }
    let named = Location { uri: "u".to_string(), path: Some("/\u{e9}.srt".as_bytes().to_vec()) };
    assert_eq!(
        player.refresh_subtitle_track_menu(&None, &Some(named))[1],
        Command::AppendSection(
            Menu::SubtitleTrack,
            vec![entry("\u{e9}.srt", "app.subtitle::ext-u")]
        )
    );
}

#[test]
fn chosen_and_opened_files() {
    let player = started();
    assert_eq!(
        player.media_chosen(Some("file:///a".to_string())),
        vec![
            Command::Print("loading file:///a".to_string()),
            Command::StopPlayer,
            Command::LoadUri("file:///a".to_string()),
        ]
    );
    assert_eq!(player.media_chosen(None), vec![]);
    assert_eq!(
        player.subtitle_file_chosen(Some("file:///s".to_string())),
        vec![
            Command::ConfigureSubtitleTrack(Some(SubtitleTrack::External("file:///s".to_string()))),
            Command::ReadSubtitleTracks,
        ]
    );
    assert_eq!(player.subtitle_file_chosen(None), vec![Command::ReadSubtitleTracks]);
    assert_eq!(
        player.subtitle_file_found(Some("file:///s".to_string())),
        vec![Command::ConfigureSubtitleTrack(Some(SubtitleTrack::External(
            "file:///s".to_string()
        )))]
    );
    assert_eq!(player.subtitle_file_found(None), vec![]);
    assert_eq!(
        player.open_files(&vec![Some("a".to_string()), None, Some("b".to_string())]),
        vec![Command::LoadPlaylist(vec!["a".to_string(), "b".to_string()])]
    );
    assert_eq!(player.open_files(&vec![]), vec![Command::LoadPlaylist(vec![])]);
}

#[test]
fn positions() {
    let player = started();
    assert_eq!(
        player.position_updated(ClockTime(Some(12_345_678_901))),
        vec![Command::SetPositionRangeValue(12)]
    );
    assert_eq!(player.position_updated(ClockTime(None)), vec![]);
}

#[test]
fn the_position_asked_for_is_shown() {
    let player = started();
    for seconds in [0u64, 1, 59, 3600, 18_446_744_073] {
        let commands = player.seek_to(seconds);
        let time = match commands.as_slice() {
            [Command::SeekTo(time)] => *time,
            other => panic!("{:?}", other),
        };
        assert_eq!(
            player.position_updated(time),
            vec![Command::SetPositionRangeValue(seconds)]
        );
    }
    assert_eq!(player.seek_to(18_446_744_074), vec![Command::SeekTo(ClockTime(None))]);
}

#[test]
fn the_first_tracks_are_selected_at_first() {
    for action in [Action::AudioTrack, Action::VideoTrack] {
        match action.first_state() {
            Some(Variant::Text(target)) => assert_eq!(select_track(&target), Some(0)),
            other => panic!("{:?}", other),
        }
    }
}

#[test]
fn only_named_audio_streams_are_counted() {
    assert_eq!(count_named_streams(&media().audio_streams), 2);
    assert_eq!(count_named_streams(&vec![]), 0);
    assert!(fits_menus(&media()));
}
