//! The video player: what it does about requests of the user and reports of the media engine.

use vstd::prelude::*;

use crate::action::{Action, Signal, Variant};
use crate::clock;
use crate::clock::ClockTime;
use crate::command::{Command, CommandView, Menu, MenuItem};
use crate::media::{
    AudioVisualization, Location, MediaInfo, PlaybackState, PlayerEvent, SeekDirection,
    SubtitleTrack, UIAction, Visualization, Volume,
};
use crate::menu;
use crate::model;
use crate::path;
use crate::selection;
use crate::text;

verus! {

/// The state of the player that its decisions depend on.
#[derive(Clone, Copy, Debug, PartialEq, Eq, Structural)]
pub struct VideoPlayer {
    /// A media engine has been created.
    pub has_engine: bool,
    /// The window fills the screen.
    pub fullscreen: bool,
    /// Playback is paused.
    pub paused: bool,
    /// The sound is off.
    pub muted: bool,
    /// The visualization menu has been filled and takes no more changes.
    pub visualizations_frozen: bool,
}

impl VideoPlayer {
    /// A player without a media engine, and the steps that set up the application around it.
    pub fn new() -> (r: (VideoPlayer, Vec<Command>))
        ensures
            r.0 == model::initial_player(),
            r.1.deep_view() == model::setup_commands(),
    {
        let player = VideoPlayer {
            has_engine: false,
            fullscreen: false,
            paused: false,
            muted: false,
            visualizations_frozen: false,
        };
        let commands = vec![
            Command::RegisterAction(Action::Fullscreen),
            Command::RegisterAction(Action::Restore),
            Command::RegisterAction(Action::Pause),
            Command::RegisterAction(Action::SeekForward),
            Command::RegisterAction(Action::SeekBackward),
            Command::RegisterAction(Action::OpenMedia),
            Command::RegisterAction(Action::OpenSubtitleFile),
            Command::RegisterAction(Action::AudioMute),
            Command::RegisterAction(Action::VolumeIncrease),
            Command::RegisterAction(Action::VolumeDecrease),
            Command::RegisterAction(Action::DumpPipeline),
            Command::RegisterAction(Action::Subtitle),
            Command::RegisterAction(Action::AudioVisualization),
            Command::RegisterAction(Action::AudioTrack),
            Command::RegisterAction(Action::VideoTrack),
            Command::Connect(Action::About, Signal::Activate),
            Command::RegisterAction(Action::About),
            Command::ConnectApplicationActivate,
            Command::Connect(Action::Quit, Signal::Activate),
            Command::RegisterAction(Action::Quit),
            Command::ConnectApplicationOpen,
            Command::CreateWindow,
            Command::CreateEventQueue,
        ];
        assert(commands.deep_view() =~= model::setup_commands());
        (player, commands)
    }

    /// The application is activated: a media engine is created, and what the user asks for is
    /// listened to from now on. `self_updater` says whether the program updates itself.
    pub fn start(&mut self, self_updater: bool) -> (commands: Vec<Command>)
        ensures
            *final(self) == model::started(*old(self)),
            commands.deep_view() == model::start_commands(self_updater),
    {
        self.has_engine = true;
        let mut commands = vec![
            Command::CreatePlayer("media-cache.json".to_owned()),
            Command::ForwardPlayerEvents,
            Command::Connect(Action::Pause, Signal::ChangeState),
            Command::Connect(Action::DumpPipeline, Signal::Activate),
            Command::Connect(Action::SeekForward, Signal::ChangeState),
            Command::Connect(Action::SeekBackward, Signal::ChangeState),
            Command::Connect(Action::VolumeDecrease, Signal::ChangeState),
            Command::Connect(Action::VolumeIncrease, Signal::ChangeState),
            Command::Connect(Action::AudioMute, Signal::ChangeState),
            Command::Connect(Action::Fullscreen, Signal::ChangeState),
            Command::Connect(Action::Restore, Signal::ChangeState),
            Command::Connect(Action::Subtitle, Signal::ChangeState),
            Command::Connect(Action::AudioVisualization, Signal::ChangeState),
            Command::Connect(Action::AudioTrack, Signal::ChangeState),
            Command::Connect(Action::VideoTrack, Signal::ChangeState),
            Command::Connect(Action::OpenMedia, Signal::Activate),
            Command::Connect(Action::OpenSubtitleFile, Signal::Activate),
            Command::ShowVideoArea,
            Command::ConnectProgressFormat,
            Command::ConnectVolumeChanged,
            Command::ConnectPositionChanged,
        ];
        if self_updater {
            commands.push(Command::CheckUpdate);
        }
        commands.push(Command::StartWindow);
        assert(commands.deep_view() =~= model::start_commands(self_updater));
        commands
    }

    /// The user quits, or the window is closed.
    pub fn quit(&mut self) -> (commands: Vec<Command>)
        ensures
            *final(self) == model::activated(*old(self), Action::Quit),
            commands.deep_view() == model::quit_commands(*old(self)),
    {
        let mut commands: Vec<Command> = Vec::new();
        if self.has_engine {
            commands.push(Command::WriteLastKnownMediaPosition);
        }
        let mut leaving = self.leave_fullscreen();
        commands.append(&mut leaving);
        commands.push(Command::StopWindow);
        assert(commands.deep_view() =~= model::quit_commands(*old(self)));
        commands
    }

    /// Leaves fullscreen mode, if the window is in it.
    pub fn leave_fullscreen(&mut self) -> (commands: Vec<Command>)
        ensures
            *final(self) == model::changed(*old(self), Action::Restore),
            commands.deep_view() == model::leave_fullscreen_commands(*old(self)),
    {
        let mut commands: Vec<Command> = Vec::new();
        if self.fullscreen {
            commands.push(Command::LeaveFullscreen);
            commands.push(Command::SetActionState(Action::Fullscreen, Variant::Boolean(false)));
            self.fullscreen = false;
        }
        assert(commands.deep_view() =~= model::leave_fullscreen_commands(*old(self)));
        commands
    }

    /// The media engine reports an error.
    pub fn player_error(&mut self) -> (commands: Vec<Command>)
        ensures
            *final(self) == model::reported(*old(self), PlayerEvent::Error),
            commands.deep_view() == model::report_commands(*old(self), PlayerEvent::Error),
    {
        let mut commands = vec![Command::PrintError("Error!".to_owned())];
        let mut quitting = self.quit();
        commands.append(&mut quitting);
        assert(commands.deep_view() =~= model::report_commands(*old(self), PlayerEvent::Error));
        commands
    }

    /// The media engine reports a new volume.
    pub fn volume_changed(&self, volume: Volume) -> (commands: Vec<Command>)
        ensures
            commands.deep_view() == seq![CommandView::ShowVolume(volume)],
    {
        let commands = vec![Command::ShowVolume(volume)];
        assert(commands.deep_view() =~= seq![CommandView::ShowVolume(volume)]);
        commands
    }

    /// The media engine reports what it is doing.
    pub fn playback_state_changed(&self, state: PlaybackState) -> (commands: Vec<Command>)
        ensures
            commands.deep_view() == seq![CommandView::ShowPlaybackState(state)],
    {
        let commands = vec![Command::ShowPlaybackState(state)];
        assert(commands.deep_view() =~= seq![CommandView::ShowPlaybackState(state)]);
        commands
    }

    /// The media engine reports the size of the video.
    pub fn video_dimensions_changed(&self, width: i32, height: i32) -> (commands: Vec<Command>)
        ensures
            commands.deep_view() == seq![CommandView::ResizeWindow(width, height)],
    {
        let commands = vec![Command::ResizeWindow(width, height)];
        assert(commands.deep_view() =~= seq![CommandView::ResizeWindow(width, height)]);
        commands
    }

    /// The media engine reports something.
    pub fn dispatch_event(&mut self, event: &PlayerEvent) -> (commands: Vec<Command>)
        ensures
            *final(self) == model::reported(*old(self), *event),
            commands.deep_view() == model::report_commands(*old(self), *event),
    {
        match event {
            PlayerEvent::MediaInfoUpdated => self.ask_engine(Command::ReadMediaInfo),
            PlayerEvent::PositionUpdated => self.ask_engine(Command::ReadPosition),
            PlayerEvent::VideoDimensionsChanged(width, height) => self.video_dimensions_changed(
                *width,
                *height,
            ),
            PlayerEvent::StateChanged(state) => self.playback_state_changed(*state),
            PlayerEvent::VolumeChanged(volume) => self.volume_changed(*volume),
            PlayerEvent::Error => self.player_error(),
            PlayerEvent::Other => no_commands(),
        }
    }

    /// `command`, where there is a media engine to carry it out.
    fn ask_engine(&self, command: Command) -> (commands: Vec<Command>)
        ensures
            commands.deep_view() == model::when(self.has_engine, seq![command.deep_view()]),
    {
        let ghost asked = command.deep_view();
        let mut commands: Vec<Command> = Vec::new();
        if self.has_engine {
            commands.push(command);
        }
        assert(commands.deep_view() =~= model::when(self.has_engine, seq![asked]));
        commands
    }

    /// Pauses or resumes playback.
    pub fn toggle_pause(&mut self) -> (commands: Vec<Command>)
        ensures
            *final(self) == model::changed(*old(self), Action::Pause),
            commands.deep_view() == model::change_commands(*old(self), Action::Pause, None),
    {
        let paused: bool = self.paused;
        let mut commands = self.ask_engine(Command::TogglePause(paused));
        commands.push(Command::SetActionState(Action::Pause, Variant::Boolean(!paused)));
        self.paused = !paused;
        assert(commands.deep_view() =~= model::change_commands(*old(self), Action::Pause, None));
        commands
    }

    /// Turns the sound off or on.
    pub fn toggle_mute(&mut self) -> (commands: Vec<Command>)
        ensures
            *final(self) == model::changed(*old(self), Action::AudioMute),
            commands.deep_view() == model::change_commands(*old(self), Action::AudioMute, None),
    {
        let mut commands: Vec<Command> = Vec::new();
        if self.has_engine {
            let muted: bool = !self.muted;
            commands.push(Command::ToggleMute(muted));
            commands.push(Command::SetActionState(Action::AudioMute, Variant::Boolean(muted)));
            self.muted = muted;
        }
        assert(commands.deep_view() =~= model::change_commands(
            *old(self),
            Action::AudioMute,
            None,
        ));
        commands
    }

    /// Enters or leaves fullscreen mode.
    pub fn toggle_fullscreen(&mut self) -> (commands: Vec<Command>)
        ensures
            *final(self) == model::changed(*old(self), Action::Fullscreen),
            commands.deep_view() == model::change_commands(*old(self), Action::Fullscreen, None),
    {
        let fullscreen: bool = !self.fullscreen;
        let mut commands: Vec<Command> = Vec::new();
        if fullscreen {
            commands.push(Command::EnterFullscreen);
        } else {
            commands.push(Command::LeaveFullscreen);
        }
        commands.push(Command::SetActionState(Action::Fullscreen, Variant::Boolean(fullscreen)));
        self.fullscreen = fullscreen;
        assert(commands.deep_view() =~= model::change_commands(
            *old(self),
            Action::Fullscreen,
            None,
        ));
        commands
    }

    /// Subtitles are selected by the text that stands for them.
    pub fn update_subtitle_track(&self, value: &Option<Variant>) -> (commands: Vec<Command>)
        requires
            model::acceptable(Action::Subtitle, value.deep_view()),
        ensures
            commands.deep_view() == model::subtitle_commands(*self, value.deep_view()),
    {
        let mut commands: Vec<Command> = Vec::new();
        if let Some(state) = value {
            if let Variant::Text(target) = state {
                if let Some(track) = selection::select_subtitle(target.as_str()) {
                    if self.has_engine {
                        commands.push(Command::ConfigureSubtitleTrack(track));
                    }
                }
            }
            commands.push(Command::SetActionState(Action::Subtitle, state.duplicate()));
        }
        assert(commands.deep_view() =~= model::subtitle_commands(*self, value.deep_view()));
        commands
    }

    /// A visualization is selected by its name.
    pub fn update_audio_visualization(&self, value: &Option<Variant>) -> (commands: Vec<Command>)
        ensures
            commands.deep_view() == model::visualization_commands(*self, value.deep_view()),
    {
        let mut commands: Vec<Command> = Vec::new();
        if let Some(Variant::Text(name)) = value {
            if self.has_engine {
                let visualization = if text::same_text(name.as_str(), "none") {
                    None
                } else {
                    Some(AudioVisualization(name.clone()))
                };
                commands.push(Command::SetAudioVisualization(visualization));
                commands.push(
                    Command::SetActionState(
                        Action::AudioVisualization,
                        Variant::Text(name.clone()),
                    ),
                );
            }
        }
        assert(commands.deep_view() =~= model::visualization_commands(*self, value.deep_view()));
        commands
    }

    /// An audio track is selected by the text that stands for it.
    pub fn update_audio_track(&self, value: &Option<Variant>) -> (commands: Vec<Command>)
        requires
            model::acceptable(Action::AudioTrack, value.deep_view()),
        ensures
            commands.deep_view() == model::audio_track_commands(*self, value.deep_view()),
    {
        let mut commands: Vec<Command> = Vec::new();
        if let Some(Variant::Text(target)) = value {
            if let Some(index) = selection::select_track(target.as_str()) {
                if self.has_engine {
                    commands.push(Command::SetAudioTrackIndex(index));
                    commands.push(
                        Command::SetActionState(Action::AudioTrack, Variant::Text(target.clone())),
                    );
                }
            }
        }
        assert(commands.deep_view() =~= model::audio_track_commands(*self, value.deep_view()));
        commands
    }

    /// A video track is selected by the text that stands for it.
    pub fn update_video_track(&self, value: &Option<Variant>) -> (commands: Vec<Command>)
        requires
            model::acceptable(Action::VideoTrack, value.deep_view()),
        ensures
            commands.deep_view() == model::video_track_commands(*self, value.deep_view()),
    {
        let mut commands: Vec<Command> = Vec::new();
        if let Some(Variant::Text(target)) = value {
            if let Some(index) = selection::select_track(target.as_str()) {
                if self.has_engine {
                    commands.push(Command::SetVideoTrackIndex(index));
                    commands.push(
                        Command::SetActionState(Action::VideoTrack, Variant::Text(target.clone())),
                    );
                }
            }
        }
        assert(commands.deep_view() =~= model::video_track_commands(*self, value.deep_view()));
        commands
    }

    /// An action is asked to change its state to `value`.
    pub fn change_action_state(&mut self, action: Action, value: &Option<Variant>) -> (commands:
        Vec<Command>)
        requires
            model::acceptable(action, value.deep_view()),
        ensures
            *final(self) == model::changed(*old(self), action),
            commands.deep_view() == model::change_commands(*old(self), action, value.deep_view()),
    {
        match action {
            Action::Pause => self.toggle_pause(),
            Action::SeekForward => self.ask_engine(
                Command::Seek(SeekDirection::Forward(ClockTime(Some(clock::SEEK_FORWARD_OFFSET)))),
            ),
            Action::SeekBackward => self.ask_engine(
                Command::Seek(
                    SeekDirection::Backward(ClockTime(Some(clock::SEEK_BACKWARD_OFFSET))),
                ),
            ),
            Action::VolumeDecrease => self.ask_engine(Command::DecreaseVolume),
            Action::VolumeIncrease => self.ask_engine(Command::IncreaseVolume),
            Action::AudioMute => self.toggle_mute(),
            Action::Fullscreen => self.toggle_fullscreen(),
            Action::Restore => self.leave_fullscreen(),
            Action::Subtitle => self.update_subtitle_track(value),
            Action::AudioVisualization => self.update_audio_visualization(value),
            Action::AudioTrack => self.update_audio_track(value),
            Action::VideoTrack => self.update_video_track(value),
            _ => no_commands(),
        }
    }

    /// An action is triggered.
    pub fn activate_action(&mut self, action: Action) -> (commands: Vec<Command>)
        ensures
            *final(self) == model::activated(*old(self), action),
            commands.deep_view() == model::activate_commands(*old(self), action),
    {
        match action {
            Action::DumpPipeline => self.ask_engine(Command::DumpPipeline("glide".to_owned())),
            Action::OpenMedia => self.ask_engine(Command::ChooseMedia),
            Action::OpenSubtitleFile => self.ask_engine(Command::ChooseSubtitleFile),
            Action::About => {
                let commands = vec![Command::DisplayAboutDialog];
                assert(commands.deep_view() =~= seq![CommandView::DisplayAboutDialog]);
                commands
            },
            Action::Quit => self.quit(),
            _ => no_commands(),
        }
    }

    /// The user chose media to play, or none.
    pub fn media_chosen(&self, uri: Option<String>) -> (commands: Vec<Command>)
        ensures
            commands.deep_view() == model::media_chosen_commands(*self, uri.deep_view()),
    {
        let ghost chosen = uri.deep_view();
        let mut commands: Vec<Command> = Vec::new();
        if let Some(uri) = uri {
            if self.has_engine {
                commands.push(Command::Print(text::join("loading ", uri.as_str())));
                commands.push(Command::StopPlayer);
                commands.push(Command::LoadUri(uri));
            }
        }
        assert(commands.deep_view() =~= model::media_chosen_commands(*self, chosen));
        commands
    }

    /// The user chose a subtitle file, or none.
    pub fn subtitle_file_chosen(&self, uri: Option<String>) -> (commands: Vec<Command>)
        ensures
            commands.deep_view() == model::subtitle_file_chosen_commands(*self, uri.deep_view()),
    {
        let ghost chosen = uri.deep_view();
        let mut commands: Vec<Command> = Vec::new();
        if self.has_engine {
            if let Some(uri) = uri {
                commands.push(Command::ConfigureSubtitleTrack(Some(SubtitleTrack::External(uri))));
            }
            commands.push(Command::ReadSubtitleTracks);
        }
        assert(commands.deep_view() =~= model::subtitle_file_chosen_commands(*self, chosen));
        commands
    }

    /// The search for a subtitle file beside the media ended.
    pub fn subtitle_file_found(&self, uri: Option<String>) -> (commands: Vec<Command>)
        ensures
            commands.deep_view() == model::subtitle_file_found_commands(*self, uri.deep_view()),
    {
        match uri {
            Some(uri) => self.ask_engine(
                Command::ConfigureSubtitleTrack(Some(SubtitleTrack::External(uri))),
            ),
            None => no_commands(),
        }
    }

    /// The user moves the volume slider.
    pub fn set_volume(&self, volume: Volume) -> (commands: Vec<Command>)
        ensures
            commands.deep_view() == model::volume_commands(*self, volume),
    {
        self.ask_engine(Command::SetVolume(volume))
    }

    /// The user moves the position slider, to a number of seconds.
    pub fn seek_to(&self, seconds: u64) -> (commands: Vec<Command>)
        ensures
            commands.deep_view() == model::seek_commands(*self, seconds),
    {
        self.ask_engine(Command::SeekTo(ClockTime::from_seconds(seconds)))
    }

    /// The media engine gives the position.
    pub fn position_updated(&self, position: ClockTime) -> (commands: Vec<Command>)
        ensures
            commands.deep_view() == model::position_commands(*self, position),
    {
        match position.seconds() {
            Some(seconds) => self.ask_engine(Command::SetPositionRangeValue(seconds)),
            None => no_commands(),
        }
    }

    /// What the window shows about the media, and the search for a subtitle file beside it.
    fn present_media(&self, info: &MediaInfo, location: &Location) -> (commands: Vec<Command>)
        ensures
            commands.deep_view() == model::presentation_commands(
                info.deep_view(),
                location.deep_view(),
            ),
    {
        let file = match &location.path {
            Some(path) => Some(text::to_lossy_text(path.as_slice())),
            None => None,
        };
        let mut commands = vec![
            Command::SetWindowTitle(title_window(&info.title, file, &location.uri)),
        ];
        if let Some(seconds) = info.duration.seconds() {
            commands.push(Command::SetPositionRangeEnd(seconds));
        }
        if let Some(path) = &location.path {
            commands.push(
                Command::FindSubtitleFile(
                    path::with_extension(path.as_slice(), "srt".as_bytes()),
                ),
            );
        }
        assert(commands.deep_view() =~= model::presentation_commands(
            info.deep_view(),
            location.deep_view(),
        ));
        commands
    }

    /// The media engine gives information on the media, and where the media comes from.
    pub fn media_info_updated(
        &self,
        info: &Option<MediaInfo>,
        location: &Option<Location>,
    ) -> (commands: Vec<Command>)
        requires
            self.has_engine ==> (info matches Some(info) ==> menu::named_streams(
                info.deep_view().audio_streams,
            ).len() <= i32::MAX && info.video_streams@.len() <= i32::MAX),
        ensures
            commands.deep_view() == model::media_info_commands(
                *self,
                info.deep_view(),
                location.deep_view(),
            ),
    {
        let mut commands: Vec<Command> = Vec::new();
        if self.has_engine {
            if let Some(info) = info {
                if let Some(location) = location {
                    let mut presentation = self.present_media(info, location);
                    commands.append(&mut presentation);
                }
                commands.push(Command::ReadSubtitleTracks);
                let mut audio = self.fill_audio_track_menu(info);
                commands.append(&mut audio);
                let mut video = self.fill_video_track_menu(info);
                commands.append(&mut video);
                if info.number_of_video_streams == 0 {
                    if !self.visualizations_frozen {
                        commands.push(Command::ListVisualizations);
                    }
                    commands.push(Command::SetActionEnabled(Action::AudioVisualization, true));
                } else {
                    commands.push(Command::ClearMenu(Menu::AudioVisualization));
                    commands.push(Command::SetActionEnabled(Action::AudioVisualization, false));
                }
            }
        }
        assert(commands.deep_view() =~= model::media_info_commands(
            *self,
            info.deep_view(),
            location.deep_view(),
        ));
        commands
    }

    /// The media engine gives the subtitle streams, and the subtitle file in use.
    pub fn refresh_subtitle_track_menu(
        &self,
        info: &Option<MediaInfo>,
        file: &Option<Location>,
    ) -> (commands: Vec<Command>)
        requires
            self.has_engine ==> (info matches Some(info) ==> info.subtitle_streams@.len()
                <= i32::MAX),
        ensures
            commands.deep_view() == model::subtitle_menu_commands(
                *self,
                info.deep_view(),
                file.deep_view(),
            ),
    {
        if !self.has_engine {
            return no_commands();
        }
        let mut items: Vec<MenuItem> = match info {
            Some(info) => menu::list_subtitles(&info.subtitle_streams),
            None => Vec::new(),
        };
        let mut selected = "none".to_owned();
        if let Some(location) = file {
            if let Some(name) = menu::name_subtitle_file(location) {
                selected = text::join("ext-", location.uri.as_str());
                items.push(
                    MenuItem { label: name, action: Action::Subtitle.detailed(selected.as_str()) },
                );
            }
        }
        assert(items.deep_view() =~= menu::subtitle_menu(info.deep_view(), file.deep_view()));
        let commands = vec![
            Command::ClearMenu(Menu::SubtitleTrack),
            Command::AppendSection(Menu::SubtitleTrack, items),
            Command::RequestActionState(Action::Subtitle, Variant::Text(selected)),
        ];
        assert(commands.deep_view() =~= model::subtitle_menu_commands(
            *self,
            info.deep_view(),
            file.deep_view(),
        ));
        commands
    }

    /// The media engine lists its visualizations: the menu is filled with them, once.
    pub fn fill_audio_visualization_menu(&mut self, visualizations: &Vec<Visualization>) -> (commands:
        Vec<Command>)
        ensures
            *final(self) == model::visualizations_filled(*old(self)),
            commands.deep_view() == model::fill_visualizations_commands(
                *old(self),
                visualizations.deep_view(),
            ),
    {
        if self.visualizations_frozen {
            return no_commands();
        }
        self.visualizations_frozen = true;
        let commands = vec![
            Command::AppendSection(
                Menu::AudioVisualization,
                menu::list_visualizations(visualizations),
            ),
            Command::FreezeMenu(Menu::AudioVisualization),
        ];
        assert(commands.deep_view() =~= model::fill_visualizations_commands(
            *old(self),
            visualizations.deep_view(),
        ));
        commands
    }

    /// The audio menu lists the audio streams of the media.
    pub fn fill_audio_track_menu(&self, info: &MediaInfo) -> (commands: Vec<Command>)
        requires
            menu::named_streams(info.deep_view().audio_streams).len() <= i32::MAX,
        ensures
            commands.deep_view() == model::replace_menu(
                Menu::AudioTrack,
                menu::audio_menu(info.deep_view().audio_streams),
            ),
    {
        replace_menu(Menu::AudioTrack, menu::list_audio_tracks(&info.audio_streams))
    }

    /// The video menu lists the video streams of the media.
    pub fn fill_video_track_menu(&self, info: &MediaInfo) -> (commands: Vec<Command>)
        requires
            info.video_streams@.len() <= i32::MAX,
        ensures
            commands.deep_view() == model::replace_menu(
                Menu::VideoTrack,
                menu::video_menu(info.deep_view().video_streams),
            ),
    {
        replace_menu(Menu::VideoTrack, menu::list_video_tracks(&info.video_streams))
    }

    /// The user opens files, each with its URI where it has one.
    pub fn open_files(&self, uris: &Vec<Option<String>>) -> (commands: Vec<Command>)
        ensures
            commands.deep_view() == model::open_commands(*self, uris.deep_view()),
    {
        let ghost all = uris.deep_view();
        let mut playlist: Vec<String> = Vec::new();
        let mut i: usize = 0;
        proof {
            reveal(Seq::filter);
            assert(playlist.deep_view() =~= model::known_uris(all.take(0)));
        }
        while i < uris.len()
            invariant
                i <= uris@.len(),
                all == uris.deep_view(),
                playlist.deep_view() == model::known_uris(all.take(i as int)),
            decreases uris@.len() - i,
        {
            let ghost before = playlist.deep_view();
            proof {
                reveal(Seq::filter);
                assert(all.take(i + 1).drop_last() =~= all.take(i as int));
                assert(all.take(i + 1).last() == uris@[i as int].deep_view());
            }
            if let Some(uri) = &uris[i] {
                playlist.push(uri.clone());
                assert(playlist.deep_view() =~= before.push(uri@));
                assert(playlist.deep_view() =~= model::known_uris(all.take(i + 1)));
            } else {
                assert(playlist.deep_view() =~= model::known_uris(all.take(i + 1)));
            }
            i = i + 1;
        }
        assert(all.take(i as int) =~= all);
        self.ask_engine(Command::LoadPlaylist(playlist))
    }

    /// The application is asked to open files: it is activated first, so that there is a media
    /// engine to play them.
    pub fn files_opened(&mut self, uris: &Vec<Option<String>>, self_updater: bool) -> (commands:
        Vec<Command>)
        ensures
            *final(self) == model::started(*old(self)),
            commands.deep_view() == model::files_opened_commands(
                *old(self),
                self_updater,
                uris.deep_view(),
            ),
    {
        let mut commands = self.start(self_updater);
        let mut opening = self.open_files(uris);
        commands.append(&mut opening);
        assert(commands.deep_view() =~= model::files_opened_commands(
            *old(self),
            self_updater,
            uris.deep_view(),
        ));
        commands
    }

    /// The event loop took an action from the queue, or found none. The flag says whether the
    /// event loop calls again by itself: it does not.
    pub fn ui_action_handle(&mut self, action: &Option<UIAction>) -> (r: (Vec<Command>, bool))
        ensures
            *final(self) == model::polled(*old(self), *action),
            r.0.deep_view() == model::poll_commands(*old(self), *action),
            !r.1,
    {
        let commands = match action {
            Some(UIAction::Quit) => self.quit(),
            Some(UIAction::ForwardedPlayerEvent(event)) => self.dispatch_event(event),
            None => no_commands(),
        };
        (commands, false)
    }
}

/// What a report of the media engine, if there is one, puts into the queue of the event loop.
pub fn forward_event(event: Option<PlayerEvent>) -> (r: Option<UIAction>)
    ensures
        r == model::forwarded(event),
{
    match event {
        Some(event) => Some(UIAction::ForwardedPlayerEvent(event)),
        None => None,
    }
}

/// Nothing to do.
fn no_commands() -> (commands: Vec<Command>)
    ensures
        commands.deep_view() == Seq::<CommandView>::empty(),
{
    let commands: Vec<Command> = Vec::new();
    assert(commands.deep_view() =~= Seq::<CommandView>::empty());
    commands
}

/// A menu gets new entries in place of its old ones.
fn replace_menu(menu: Menu, items: Vec<MenuItem>) -> (commands: Vec<Command>)
    ensures
        commands.deep_view() == model::replace_menu(menu, items.deep_view()),
{
    let ghost entries = items.deep_view();
    let commands = vec![Command::ClearMenu(menu), Command::AppendSection(menu, items)];
    assert(commands.deep_view() =~= model::replace_menu(menu, entries));
    commands
}

/// The title of the window: that of the media, or the path of its file, or its URI.
pub fn title_window(title: &Option<String>, file: Option<String>, uri: &String) -> (r: String)
    ensures
        r@ == model::window_title(title.deep_view(), file.deep_view(), uri@),
{
    if let Some(title) = title {
        title.clone()
    } else if let Some(file) = file {
        file
    } else {
        uri.clone()
    }
}

/// Whether a text that an action is asked to take stands for something that it can select.
pub fn is_acceptable(action: Action, value: &Option<Variant>) -> (r: bool)
    ensures
        r == model::acceptable(action, value.deep_view()),
{
    match value {
        Some(Variant::Text(target)) => match action {
            Action::Subtitle => selection::select_subtitle(target.as_str()).is_some(),
            Action::AudioTrack | Action::VideoTrack => selection::select_track(
                target.as_str(),
            ).is_some(),
            _ => true,
        },
        _ => true,
    }
}

/// Whether the streams that the track menus list can be numbered with 32 bits.
pub fn fits_menus(info: &MediaInfo) -> (r: bool)
    ensures
        r == model::fits_menus(info.deep_view()),
{
    let limit: usize = i32::MAX as usize;
    menu::count_named_streams(&info.audio_streams) <= limit && info.video_streams.len() <= limit
        && info.subtitle_streams.len() <= limit
}

} // verus!
