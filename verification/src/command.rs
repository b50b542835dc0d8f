//! What the player asks of the media engine, the window, the actions and the menus.

use vstd::prelude::*;

use crate::action::{Action, Signal, Variant, VariantView};
use crate::clock::ClockTime;
use crate::media::{
    AudioVisualization, PlaybackState, SeekDirection, SubtitleTrack, SubtitleTrackView, Volume,
};

verus! {

/// A menu of the player.
#[derive(Clone, Copy, Debug, PartialEq, Eq, Structural)]
pub enum Menu {
    SubtitleTrack,
    AudioVisualization,
    AudioTrack,
    VideoTrack,
}

/// An entry of a menu: its label, and the action that it asks for.
#[derive(Debug, PartialEq, Eq)]
pub struct MenuItem {
    pub label: String,
    pub action: String,
}

#[verifier::ext_equal]
pub struct MenuItemView {
    pub label: Seq<char>,
    pub action: Seq<char>,
}

impl DeepView for MenuItem {
    type V = MenuItemView;

    open spec fn deep_view(&self) -> MenuItemView {
        MenuItemView { label: self.label@, action: self.action@ }
    }
}

/// One step for the surroundings of the player to take. Steps are taken in order; a step that
/// asks for something is answered by a call of the player before the next step is taken.
#[derive(Debug, PartialEq, Eq)]
pub enum Command {
    // The application.
    RegisterAction(Action),
    Connect(Action, Signal),
    ConnectApplicationActivate,
    ConnectApplicationOpen,
    CreateWindow,
    CreateEventQueue,
    // The media engine.
    /// Create the engine, with the name of its file in the cache directory.
    CreatePlayer(String),
    ForwardPlayerEvents,
    WriteLastKnownMediaPosition,
    TogglePause(bool),
    DumpPipeline(String),
    Seek(SeekDirection),
    SeekTo(ClockTime),
    IncreaseVolume,
    DecreaseVolume,
    SetVolume(Volume),
    ToggleMute(bool),
    SetAudioVisualization(Option<AudioVisualization>),
    SetAudioTrackIndex(i32),
    SetVideoTrackIndex(i32),
    ConfigureSubtitleTrack(Option<SubtitleTrack>),
    StopPlayer,
    LoadUri(String),
    LoadPlaylist(Vec<String>),
    // The window.
    ShowVideoArea,
    ConnectProgressFormat,
    ConnectVolumeChanged,
    ConnectPositionChanged,
    CheckUpdate,
    StartWindow,
    StopWindow,
    EnterFullscreen,
    LeaveFullscreen,
    DisplayAboutDialog,
    SetWindowTitle(String),
    SetPositionRangeEnd(u64),
    SetPositionRangeValue(u64),
    ShowVolume(Volume),
    ShowPlaybackState(PlaybackState),
    ResizeWindow(i32, i32),
    // The actions.
    /// Store the state of an action.
    SetActionState(Action, Variant),
    /// Ask an action to change its state.
    RequestActionState(Action, Variant),
    SetActionEnabled(Action, bool),
    // The menus.
    ClearMenu(Menu),
    AppendSection(Menu, Vec<MenuItem>),
    FreezeMenu(Menu),
    // Questions.
    ReadMediaInfo,
    ReadPosition,
    ReadSubtitleTracks,
    ListVisualizations,
    /// Look whether the path is a file, and for its URI.
    FindSubtitleFile(Vec<u8>),
    ChooseMedia,
    ChooseSubtitleFile,
    // The terminal.
    Print(String),
    PrintError(String),
}

#[verifier::ext_equal]
pub enum CommandView {
    RegisterAction(Action),
    Connect(Action, Signal),
    ConnectApplicationActivate,
    ConnectApplicationOpen,
    CreateWindow,
    CreateEventQueue,
    CreatePlayer(Seq<char>),
    ForwardPlayerEvents,
    WriteLastKnownMediaPosition,
    TogglePause(bool),
    DumpPipeline(Seq<char>),
    Seek(SeekDirection),
    SeekTo(ClockTime),
    IncreaseVolume,
    DecreaseVolume,
    SetVolume(Volume),
    ToggleMute(bool),
    SetAudioVisualization(Option<Seq<char>>),
    SetAudioTrackIndex(i32),
    SetVideoTrackIndex(i32),
    ConfigureSubtitleTrack(Option<SubtitleTrackView>),
    StopPlayer,
    LoadUri(Seq<char>),
    LoadPlaylist(Seq<Seq<char>>),
    ShowVideoArea,
    ConnectProgressFormat,
    ConnectVolumeChanged,
    ConnectPositionChanged,
    CheckUpdate,
    StartWindow,
    StopWindow,
    EnterFullscreen,
    LeaveFullscreen,
    DisplayAboutDialog,
    SetWindowTitle(Seq<char>),
    SetPositionRangeEnd(u64),
    SetPositionRangeValue(u64),
    ShowVolume(Volume),
    ShowPlaybackState(PlaybackState),
    ResizeWindow(i32, i32),
    SetActionState(Action, VariantView),
    RequestActionState(Action, VariantView),
    SetActionEnabled(Action, bool),
    ClearMenu(Menu),
    AppendSection(Menu, Seq<MenuItemView>),
    FreezeMenu(Menu),
    ReadMediaInfo,
    ReadPosition,
    ReadSubtitleTracks,
    ListVisualizations,
    FindSubtitleFile(Seq<u8>),
    ChooseMedia,
    ChooseSubtitleFile,
    Print(Seq<char>),
    PrintError(Seq<char>),
}

impl DeepView for Command {
    type V = CommandView;

    open spec fn deep_view(&self) -> CommandView {
        match self {
            Command::RegisterAction(action) => CommandView::RegisterAction(*action),
            Command::Connect(action, signal) => CommandView::Connect(*action, *signal),
            Command::ConnectApplicationActivate => CommandView::ConnectApplicationActivate,
            Command::ConnectApplicationOpen => CommandView::ConnectApplicationOpen,
            Command::CreateWindow => CommandView::CreateWindow,
            Command::CreateEventQueue => CommandView::CreateEventQueue,
            Command::CreatePlayer(file) => CommandView::CreatePlayer(file@),
            Command::ForwardPlayerEvents => CommandView::ForwardPlayerEvents,
            Command::WriteLastKnownMediaPosition => CommandView::WriteLastKnownMediaPosition,
            Command::TogglePause(paused) => CommandView::TogglePause(*paused),
            Command::DumpPipeline(label) => CommandView::DumpPipeline(label@),
            Command::Seek(direction) => CommandView::Seek(*direction),
            Command::SeekTo(time) => CommandView::SeekTo(*time),
            Command::IncreaseVolume => CommandView::IncreaseVolume,
            Command::DecreaseVolume => CommandView::DecreaseVolume,
            Command::SetVolume(volume) => CommandView::SetVolume(*volume),
            Command::ToggleMute(enabled) => CommandView::ToggleMute(*enabled),
            Command::SetAudioVisualization(name) => CommandView::SetAudioVisualization(
                name.deep_view(),
            ),
            Command::SetAudioTrackIndex(index) => CommandView::SetAudioTrackIndex(*index),
            Command::SetVideoTrackIndex(index) => CommandView::SetVideoTrackIndex(*index),
            Command::ConfigureSubtitleTrack(track) => CommandView::ConfigureSubtitleTrack(
                track.deep_view(),
            ),
            Command::StopPlayer => CommandView::StopPlayer,
            Command::LoadUri(uri) => CommandView::LoadUri(uri@),
            Command::LoadPlaylist(uris) => CommandView::LoadPlaylist(uris.deep_view()),
            Command::ShowVideoArea => CommandView::ShowVideoArea,
            Command::ConnectProgressFormat => CommandView::ConnectProgressFormat,
            Command::ConnectVolumeChanged => CommandView::ConnectVolumeChanged,
            Command::ConnectPositionChanged => CommandView::ConnectPositionChanged,
            Command::CheckUpdate => CommandView::CheckUpdate,
            Command::StartWindow => CommandView::StartWindow,
            Command::StopWindow => CommandView::StopWindow,
            Command::EnterFullscreen => CommandView::EnterFullscreen,
            Command::LeaveFullscreen => CommandView::LeaveFullscreen,
            Command::DisplayAboutDialog => CommandView::DisplayAboutDialog,
            Command::SetWindowTitle(title) => CommandView::SetWindowTitle(title@),
            Command::SetPositionRangeEnd(seconds) => CommandView::SetPositionRangeEnd(*seconds),
            Command::SetPositionRangeValue(seconds) => CommandView::SetPositionRangeValue(*seconds),
            Command::ShowVolume(volume) => CommandView::ShowVolume(*volume),
            Command::ShowPlaybackState(state) => CommandView::ShowPlaybackState(*state),
            Command::ResizeWindow(width, height) => CommandView::ResizeWindow(*width, *height),
            Command::SetActionState(action, state) => CommandView::SetActionState(
                *action,
                state.deep_view(),
            ),
            Command::RequestActionState(action, state) => CommandView::RequestActionState(
                *action,
                state.deep_view(),
            ),
            Command::SetActionEnabled(action, enabled) => CommandView::SetActionEnabled(
                *action,
                *enabled,
            ),
            Command::ClearMenu(menu) => CommandView::ClearMenu(*menu),
            Command::AppendSection(menu, items) => CommandView::AppendSection(
                *menu,
                items.deep_view(),
            ),
            Command::FreezeMenu(menu) => CommandView::FreezeMenu(*menu),
            Command::ReadMediaInfo => CommandView::ReadMediaInfo,
            Command::ReadPosition => CommandView::ReadPosition,
            Command::ReadSubtitleTracks => CommandView::ReadSubtitleTracks,
            Command::ListVisualizations => CommandView::ListVisualizations,
            Command::FindSubtitleFile(path) => CommandView::FindSubtitleFile(path@),
            Command::ChooseMedia => CommandView::ChooseMedia,
            Command::ChooseSubtitleFile => CommandView::ChooseSubtitleFile,
            Command::Print(line) => CommandView::Print(line@),
            Command::PrintError(line) => CommandView::PrintError(line@),
        }
    }
}

/// The view of an entry keeps its label and its action.
pub proof fn law_items_are_viewed_whole(item: MenuItem)
    ensures
        item.deep_view().label == item.label@,
        item.deep_view().action == item.action@,
{
}

} // verus!
