//! The named actions of the application, their states and how menus refer to them.

use vstd::prelude::*;

use crate::text;

verus! {

/// An action that the application offers to menus, buttons and keys.
#[derive(Clone, Copy, Debug, PartialEq, Eq, Structural)]
pub enum Action {
    Fullscreen,
    Restore,
    Pause,
    SeekForward,
    SeekBackward,
    OpenMedia,
    OpenSubtitleFile,
    AudioMute,
    VolumeIncrease,
    VolumeDecrease,
    DumpPipeline,
    Subtitle,
    AudioVisualization,
    AudioTrack,
    VideoTrack,
    About,
    Quit,
}

/// What a handler of an action listens to.
#[derive(Clone, Copy, Debug, PartialEq, Eq, Structural)]
pub enum Signal {
    /// The action is triggered.
    Activate,
    /// A new state is asked for.
    ChangeState,
}

/// A value that an action holds as its state or is asked to take.
#[derive(Debug, PartialEq, Eq)]
pub enum Variant {
    Boolean(bool),
    Text(String),
    /// A value of any other type; whoever passed it on holds it.
    Other,
}

#[verifier::ext_equal]
pub enum VariantView {
    Boolean(bool),
    Text(Seq<char>),
    Other,
}

impl DeepView for Variant {
    type V = VariantView;

    open spec fn deep_view(&self) -> VariantView {
        match self {
            Variant::Boolean(b) => VariantView::Boolean(*b),
            Variant::Text(s) => VariantView::Text(s@),
            Variant::Other => VariantView::Other,
        }
    }
}

impl Variant {
    /// A copy of the value.
    pub fn duplicate(&self) -> (r: Variant)
        ensures
            r.deep_view() == self.deep_view(),
    {
        match self {
            Variant::Boolean(b) => Variant::Boolean(*b),
            Variant::Text(s) => Variant::Text(s.clone()),
            Variant::Other => Variant::Other,
        }
    }
}

/// The name that an action is registered under.
pub open spec fn action_name(action: Action) -> Seq<char> {
    match action {
        Action::Fullscreen => "fullscreen"@,
        Action::Restore => "restore"@,
        Action::Pause => "pause"@,
        Action::SeekForward => "seek-forward"@,
        Action::SeekBackward => "seek-backward"@,
        Action::OpenMedia => "open-media"@,
        Action::OpenSubtitleFile => "open-subtitle-file"@,
        Action::AudioMute => "audio-mute"@,
        Action::VolumeIncrease => "audio-volume-increase"@,
        Action::VolumeDecrease => "audio-volume-decrease"@,
        Action::DumpPipeline => "dump-pipeline"@,
        Action::Subtitle => "subtitle"@,
        Action::AudioVisualization => "audio-visualization"@,
        Action::AudioTrack => "audio-track"@,
        Action::VideoTrack => "video-track"@,
        Action::About => "about"@,
        Action::Quit => "quit"@,
    }
}

/// How a menu item names an application action together with the text it asks for.
pub open spec fn detailed_action(action: Action, target: Seq<char>) -> Seq<char> {
    "app."@ + action_name(action) + "::"@ + target
}

/// Whether the action takes a text as parameter.
pub open spec fn takes_text(action: Action) -> bool {
    match action {
        Action::Subtitle
        | Action::AudioVisualization
        | Action::AudioTrack
        | Action::VideoTrack => true,
        _ => false,
    }
}

/// The state that an action is registered with; some have none.
pub open spec fn initial_state(action: Action) -> Option<VariantView> {
    match action {
        Action::OpenMedia | Action::OpenSubtitleFile | Action::About | Action::Quit => None,
        Action::Restore => Some(VariantView::Boolean(true)),
        Action::Subtitle => Some(VariantView::Text(""@)),
        Action::AudioVisualization => Some(VariantView::Text("none"@)),
        Action::AudioTrack => Some(VariantView::Text("audio-0"@)),
        Action::VideoTrack => Some(VariantView::Text("video-0"@)),
        _ => Some(VariantView::Boolean(false)),
    }
}

impl Action {
    /// The name that the action is registered under.
    pub fn name(&self) -> (r: &'static str)
        ensures
            r@ == action_name(*self),
    {
        match self {
            Action::Fullscreen => "fullscreen",
            Action::Restore => "restore",
            Action::Pause => "pause",
            Action::SeekForward => "seek-forward",
            Action::SeekBackward => "seek-backward",
            Action::OpenMedia => "open-media",
            Action::OpenSubtitleFile => "open-subtitle-file",
            Action::AudioMute => "audio-mute",
            Action::VolumeIncrease => "audio-volume-increase",
            Action::VolumeDecrease => "audio-volume-decrease",
            Action::DumpPipeline => "dump-pipeline",
            Action::Subtitle => "subtitle",
            Action::AudioVisualization => "audio-visualization",
            Action::AudioTrack => "audio-track",
            Action::VideoTrack => "video-track",
            Action::About => "about",
            Action::Quit => "quit",
        }
    }

    /// How a menu item names this action together with the text it asks for.
    pub fn detailed(&self, target: &str) -> (r: String)
        ensures
            r@ == detailed_action(*self, target@),
    {
        text::join("app.", self.name()).concat("::").concat(target)
    }

    /// Whether the action takes a text as parameter.
    pub fn has_text_parameter(&self) -> (r: bool)
        ensures
            r == takes_text(*self),
    {
        match self {
            Action::Subtitle
            | Action::AudioVisualization
            | Action::AudioTrack
            | Action::VideoTrack => true,
            _ => false,
        }
    }

    /// The state that the action is registered with; some have none.
    pub fn first_state(&self) -> (r: Option<Variant>)
        ensures
            r.deep_view() == initial_state(*self),
    {
        match self {
            Action::OpenMedia | Action::OpenSubtitleFile | Action::About | Action::Quit => None,
            Action::Restore => Some(Variant::Boolean(true)),
            Action::Subtitle => Some(Variant::Text("".to_owned())),
            Action::AudioVisualization => Some(Variant::Text("none".to_owned())),
            Action::AudioTrack => Some(Variant::Text("audio-0".to_owned())),
            Action::VideoTrack => Some(Variant::Text("video-0".to_owned())),
            _ => Some(Variant::Boolean(false)),
        }
    }
}

/// No two actions have the same name, and each has the one by which menus, keys and desktop files
/// call it.
pub proof fn law_action_names(action: Action, other: Action)
    ensures
        action_name(action) == action_name(other) ==> action == other,
        action == Action::Fullscreen ==> action_name(action) == "fullscreen"@,
        action == Action::Restore ==> action_name(action) == "restore"@,
        action == Action::Pause ==> action_name(action) == "pause"@,
        action == Action::SeekForward ==> action_name(action) == "seek-forward"@,
        action == Action::SeekBackward ==> action_name(action) == "seek-backward"@,
        action == Action::OpenMedia ==> action_name(action) == "open-media"@,
        action == Action::OpenSubtitleFile ==> action_name(action) == "open-subtitle-file"@,
        action == Action::AudioMute ==> action_name(action) == "audio-mute"@,
        action == Action::VolumeIncrease ==> action_name(action) == "audio-volume-increase"@,
        action == Action::VolumeDecrease ==> action_name(action) == "audio-volume-decrease"@,
        action == Action::DumpPipeline ==> action_name(action) == "dump-pipeline"@,
        action == Action::Subtitle ==> action_name(action) == "subtitle"@,
        action == Action::AudioVisualization ==> action_name(action) == "audio-visualization"@,
        action == Action::AudioTrack ==> action_name(action) == "audio-track"@,
        action == Action::VideoTrack ==> action_name(action) == "video-track"@,
        action == Action::About ==> action_name(action) == "about"@,
        action == Action::Quit ==> action_name(action) == "quit"@,
{
    reveal_strlit("fullscreen");
    reveal_strlit("restore");
    reveal_strlit("pause");
    reveal_strlit("seek-forward");
    reveal_strlit("seek-backward");
    reveal_strlit("open-media");
    reveal_strlit("open-subtitle-file");
    reveal_strlit("audio-mute");
    reveal_strlit("audio-volume-increase");
    reveal_strlit("audio-volume-decrease");
    reveal_strlit("dump-pipeline");
    reveal_strlit("subtitle");
    reveal_strlit("audio-visualization");
    reveal_strlit("audio-track");
    reveal_strlit("video-track");
    reveal_strlit("about");
    reveal_strlit("quit");
    let (a, b) = (action_name(action), action_name(other));
    if a == b {
        assert(a.len() == b.len());
        assert(a[0] == b[0]);
        assert(a[1] == b[1]);
        assert(a.len() > 13 ==> a[13] == b[13]);
    }
}

/// How a menu item names an action: the action and the text that it asks for can be told from it.
pub proof fn law_detailed_action(action: Action, target: Seq<char>, other: Seq<char>)
    ensures
        ({
            let detailed = detailed_action(action, target);
            let name = action_name(action);
            let end = name.len() + 4int;
            &&& detailed.len() == end + 2 + target.len()
            &&& detailed.take(4) == seq!['a', 'p', 'p', '.']
            &&& detailed.subrange(4, end) == name
            &&& detailed.subrange(end, end + 2) == seq![':', ':']
            &&& detailed.skip(end + 2) == target
        }),
        detailed_action(action, target) == detailed_action(action, other) ==> target == other,
{
    reveal_strlit("app.");
    reveal_strlit("::");
    let name = action_name(action);
    let end = name.len() + 4int;
    assert(detailed_action(action, target).skip(end + 2) =~= target);
    assert(detailed_action(action, other).skip(end + 2) =~= other);
    assert(detailed_action(action, target).take(4) =~= seq!['a', 'p', 'p', '.']);
    assert(detailed_action(action, target).subrange(4, end) =~= name);
    assert(detailed_action(action, target).subrange(end, end + 2) =~= seq![
        ':',
        ':',
    ]);
}

/// An action that selects something by a text takes a text and has one as its state. The others
/// have a flag, which is off but for restoring the window; those that open something or end the
/// program have no state.
pub proof fn law_action_states(action: Action)
    ensures
        takes_text(action) <==> (initial_state(action) matches Some(VariantView::Text(_))),
        takes_text(action) <==> action == Action::Subtitle || action == Action::AudioVisualization
            || action == Action::AudioTrack || action == Action::VideoTrack,
        initial_state(action) is None <==> action == Action::OpenMedia || action
            == Action::OpenSubtitleFile || action == Action::About || action == Action::Quit,
        initial_state(action) == Some(VariantView::Boolean(true)) <==> action == Action::Restore,
        initial_state(action) != Some(VariantView::Other),
        action == Action::Subtitle ==> initial_state(action) == Some(
            VariantView::Text(Seq::<char>::empty()),
        ),
        action == Action::AudioVisualization ==> initial_state(action) == Some(
            VariantView::Text(seq!['n', 'o', 'n', 'e']),
        ),
        action == Action::AudioTrack ==> initial_state(action) == Some(
            VariantView::Text(seq!['a', 'u', 'd', 'i', 'o', '-', '0']),
        ),
        action == Action::VideoTrack ==> initial_state(action) == Some(
            VariantView::Text(seq!['v', 'i', 'd', 'e', 'o', '-', '0']),
        ),
{
    reveal_strlit("");
    reveal_strlit("none");
    reveal_strlit("audio-0");
    reveal_strlit("video-0");
    assert(""@ =~= Seq::<char>::empty());
    assert("none"@ =~= seq!['n', 'o', 'n', 'e']);
    assert("audio-0"@ =~= seq!['a', 'u', 'd', 'i', 'o', '-', '0']);
    assert("video-0"@ =~= seq!['v', 'i', 'd', 'e', 'o', '-', '0']);
}

/// The view of a value keeps what the value holds.
pub proof fn law_variant_views_keep_values(value: Variant)
    ensures
        match (value, value.deep_view()) {
            (Variant::Boolean(x), VariantView::Boolean(y)) => x == y,
            (Variant::Text(x), VariantView::Text(y)) => x@ == y,
            (Variant::Other, VariantView::Other) => true,
            _ => false,
        },
{
}

} // verus!
