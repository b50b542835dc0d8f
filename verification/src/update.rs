//! The search for a newer release of the program.

use vstd::prelude::*;

use crate::command::{Command, CommandView};
use crate::player::VideoPlayer;
use crate::text;

verus! {

/// The release to look for: where it is published, for which machine, and newer than what.
#[derive(Debug, PartialEq, Eq)]
pub struct UpdateRequest {
    pub repo_owner: String,
    pub repo_name: String,
    pub bin_name: String,
    pub target: String,
    pub current_version: String,
}

/// How a search that went through ended. The text is a version.
#[derive(Debug, PartialEq, Eq)]
pub enum UpdateStatus {
    UpToDate(String),
    Updated(String),
}

/// `request` asks for the release of this program for the machine `target` that is newer than
/// `version`.
pub open spec fn asks_for(request: UpdateRequest, target: Seq<char>, version: Seq<char>) -> bool {
    &&& request.repo_owner@ == "philn"@
    &&& request.repo_name@ == "glide"@
    &&& request.bin_name@ == "glide"@
    &&& request.target@ == target
    &&& request.current_version@ == version
}

/// The environments of a target triple.
pub open spec fn is_environment(name: Seq<char>) -> bool {
    name == "gnu"@ || name == "musl"@ || name == "msvc"@
}

/// The systems of a target triple, with their environment where they have one.
pub open spec fn is_system(name: Seq<char>) -> bool {
    ||| name == "apple-darwin"@
    ||| name == "unknown-freebsd"@
    ||| exists|environment: Seq<char>| #[trigger]
        is_environment(environment) && (name == "unknown-linux"@ + "-"@ + environment || name
            == "pc-windows"@ + "-"@ + environment)
}

/// The architectures of a target triple.
pub open spec fn is_architecture(name: Seq<char>) -> bool {
    name == "i686"@ || name == "x86_64"@ || name == "armv7"@
}

/// A target triple for which releases can be looked up.
pub open spec fn is_target(target: Seq<char>) -> bool {
    exists|architecture: Seq<char>, system: Seq<char>| #[trigger]
        is_architecture(architecture) && #[trigger] is_system(system) && target == architecture
            + "-"@ + system
}

/// What is said about a machine without a target triple.
pub open spec fn is_target_error(error: Seq<char>) -> bool {
    ||| error == "UpdateError: Unable to determine target-architecture"@
    ||| error == "UpdateError: Unable to determine target-os"@
    ||| error == "UpdateError: Unable to determine target-environment"@
}

/// Calls `self_update::get_target`, and makes a text of its error. Trusted: the result is one of
/// the target triples or one of the errors that the function is written to give. Which one it is
/// depends on the machine that the program was built for.
#[verifier::external_body]
fn release_target() -> (r: Result<String, String>)
    ensures
        match r {
            Ok(target) => is_target(target@),
            Err(error) => is_target_error(error@),
        },
{
    match self_update::get_target() {
        Ok(target) => Ok(target),
        Err(error) => Err(error.to_string()),
    }
}

/// Calls `to_string` on `self_update::Status::Updated`. Trusted: the text is the version between
/// the words of that variant.
#[verifier::external_body]
fn updated_text(version: String) -> (r: String)
    ensures
        r@ == "Updated("@ + version@ + ")"@,
{
    self_update::Status::Updated(version).to_string()
}

/// The release to look for on the machine `target` that runs `version` of this program, or the
/// error where the machine is unknown.
pub fn plan_update(target: Result<String, String>, version: &str) -> (r: Result<
    UpdateRequest,
    String,
>)
    ensures
        match (target, r) {
            (Ok(target), Ok(request)) => asks_for(request, target@, version@),
            (Err(error), Err(reason)) => reason == error,
            _ => false,
        },
{
    match target {
        Ok(target) => Ok(
            UpdateRequest {
                repo_owner: "philn".to_owned(),
                repo_name: "glide".to_owned(),
                bin_name: "glide".to_owned(),
                target,
                current_version: version.to_owned(),
            },
        ),
        Err(error) => Err(error),
    }
}

/// What the search for a release does next.
#[derive(Debug, PartialEq, Eq)]
pub enum UpdateStep {
    /// Set up an updater for the release.
    Configure(UpdateRequest),
    /// Make the updater ready.
    Build,
    /// Let the updater look for the release, and install it.
    Run,
    /// The search is over.
    Finish(Result<UpdateStatus, String>),
}

/// What came of a step of the search.
#[derive(Debug, PartialEq, Eq)]
pub enum UpdateEvent {
    /// The release to look for is known, or there is none for this machine.
    Planned(Result<UpdateRequest, String>),
    /// Whether an updater could be set up.
    Configured(bool),
    Built(Result<(), String>),
    Ran(Result<UpdateStatus, String>),
}

/// `step` is what the search does about `event`. Where no updater can be set up, the search ends as
/// if there were no newer release; any other error ends it with that error.
pub open spec fn follows(event: UpdateEvent, step: UpdateStep) -> bool {
    match event {
        UpdateEvent::Planned(Ok(request)) => step == UpdateStep::Configure(request),
        UpdateEvent::Planned(Err(error)) => step == UpdateStep::Finish(Err(error)),
        UpdateEvent::Configured(true) => step == UpdateStep::Build,
        UpdateEvent::Configured(false) => is_up_to_date(step),
        UpdateEvent::Built(Ok(_)) => step == UpdateStep::Run,
        UpdateEvent::Built(Err(error)) => step == UpdateStep::Finish(Err(error)),
        UpdateEvent::Ran(result) => step == UpdateStep::Finish(result),
    }
}

/// The search is over, without a newer release and without a version to name.
pub open spec fn is_up_to_date(step: UpdateStep) -> bool {
    step matches UpdateStep::Finish(Ok(UpdateStatus::UpToDate(version))) && version@ == "OK"@
}

/// What the search does about the outcome of its last step.
pub fn next_step(event: UpdateEvent) -> (step: UpdateStep)
    ensures
        follows(event, step),
{
    match event {
        UpdateEvent::Planned(Ok(request)) => UpdateStep::Configure(request),
        UpdateEvent::Planned(Err(error)) => UpdateStep::Finish(Err(error)),
        UpdateEvent::Configured(true) => UpdateStep::Build,
        UpdateEvent::Configured(false) => UpdateStep::Finish(
            Ok(UpdateStatus::UpToDate("OK".to_owned())),
        ),
        UpdateEvent::Built(Ok(_)) => UpdateStep::Run,
        UpdateEvent::Built(Err(error)) => UpdateStep::Finish(Err(error)),
        UpdateEvent::Ran(result) => UpdateStep::Finish(result),
    }
}

/// What comes of `step` where the updater answers as given.
pub open spec fn answer(
    step: UpdateStep,
    configured: bool,
    built: Result<(), String>,
    ran: Result<UpdateStatus, String>,
) -> UpdateEvent {
    match step {
        UpdateStep::Configure(_) => UpdateEvent::Configured(configured),
        UpdateStep::Build => UpdateEvent::Built(built),
        _ => UpdateEvent::Ran(ran),
    }
}

/// `steps` are the steps of a whole search, from what was planned to its end, where the updater
/// answers as given.
pub open spec fn is_search(
    steps: Seq<UpdateStep>,
    planned: Result<UpdateRequest, String>,
    configured: bool,
    built: Result<(), String>,
    ran: Result<UpdateStatus, String>,
) -> bool {
    &&& steps.len() > 0
    &&& follows(UpdateEvent::Planned(planned), steps[0])
    &&& forall|i: int, j: int|
        0 <= i && j == i + 1 && j < steps.len() ==> #[trigger] steps[i] !is Finish && follows(
            answer(steps[i], configured, built, ran),
            #[trigger] steps[j],
        )
    &&& steps.last() is Finish
}

/// A search ends with the error of the machine where it is unknown; else as if there were no newer
/// release where no updater can be set up; else with the error of making the updater ready; else
/// as the updater says. It sets up an updater only for what was planned, and lets it run only where
/// nothing failed before.
pub proof fn law_update_search(
    steps: Seq<UpdateStep>,
    planned: Result<UpdateRequest, String>,
    configured: bool,
    built: Result<(), String>,
    ran: Result<UpdateStatus, String>,
)
    requires
        is_search(steps, planned, configured, built, ran),
    ensures
        match (planned, configured, built) {
            (Err(error), _, _) => steps.last() == UpdateStep::Finish(Err(error)),
            (Ok(_), false, _) => is_up_to_date(steps.last()),
            (Ok(_), true, Err(error)) => steps.last() == UpdateStep::Finish(Err(error)),
            (Ok(_), true, Ok(_)) => steps.last() == UpdateStep::Finish(ran),
        },
        forall|i: int|
            0 <= i < steps.len() && #[trigger] steps[i] is Configure ==> planned == Ok::<
                UpdateRequest,
                String,
            >(steps[i]->Configure_0),
        forall|i: int|
            0 <= i < steps.len() && #[trigger] steps[i] is Build ==> planned is Ok && configured,
        steps.contains(UpdateStep::Run) <==> planned is Ok && configured && built is Ok,
        steps.len() <= 4,
{
    let (first, second, third, fourth, fifth) = (steps[0], steps[1], steps[2], steps[3], steps[4]);
}

/// What is said about a search: nothing where there is no newer release.
pub open spec fn update_commands(result: Result<UpdateStatus, String>) -> Seq<CommandView> {
    match result {
        Ok(UpdateStatus::UpToDate(_)) => seq![],
        Ok(UpdateStatus::Updated(version)) => seq![
            CommandView::Print("Update succeeded: "@ + ("Updated("@ + version@ + ")"@)),
        ],
        Err(error) => seq![CommandView::PrintError("Update failed: "@ + error@)],
    }
}

/// What is said about a search: nothing where there is no newer release.
pub fn report_update(result: Result<UpdateStatus, String>) -> (commands: Vec<Command>)
    ensures
        commands.deep_view() == update_commands(result),
{
    let mut commands: Vec<Command> = Vec::new();
    match result {
        Ok(UpdateStatus::UpToDate(_)) => {},
        Ok(UpdateStatus::Updated(version)) => {
            let status = updated_text(version);
            commands.push(Command::Print(text::join("Update succeeded: ", status.as_str())));
        },
        Err(error) => {
            commands.push(Command::PrintError(text::join("Update failed: ", error.as_str())));
        },
    }
    assert(commands.deep_view() =~= update_commands(result));
    commands
}

impl VideoPlayer {
    /// The release to look for on this machine that runs `version` of this program, or the error
    /// where the machine is unknown.
    pub fn check_update(&self, version: &str) -> (r: Result<UpdateRequest, String>)
        ensures
            match r {
                Ok(request) => is_target(request.target@) && asks_for(
                    request,
                    request.target@,
                    version@,
                ),
                Err(error) => is_target_error(error@),
            },
    {
        plan_update(release_target(), version)
    }
}

/// A request names the program where it is published, the machine and the version, in one way.
pub proof fn law_update_request(request: UpdateRequest, target: Seq<char>, version: Seq<char>)
    requires
        asks_for(request, target, version),
    ensures
        request.repo_owner@ == seq!['p', 'h', 'i', 'l', 'n'],
        request.repo_name@ == seq!['g', 'l', 'i', 'd', 'e'],
        request.bin_name@ == request.repo_name@,
        request.target@ == target,
        request.current_version@ == version,
{
    reveal_strlit("philn");
    reveal_strlit("glide");
    assert("philn"@ =~= seq!['p', 'h', 'i', 'l', 'n']);
    assert("glide"@ =~= seq!['g', 'l', 'i', 'd', 'e']);
}

/// Exactly a search that installed something or failed is spoken of, in one line that ends with
/// the version in brackets, or with the error.
pub proof fn law_update_is_reported(result: Result<UpdateStatus, String>)
    ensures
        match result {
            Ok(UpdateStatus::UpToDate(_)) => update_commands(result).len() == 0,
            Ok(UpdateStatus::Updated(version)) => update_commands(result) == seq![
                CommandView::Print("Update succeeded: Updated("@ + version@ + ")"@),
            ],
            Err(error) => update_commands(result) == seq![
                CommandView::PrintError("Update failed: "@ + error@),
            ],
        },
{
    reveal_strlit("Update succeeded: ");
    reveal_strlit("Updated(");
    reveal_strlit("Update succeeded: Updated(");
    assert("Update succeeded: "@ + "Updated("@ =~= "Update succeeded: Updated("@);
    if let Ok(UpdateStatus::Updated(version)) = result {
        assert("Update succeeded: "@ + ("Updated("@ + version@ + ")"@)
            =~= "Update succeeded: Updated("@ + version@ + ")"@);
    }
}

/// How far a search has come when something comes of one of its steps.
pub open spec fn stage(event: UpdateEvent) -> int {
    match event {
        UpdateEvent::Planned(_) => 0,
        UpdateEvent::Configured(_) => 1,
        UpdateEvent::Built(_) => 2,
        UpdateEvent::Ran(_) => 3,
    }
}

/// A search goes on by one stage at a time, and what the updater says ends it.
pub proof fn law_update_search_goes_on(
    event: UpdateEvent,
    step: UpdateStep,
    configured: bool,
    built: Result<(), String>,
    ran: Result<UpdateStatus, String>,
)
    requires
        follows(event, step),
    ensures
        step !is Finish ==> stage(answer(step, configured, built, ran)) == stage(event) + 1,
        stage(event) == 3 ==> step is Finish,
{
}

} // verus!
