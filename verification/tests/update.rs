use glide::command::Command;
use glide::player::VideoPlayer;
use glide::update::{
    next_step, plan_update, report_update, UpdateEvent, UpdateRequest, UpdateStatus, UpdateStep,
};

#[test]
fn the_release_to_look_for() {
    assert_eq!(
        plan_update(Ok("armv7-unknown-linux-gnu".to_string()), "0.5.5"),
        Ok(UpdateRequest {
            repo_owner: "philn".to_string(),
            repo_name: "glide".to_string(),
            bin_name: "glide".to_string(),
            target: "armv7-unknown-linux-gnu".to_string(),
            current_version: "0.5.5".to_string(),
        })
    );
    assert_eq!(plan_update(Err("unknown".to_string()), "0.5.5"), Err("unknown".to_string()));
}

#[test]
fn the_target_of_this_machine() {
    let (player, _) = VideoPlayer::new();
    let request = player.check_update("0.5.5");
    assert_eq!(
        request.map(|request| request.target),
        self_update::get_target().map_err(|error| error.to_string())
    );
}

fn request() -> UpdateRequest {
    plan_update(Ok("x86_64-apple-darwin".to_string()), "0.5.5").unwrap()
}

#[test]
fn steps_of_a_search() {
    assert_eq!(next_step(UpdateEvent::Planned(Ok(request()))), UpdateStep::Configure(request()));
    assert_eq!(
        next_step(UpdateEvent::Planned(Err("machine".to_string()))),
        UpdateStep::Finish(Err("machine".to_string()))
    );
    assert_eq!(next_step(UpdateEvent::Configured(true)), UpdateStep::Build);
    assert_eq!(
        next_step(UpdateEvent::Configured(false)),
        UpdateStep::Finish(Ok(UpdateStatus::UpToDate("OK".to_string())))
    );
    assert_eq!(next_step(UpdateEvent::Built(Ok(()))), UpdateStep::Run);
    assert_eq!(
        next_step(UpdateEvent::Built(Err("config".to_string()))),
        UpdateStep::Finish(Err("config".to_string()))
    );
    assert_eq!(
        next_step(UpdateEvent::Ran(Err("network".to_string()))),
        UpdateStep::Finish(Err("network".to_string()))
    );
}

/// The result of a search, and how many steps of the updater it took.
fn search(
    planned: Result<UpdateRequest, String>,
    configured: bool,
    built: Result<(), String>,
    ran: Result<UpdateStatus, String>,
) -> (Result<UpdateStatus, String>, u32) {
    let mut taken = 0;
    let mut step = next_step(UpdateEvent::Planned(planned));
    loop {
        let event = match step {
            UpdateStep::Configure(_) => UpdateEvent::Configured(configured),
            UpdateStep::Build => UpdateEvent::Built(built.clone()),
            UpdateStep::Run => match &ran {
                Ok(UpdateStatus::Updated(version)) => {
                    UpdateEvent::Ran(Ok(UpdateStatus::Updated(version.clone())))
                }
                Ok(UpdateStatus::UpToDate(version)) => {
                    UpdateEvent::Ran(Ok(UpdateStatus::UpToDate(version.clone())))
                }
                Err(error) => UpdateEvent::Ran(Err(error.clone())),
            },
            UpdateStep::Finish(result) => return (result, taken),
        };
        taken += 1;
        step = next_step(event);
    }
}

#[test]
fn how_a_search_ends() {
    let updated = || Ok(UpdateStatus::Updated("1.0".to_string()));
    assert_eq!(
        search(Err("machine".to_string()), true, Ok(()), updated()),
        (Err("machine".to_string()), 0)
    );
    assert_eq!(
        search(Ok(request()), false, Ok(()), updated()),
        (Ok(UpdateStatus::UpToDate("OK".to_string())), 1)
    );
    assert_eq!(
        search(Ok(request()), true, Err("config".to_string()), updated()),
        (Err("config".to_string()), 2)
    );
    assert_eq!(search(Ok(request()), true, Ok(()), updated()), (updated(), 3));
    assert_eq!(
        search(Ok(request()), true, Ok(()), Err("network".to_string())),
        (Err("network".to_string()), 3)
    );
}

#[test]
fn what_is_said_about_a_search() {
    assert_eq!(report_update(Ok(UpdateStatus::UpToDate("1.0".to_string()))), vec![]);
    assert_eq!(
        report_update(Ok(UpdateStatus::Updated("1.0".to_string()))),
        vec![Command::Print("Update succeeded: Updated(1.0)".to_string())]
    );
    assert_eq!(
        report_update(Err("NetworkError: down".to_string())),
        vec![Command::PrintError("Update failed: NetworkError: down".to_string())]
    );
}
