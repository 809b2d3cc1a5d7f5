use devver_cli::update::{
    check_and_update, InstallMethod, UpdateAction, UpdateCheck, UpdateCommand, UpdateEvent,
    UpdateResult,
};

fn finish(message: &str) -> UpdateAction {
    UpdateAction::Finish(UpdateResult { message: message.to_string() })
}

fn fetching(current: &str, method: InstallMethod) -> UpdateCheck {
    UpdateCheck::Fetching { current: current.to_string(), method }
}

#[test]
fn detect_knows_homebrew_paths() {
    assert_eq!(InstallMethod::detect(Some("/opt/homebrew/bin/devver")), InstallMethod::Brew);
    assert_eq!(
        InstallMethod::detect(Some("/home/linuxbrew/.linuxbrew/bin/devver")),
        InstallMethod::Brew
    );
}

#[test]
fn detect_knows_cargo_paths() {
    assert_eq!(InstallMethod::detect(Some("/home/ada/.cargo/bin/devver")), InstallMethod::Cargo);
}

#[test]
fn detect_prefers_homebrew_over_cargo() {
    assert_eq!(InstallMethod::detect(Some("/opt/homebrew/.cargo/bin/devver")), InstallMethod::Brew);
}

#[test]
fn detect_gives_up_on_other_paths() {
    assert_eq!(InstallMethod::detect(Some("/usr/local/bin/devver")), InstallMethod::Unknown);
    assert_eq!(InstallMethod::detect(Some("/opt/homebrew")), InstallMethod::Unknown);
    assert_eq!(InstallMethod::detect(Some("")), InstallMethod::Unknown);
    assert_eq!(InstallMethod::detect(None), InstallMethod::Unknown);
}

#[test]
fn update_commands_per_install_method() {
    assert_eq!(
        InstallMethod::Brew.update_command(),
        Some(UpdateCommand {
            program: "brew".to_string(),
            args: vec!["upgrade".to_string(), "devver-cli".to_string()],
            env: Some(("HOMEBREW_NO_AUTO_UPDATE".to_string(), "1".to_string())),
        })
    );
    assert_eq!(
        InstallMethod::Cargo.update_command(),
        Some(UpdateCommand {
            program: "cargo".to_string(),
            args: vec![
                "install".to_string(),
                "devver-cli".to_string(),
                "--force".to_string(),
                "--quiet".to_string()
            ],
            env: None,
        })
    );
    assert_eq!(InstallMethod::Unknown.update_command(), None);
}

#[test]
fn unknown_install_method_skips_the_update() {
    let (state, action) =
        check_and_update(UpdateCheck::new("1.0.0"), UpdateEvent::Detected(InstallMethod::Unknown));
    assert_eq!(state, UpdateCheck::Done);
    assert_eq!(action, finish("Skipping auto-update (unknown install method)"));
}

#[test]
fn known_install_method_asks_for_the_latest_release() {
    let (state, action) =
        check_and_update(UpdateCheck::new("1.0.0"), UpdateEvent::Detected(InstallMethod::Cargo));
    assert_eq!(state, fetching("1.0.0", InstallMethod::Cargo));
    assert_eq!(action, UpdateAction::Fetch);
}

#[test]
fn failed_lookup_ends_the_check() {
    let (state, action) =
        check_and_update(fetching("1.0.0", InstallMethod::Brew), UpdateEvent::Fetched(None));
    assert_eq!(state, UpdateCheck::Done);
    assert_eq!(action, finish("Could not check for updates"));
}

#[test]
fn latest_release_needs_no_update() {
    let (state, action) = check_and_update(
        fetching("1.2.3", InstallMethod::Brew),
        UpdateEvent::Fetched(Some("v1.2.3".to_string())),
    );
    assert_eq!(state, UpdateCheck::Done);
    assert_eq!(action, finish("v1.2.3 (latest)"));
    let (_, action) = check_and_update(
        fetching("1.2.3", InstallMethod::Brew),
        UpdateEvent::Fetched(Some("1.2.3".to_string())),
    );
    assert_eq!(action, finish("v1.2.3 (latest)"));
}

#[test]
fn newer_release_runs_the_update() {
    let (state, action) = check_and_update(
        fetching("1.2.3", InstallMethod::Cargo),
        UpdateEvent::Fetched(Some("v1.3.0".to_string())),
    );
    assert_eq!(state, UpdateCheck::Updating { latest: "1.3.0".to_string() });
    assert_eq!(action, UpdateAction::Run(InstallMethod::Cargo));
}

#[test]
fn update_outcome_is_reported() {
    let updating = UpdateCheck::Updating { latest: "1.3.0".to_string() };
    let (state, action) = check_and_update(updating, UpdateEvent::Updated(true));
    assert_eq!(state, UpdateCheck::Done);
    assert_eq!(action, finish("Updated to v1.3.0 (will apply on next launch)"));
    let updating = UpdateCheck::Updating { latest: "1.3.0".to_string() };
    let (state, action) = check_and_update(updating, UpdateEvent::Updated(false));
    assert_eq!(state, UpdateCheck::Done);
    assert_eq!(action, finish("Update to v1.3.0 failed"));
}

#[test]
fn events_that_do_not_fit_are_ignored() {
    let (state, action) = check_and_update(UpdateCheck::new("1.0.0"), UpdateEvent::Updated(true));
    assert_eq!(state, UpdateCheck::new("1.0.0"));
    assert_eq!(action, UpdateAction::Ignore);
    let (state, action) = check_and_update(
        fetching("1.0.0", InstallMethod::Brew),
        UpdateEvent::Detected(InstallMethod::Cargo),
    );
    assert_eq!(state, fetching("1.0.0", InstallMethod::Brew));
    assert_eq!(action, UpdateAction::Ignore);
    let (state, action) = check_and_update(
        UpdateCheck::Updating { latest: "2".to_string() },
        UpdateEvent::Fetched(None),
    );
    assert_eq!(state, UpdateCheck::Updating { latest: "2".to_string() });
    assert_eq!(action, UpdateAction::Ignore);
    let (state, action) = check_and_update(UpdateCheck::Done, UpdateEvent::Fetched(None));
    assert_eq!(state, UpdateCheck::Done);
    assert_eq!(action, UpdateAction::Ignore);
}

#[test]
fn a_whole_check_from_detection_to_report() {
    let mut state = UpdateCheck::new("0.9.0");
    let mut event = UpdateEvent::Detected(InstallMethod::detect(Some("/opt/homebrew/bin/devver")));
    let mut steps = 0;
    let message = loop {
        steps += 1;
        let (next, action) = check_and_update(state, event);
        state = next;
        event = match action {
            UpdateAction::Fetch => UpdateEvent::Fetched(Some("v1.0.0".to_string())),
            UpdateAction::Run(method) => {
                assert_eq!(method, InstallMethod::Brew);
                UpdateEvent::Updated(true)
            }
            UpdateAction::Finish(result) => break result.message,
            UpdateAction::Ignore => panic!("no event is ignored in a well-run check"),
        };
    };
    assert_eq!(steps, 3);
    assert_eq!(message, "Updated to v1.0.0 (will apply on next launch)");
    assert_eq!(state, UpdateCheck::Done);
}
