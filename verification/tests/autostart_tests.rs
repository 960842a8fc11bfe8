use grok_overlay::autostart::{
    is_benign_disable_error, is_benign_lowercase, launch_at_login_begin, launch_at_login_next,
    AutostartCall, AutostartReply, AutostartStep,
};

fn finished(step: AutostartStep) -> Result<(), String> {
    match step {
        AutostartStep::Finished(r) => r,
        AutostartStep::Call(c) => panic!("expected the end, got a call {:?}", c),
    }
}

fn call(step: AutostartStep) -> AutostartCall {
    match step {
        AutostartStep::Call(c) => c,
        AutostartStep::Finished(r) => panic!("expected a call, got {:?}", r),
    }
}

#[test]
fn enabling_registers_directly() {
    assert_eq!(call(launch_at_login_begin(true)), AutostartCall::Enable);
    assert_eq!(finished(launch_at_login_next(AutostartReply::Enabled(Ok(())))), Ok(()));
    assert_eq!(
        finished(launch_at_login_next(AutostartReply::Enabled(Err("denied".to_string())))),
        Err("Unable to enable launch at login: denied".to_string())
    );
}

#[test]
fn disabling_asks_first() {
    assert_eq!(call(launch_at_login_begin(false)), AutostartCall::QueryEnabled);
    assert_eq!(finished(launch_at_login_next(AutostartReply::Queried(Ok(false)))), Ok(()));
    assert_eq!(call(launch_at_login_next(AutostartReply::Queried(Ok(true)))), AutostartCall::Disable);
    assert_eq!(
        call(launch_at_login_next(AutostartReply::Queried(Err("unknown".to_string())))),
        AutostartCall::Disable
    );
    assert_eq!(finished(launch_at_login_next(AutostartReply::Disabled(Ok(())))), Ok(()));
}

#[test]
fn missing_registration_is_not_an_error() {
    for e in [
        "The system cannot find the file specified. (os error 2)",
        "Launch agent NOT FOUND",
        "Cannot Find key",
        "No such file or directory (os error 2)",
    ] {
        assert!(is_benign_disable_error(e), "{e}");
        assert_eq!(finished(launch_at_login_next(AutostartReply::Disabled(Err(e.to_string())))), Ok(()));
    }
}

#[test]
fn other_disable_errors_are_reported() {
    assert!(!is_benign_disable_error("Access is denied. (os error 5)"));
    assert_eq!(
        finished(launch_at_login_next(AutostartReply::Disabled(Err("Access is denied. (os error 5)".to_string())))),
        Err("Unable to disable launch at login: Access is denied. (os error 5)".to_string())
    );
}

#[test]
fn lowercase_check_is_exact() {
    assert!(is_benign_lowercase("key not found"));
    assert!(!is_benign_lowercase("key NOT FOUND"));
    assert!(is_benign_lowercase("cannot find"));
    assert!(is_benign_lowercase("x (os error 2)"));
    assert!(is_benign_lowercase("os error 22"));
    assert!(!is_benign_lowercase("os error"));
}

/// A plugin that does what it is asked, run to the end.
fn run(target: bool, registered: &mut bool) -> (Result<(), String>, usize) {
    let mut step = launch_at_login_begin(target);
    let mut calls = 0;
    loop {
        match step {
            AutostartStep::Finished(r) => return (r, calls),
            AutostartStep::Call(c) => {
                calls += 1;
                let reply = match c {
                    AutostartCall::Enable => {
                        *registered = true;
                        AutostartReply::Enabled(Ok(()))
                    }
                    AutostartCall::QueryEnabled => AutostartReply::Queried(Ok(*registered)),
                    AutostartCall::Disable => {
                        *registered = false;
                        AutostartReply::Disabled(Ok(()))
                    }
                };
                step = launch_at_login_next(reply);
            }
        }
    }
}

#[test]
fn faithful_plugin_reaches_the_target() {
    for target in [false, true] {
        for start in [false, true] {
            let mut registered = start;
            let (r, calls) = run(target, &mut registered);
            assert_eq!(r, Ok(()));
            assert_eq!(registered, target);
            assert!(calls <= 2);
        }
    }
}
