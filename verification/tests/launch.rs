use release_installer::error::ErrorKind;
use release_installer::launch::launch_refused;
use release_installer::launch::plan_launch;

#[test]
fn absent_executable_is_not_found() {
    let error = plan_launch(false, Some("/data/game/GameApp.exe"), "/data/game/GameApp.exe").unwrap_err();
    assert_eq!(error.kind, ErrorKind::NotFound);
    assert_eq!(error.message, "Game executable not found at: /data/game/GameApp.exe");
}

#[test]
fn absent_executable_wins_over_an_invalid_path() {
    let error = plan_launch(false, None, "?").unwrap_err();
    assert_eq!(error.kind, ErrorKind::NotFound);
}

#[test]
fn present_executable_is_handed_to_the_host() {
    let path = plan_launch(true, Some("/data/game/GameApp.exe"), "shown").unwrap();
    assert_eq!(path, "/data/game/GameApp.exe");
}

#[test]
fn path_without_text_is_a_launch_error() {
    let error = plan_launch(true, None, "shown").unwrap_err();
    assert_eq!(error.kind, ErrorKind::Launch);
    assert_eq!(error.message, "Invalid path");
}

#[test]
fn refusal_of_the_host_is_a_launch_error() {
    let error = launch_refused("permission denied");
    assert_eq!(error.kind, ErrorKind::Launch);
    assert_eq!(error.message, "permission denied");
    assert_eq!(error.to_string(), "permission denied");
}
