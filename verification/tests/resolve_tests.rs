use gvrunner::resolve::bundled_cli_path;
use gvrunner::resolve::cli_name;
use gvrunner::resolve::resolve_cli_path;

#[test]
fn platform_names() {
    assert_eq!(cli_name(false), "gvcore-cli");
    assert_eq!(cli_name(true), "gvcore-cli.exe");
}

#[test]
fn bundled_location() {
    assert_eq!(bundled_cli_path("/app", false), "/app/resources/gvcore-cli");
    assert_eq!(bundled_cli_path("/app", true), "/app/resources/gvcore-cli.exe");
}

#[test]
fn bundled_preferred_when_present() {
    assert_eq!(resolve_cli_path("/app", true, false), "/app/resources/gvcore-cli");
}

#[test]
fn falls_back_to_search_path() {
    assert_eq!(resolve_cli_path("/app", false, false), "gvcore-cli");
}
