use dsh_desktop::requested_workspace;
use dsh_desktop::workspace::{pick_workspace, requested_workspace_by, startup_workspace};

#[test]
fn ignores_a_nonexistent_path() {
    let args = vec![
        "dsh-desktop.exe".to_string(),
        "Z:\\definitely\\not\\a\\real\\path\\hopefully".to_string(),
    ];
    assert_eq!(requested_workspace(&args), None);
}

#[test]
fn no_args_beyond_the_exe_path_finds_nothing() {
    let args = vec!["dsh-desktop.exe".to_string()];
    assert_eq!(requested_workspace(&args), None);
}

#[test]
fn an_exe_path_inside_an_existing_directory_is_not_a_workspace() {
    let args = vec!["./dsh-desktop.exe".to_string()];
    assert_eq!(requested_workspace(&args), None);
}

#[test]
fn an_existing_directory_as_the_only_argument_is_not_a_workspace() {
    let args = vec![".".to_string()];
    assert_eq!(requested_workspace(&args), None);
}

#[test]
fn the_first_existing_directory_wins() {
    let args = vec![
        "dsh-desktop.exe".to_string(),
        "/definitely/not/a/real/path/hopefully".to_string(),
        ".".to_string(),
        "..".to_string(),
    ];
    assert_eq!(requested_workspace(&args), Some(".".to_string()));
}

#[test]
fn pick_workspace_takes_the_first_marked_argument_after_the_first() {
    let args = vec!["a".to_string(), "b".to_string(), "c".to_string(), "d".to_string()];
    assert_eq!(pick_workspace(&args, &[true, false, true, true]), Some("c".to_string()));
    assert_eq!(pick_workspace(&args, &[true, false, false, false]), None);
    assert_eq!(pick_workspace(&args, &[false, true, true, false]), Some("b".to_string()));
    assert_eq!(pick_workspace(&[], &[]), None);
}

#[test]
fn an_explicit_environment_setting_wins_over_arguments() {
    let args = vec!["dsh-desktop.exe".to_string(), ".".to_string()];
    assert_eq!(startup_workspace(true, &args), None);
    assert_eq!(startup_workspace(false, &args), Some(".".to_string()));
}

fn strings(items: &[&str]) -> Vec<String> {
    items.iter().map(|s| s.to_string()).collect()
}

#[test]
fn arguments_are_asked_in_turn_until_one_is_a_directory() {
    let args = strings(&["exe", "a", "b", "c", "d"]);
    let asked = std::cell::RefCell::new(Vec::new());
    let dirs = |s: &String| {
        asked.borrow_mut().push(s.clone());
        s == "c" || s == "d"
    };
    assert_eq!(requested_workspace_by(&args, dirs), Some("c".to_string()));
    assert_eq!(asked.borrow().clone(), strings(&["a", "b", "c"]));
    assert_eq!(requested_workspace_by(&args, |_: &String| false), None);
    assert_eq!(requested_workspace_by(&strings(&["exe"]), |_: &String| true), None);
    assert_eq!(requested_workspace_by(&[], |_: &String| true), None);
}

#[test]
fn the_executable_path_never_matters_when_asking() {
    let dirs = |s: &String| s == "x" || s == "w";
    let a = strings(&["x", "y", "w"]);
    let b = strings(&["z", "y", "w"]);
    assert_eq!(requested_workspace_by(&a, dirs), Some("w".to_string()));
    assert_eq!(requested_workspace_by(&a, dirs), requested_workspace_by(&b, dirs));
}

#[test]
fn appending_arguments_keeps_the_workspace_found() {
    let dirs = |s: &String| s == "w" || s == "v";
    let a = strings(&["exe", "y", "w"]);
    let b = strings(&["exe", "y", "w", "v"]);
    assert_eq!(requested_workspace_by(&a, dirs), Some("w".to_string()));
    assert_eq!(requested_workspace_by(&b, dirs), Some("w".to_string()));
}
