use std::path::PathBuf;

use dsh_desktop::installed_exe_path;
use dsh_desktop::installer::{
    choose_installed_app, find_installed_app, find_installed_app_by, install_root_for_mode, installer_info,
    payload_file_name, setup_arguments, setup_outcome, validate_install_request, InstallEnv,
    InstallError, InstallRequest, InstallSelection,
};

fn env(pf: Option<&str>, lad: Option<&str>) -> InstallEnv {
    InstallEnv {
        program_files: pf.map(|s| s.to_string()),
        local_app_data: lad.map(|s| s.to_string()),
    }
}

fn joined(parts: &[&str]) -> String {
    let mut p = PathBuf::from(parts[0]);
    for part in &parts[1..] {
        p = p.join(part);
    }
    p.to_string_lossy().into_owned()
}

#[test]
fn per_machine_root_is_program_files() {
    assert_eq!(install_root_for_mode("perMachine", &env(Some("D:\\Apps"), None)), "D:\\Apps");
    assert_eq!(install_root_for_mode("perMachine", &env(None, Some("x"))), "C:\\Program Files");
}

#[test]
fn current_user_root_is_under_local_app_data() {
    assert_eq!(
        install_root_for_mode("currentUser", &env(Some("p"), Some("base"))),
        joined(&["base", "Programs"])
    );
    assert_eq!(install_root_for_mode("anything", &env(None, None)), joined(&[".", "Programs"]));
}

#[test]
fn installed_exe_path_is_the_executable_in_the_product_folder() {
    assert_eq!(
        installed_exe_path("currentUser", &env(None, Some("base"))),
        joined(&["base", "Programs", "DeepSeek Harness Desktop", "dsh-desktop.exe"])
    );
    assert_eq!(
        installed_exe_path("perMachine", &env(Some("pf"), None)),
        joined(&["pf", "DeepSeek Harness Desktop", "dsh-desktop.exe"])
    );
}

#[test]
fn a_verbatim_root_keeps_its_prefix_and_ends_in_the_executable() {
    let exe = installed_exe_path("perMachine", &env(Some("\\\\?\\D:\\Apps"), None));
    assert!(exe.starts_with("\\\\?\\"));
    assert!(exe.ends_with("/dsh-desktop.exe") || exe.ends_with("\\dsh-desktop.exe"));
    let folder = exe[..exe.len() - "dsh-desktop.exe".len() - 1].to_string();
    assert!(folder.ends_with("DeepSeek Harness Desktop"));
}

#[test]
fn installer_info_defaults_to_the_current_user() {
    let info = installer_info(None, &env(None, Some("base")));
    assert_eq!(info.product, "DeepSeek Harness Desktop");
    assert_eq!(info.version, "1.5.0");
    assert_eq!(
        info.default_install_path,
        format!("{}\\DeepSeek Harness Desktop", joined(&["base", "Programs"]))
    );
    let info = installer_info(Some("perMachine".to_string()), &env(Some("C:\\PF"), None));
    assert_eq!(info.default_install_path, "C:\\PF\\DeepSeek Harness Desktop");
}

#[test]
fn install_requests_are_checked() {
    assert_eq!(validate_install_request("C:\\x", "everyone"), Err(InstallError::InvalidScope));
    assert_eq!(validate_install_request("   ", "everyone"), Err(InstallError::InvalidScope));
    assert_eq!(validate_install_request(" \t ", "currentUser"), Err(InstallError::MissingDirectory));
    assert_eq!(
        validate_install_request("  C:\\Apps\\DSH  ", "perMachine"),
        Ok(InstallRequest { target: "C:\\Apps\\DSH".to_string(), per_machine: true })
    );
    assert_eq!(
        validate_install_request("D:\\x", "currentUser"),
        Ok(InstallRequest { target: "D:\\x".to_string(), per_machine: false })
    );
}

#[test]
fn setup_arguments_follow_the_scope() {
    let req = InstallRequest { target: "C:\\Apps\\DSH".to_string(), per_machine: true };
    assert_eq!(setup_arguments(&req), vec!["/S", "/ALLUSERS", "/D=C:\\Apps\\DSH"]);
    let req = InstallRequest { target: "D:\\x y".to_string(), per_machine: false };
    assert_eq!(setup_arguments(&req), vec!["/S", "/CURRENTUSER", "/D=D:\\x y"]);
}

#[test]
fn setup_exit_codes() {
    assert_eq!(setup_outcome(true, Some(0)), Ok(()));
    assert_eq!(setup_outcome(false, Some(2)), Err(InstallError::SetupFailed(2)));
    assert_eq!(setup_outcome(false, None), Err(InstallError::SetupFailed(-1)));
    assert_eq!(InstallError::SetupFailed(-1).message(), "安装程序退出，代码：-1");
    assert_eq!(InstallError::SetupFailed(1223).message(), "安装程序退出，代码：1223");
    assert_eq!(
        InstallError::SetupFailed(i32::MIN).message(),
        "安装程序退出，代码：-2147483648"
    );
}

#[test]
fn install_error_messages() {
    assert_eq!(InstallError::InvalidScope.message(), "无效的安装范围");
    assert_eq!(InstallError::MissingDirectory.message(), "请选择安装目录");
    assert_eq!(InstallError::MissingInstallInfo.message(), "找不到安装信息");
    assert_eq!(
        InstallError::InstalledAppNotFound("D:\\x".to_string()).message(),
        "找不到已安装的应用：D:\\x"
    );
}

#[test]
fn payload_file_name_carries_the_process_id() {
    assert_eq!(payload_file_name(4242), "dsh-desktop-payload-4242.exe");
    assert_eq!(payload_file_name(0), "dsh-desktop-payload-0.exe");
}

#[test]
fn the_installed_folder_is_preferred() {
    let s = "a".to_string();
    let d = "b".to_string();
    assert_eq!(choose_installed_app("t", s.clone(), true, d.clone(), true), Ok(s.clone()));
    assert_eq!(choose_installed_app("t", s.clone(), false, d.clone(), true), Ok(d.clone()));
    assert_eq!(
        choose_installed_app("t", s, false, d, false),
        Err(InstallError::InstalledAppNotFound("t".to_string()))
    );
}

#[test]
fn launching_needs_an_install() {
    assert_eq!(find_installed_app(None, &env(None, None)), Err(InstallError::MissingInstallInfo));
    let sel = InstallSelection {
        target: "/definitely/not/installed/here".to_string(),
        mode: "currentUser".to_string(),
    };
    assert_eq!(
        find_installed_app(Some(sel), &env(None, Some("/definitely/not/a/base"))),
        Err(InstallError::InstalledAppNotFound("/definitely/not/installed/here".to_string()))
    );
}

#[test]
fn the_folder_installed_to_is_asked_first_and_preferred() {
    let sel = InstallSelection { target: "t".to_string(), mode: "perMachine".to_string() };
    let selected = joined(&["t", "dsh-desktop.exe"]);
    let default = joined(&["pf", "DeepSeek Harness Desktop", "dsh-desktop.exe"]);
    let asked = std::cell::RefCell::new(Vec::new());
    let both = |p: &String| {
        asked.borrow_mut().push(p.clone());
        true
    };
    assert_eq!(find_installed_app_by(Some(sel.clone()), &env(Some("pf"), None), both), Ok(selected.clone()));
    assert_eq!(asked.borrow().clone(), vec![selected.clone()]);

    let only_default = |p: &String| *p == default;
    assert_eq!(
        find_installed_app_by(Some(sel.clone()), &env(Some("pf"), None), only_default),
        Ok(default.clone())
    );
    assert_eq!(
        find_installed_app_by(Some(sel.clone()), &env(Some("pf"), None), |_: &String| false),
        Err(InstallError::InstalledAppNotFound("t".to_string()))
    );
    assert_eq!(
        find_installed_app_by(None, &env(Some("pf"), None), |_: &String| true),
        Err(InstallError::MissingInstallInfo)
    );
}
