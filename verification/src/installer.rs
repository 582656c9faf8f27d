//! The installer's logic: where the application goes, how the bundled
//! setup program is invoked, what its exit means, and which installed
//! executable to start afterwards.

use vstd::prelude::*;
use crate::paths::{answered, join_path, joined, names_existing_path, path_join_ok, plain_component, verbatim_path};
use crate::text::{owned, push_decimal, push_signed_decimal, decimal, signed_decimal, same_text, trim, trimmed};

verus! {

/// The product's name, which is also the name of its installation folder.
pub open spec fn product_name() -> Seq<char> {
    "DeepSeek Harness Desktop"@
}

/// The installer's version.
pub open spec fn installer_version() -> Seq<char> {
    "1.5.0"@
}

/// The file name of the installed executable.
pub open spec fn app_exe_name() -> Seq<char> {
    "dsh-desktop.exe"@
}

/// The folder that per-machine installs go under when the environment names
/// none.
pub open spec fn default_program_files() -> Seq<char> {
    "C:\\Program Files"@
}

/// The two environment settings that the install location depends on.
#[derive(Debug, Clone, PartialEq, Eq)]
pub struct InstallEnv {
    /// `PROGRAMFILES`, when set.
    pub program_files: Option<String>,
    /// `LOCALAPPDATA`, when set.
    pub local_app_data: Option<String>,
}

impl InstallEnv {
    pub open spec fn model(&self) -> (Option<Seq<char>>, Option<Seq<char>>) {
        (self.program_files.deep_view(), self.local_app_data.deep_view())
    }
}

/// `r` is the folder that installs in `mode` go under: for `perMachine` the
/// program files folder (`C:\Program Files` when unset); for any other mode
/// `Programs` in the local application data folder (`.` when unset).
pub open spec fn install_root_ok(
    mode: Seq<char>,
    env: (Option<Seq<char>>, Option<Seq<char>>),
    r: Seq<char>,
) -> bool {
    if mode == "perMachine"@ {
        r == match env.0 {
            Some(p) => p,
            None => default_program_files(),
        }
    } else {
        joined(
            match env.1 {
                Some(l) => l,
                None => "."@,
            },
            "Programs"@,
            r,
        )
    }
}

/// `r` is the path of the executable of an install in `mode` at the default
/// location: the product folder under the install root, and the executable
/// in it.
pub open spec fn installed_exe_ok(
    mode: Seq<char>,
    env: (Option<Seq<char>>, Option<Seq<char>>),
    r: Seq<char>,
) -> bool {
    exists|root: Seq<char>, folder: Seq<char>|
        {
            &&& install_root_ok(mode, env, root)
            &&& joined(root, product_name(), folder)
            &&& joined(folder, app_exe_name(), r)
        }
}

proof fn lemma_constant_components()
    ensures
        plain_component("Programs"@),
        plain_component(product_name()),
        plain_component(app_exe_name()),
{
    reveal_strlit("Programs");
    reveal_strlit("DeepSeek Harness Desktop");
    reveal_strlit("dsh-desktop.exe");
}

/// The folder that installs in `mode` go under.
pub fn install_root_for_mode(mode: &str, env: &InstallEnv) -> (r: String)
    ensures
        install_root_ok(mode@, env.model(), r@),
{
    proof {
        lemma_constant_components();
    }
    if same_text(mode, "perMachine") {
        match &env.program_files {
            Some(p) => p.clone(),
            None => owned("C:\\Program Files"),
        }
    } else {
        let base = match &env.local_app_data {
            Some(l) => l.clone(),
            None => owned("."),
        };
        join_path(base.as_str(), "Programs")
    }
}

/// The executable of an install in `mode` at the default location.
pub fn installed_exe_path(mode: &str, env: &InstallEnv) -> (r: String)
    ensures
        installed_exe_ok(mode@, env.model(), r@),
{
    proof {
        lemma_constant_components();
    }
    let root = install_root_for_mode(mode, env);
    let folder = join_path(root.as_str(), "DeepSeek Harness Desktop");
    let exe = join_path(folder.as_str(), "dsh-desktop.exe");
    assert(install_root_ok(mode@, env.model(), root@) && joined(root@, product_name(), folder@)
        && joined(folder@, app_exe_name(), exe@));
    exe
}

/// Law: the folder that `installed_exe_path` puts the executable in is the
/// installer's default install folder (`installer_info`: the root, a
/// backslash, the product name), up to the platform's separator, which is
/// not doubled when the root already ends in one (or in a drive colon);
/// this holds for every root that is not empty and has no verbatim prefix.
pub proof fn law_default_folder_holds_the_installed_exe(
    mode: Seq<char>,
    env: (Option<Seq<char>>, Option<Seq<char>>),
    root: Seq<char>,
    folder: Seq<char>,
)
    requires
        install_root_ok(mode, env, root),
        joined(root, product_name(), folder),
        !verbatim_path(root),
        root.len() > 0,
    ensures
        folder == root + "\\"@ + product_name() || folder == root + "/"@ + product_name() || ((
        root.last() == '/' || root.last() == '\\' || root.last() == ':') && folder == root
            + product_name()),
{
    reveal_strlit("\\");
    reveal_strlit("/");
    assert("\\"@ =~= seq!['\\']);
    assert("/"@ =~= seq!['/']);
}

/// What the installer window shows before installing.
#[derive(Debug, Clone, PartialEq, Eq)]
pub struct InstallerInfo {
    pub product: String,
    pub version: String,
    pub default_install_path: String,
}

/// The installer's product name, version and default install folder for
/// `mode` (`currentUser` when none is given): the install root, a
/// backslash, and the product name.
pub fn installer_info(mode: Option<String>, env: &InstallEnv) -> (r: InstallerInfo)
    ensures
        r.product@ == product_name(),
        r.version@ == installer_version(),
        exists|root: Seq<char>|
            {
                &&& install_root_ok(
                    match mode {
                        Some(m) => m@,
                        None => "currentUser"@,
                    },
                    env.model(),
                    root,
                )
                &&& r.default_install_path@ == root + "\\"@ + product_name()
            },
{
    let mode_text = match mode {
        Some(m) => m,
        None => owned("currentUser"),
    };
    let root = install_root_for_mode(mode_text.as_str(), env);
    let mut path = root.clone();
    path.append("\\");
    path.append("DeepSeek Harness Desktop");
    assert(install_root_ok(mode_text@, env.model(), root@));
    InstallerInfo {
        product: owned("DeepSeek Harness Desktop"),
        version: owned("1.5.0"),
        default_install_path: path,
    }
}

/// Why installing or launching failed.
#[derive(Debug, Clone, PartialEq, Eq)]
pub enum InstallError {
    /// The install scope is neither `currentUser` nor `perMachine`.
    InvalidScope,
    /// No install folder was chosen.
    MissingDirectory,
    /// The setup program exited unsuccessfully, with this code (`-1` when it
    /// gave none).
    SetupFailed(i32),
    /// Nothing has been installed in this session.
    MissingInstallInfo,
    /// No installed executable was found for the folder installed to.
    InstalledAppNotFound(String),
}

pub open spec fn install_error_text(e: InstallError) -> Seq<char> {
    match e {
        InstallError::InvalidScope => "无效的安装范围"@,
        InstallError::MissingDirectory => "请选择安装目录"@,
        InstallError::SetupFailed(code) => "安装程序退出，代码："@ + signed_decimal(code as int),
        InstallError::MissingInstallInfo => "找不到安装信息"@,
        InstallError::InstalledAppNotFound(path) => "找不到已安装的应用："@ + path@,
    }
}

impl InstallError {
    /// The text shown to the user for this error.
    pub fn message(&self) -> (r: String)
        ensures
            r@ == install_error_text(*self),
    {
        match self {
            InstallError::InvalidScope => owned("无效的安装范围"),
            InstallError::MissingDirectory => owned("请选择安装目录"),
            InstallError::SetupFailed(code) => {
                let mut s = owned("安装程序退出，代码：");
                push_signed_decimal(&mut s, *code as i64);
                s
            },
            InstallError::MissingInstallInfo => owned("找不到安装信息"),
            InstallError::InstalledAppNotFound(path) => {
                let mut s = owned("找不到已安装的应用：");
                s.append(path.as_str());
                s
            },
        }
    }
}

/// An install request that passed the checks.
#[derive(Debug, Clone, PartialEq, Eq)]
pub struct InstallRequest {
    /// The folder to install to, trimmed.
    pub target: String,
    /// Whether the install is for every user of the machine.
    pub per_machine: bool,
}

pub open spec fn install_request_outcome(path: Seq<char>, mode: Seq<char>) -> Result<
    (Seq<char>, bool),
    InstallError,
> {
    if mode != "currentUser"@ && mode != "perMachine"@ {
        Err(InstallError::InvalidScope)
    } else if trimmed(path).len() == 0 {
        Err(InstallError::MissingDirectory)
    } else {
        Ok((trimmed(path), mode == "perMachine"@))
    }
}

/// Checks an install request: the scope must be `currentUser` or
/// `perMachine`, and the folder, trimmed, must not be empty.
pub fn validate_install_request(path: &str, mode: &str) -> (r: Result<InstallRequest, InstallError>)
    ensures
        match install_request_outcome(path@, mode@) {
            Ok((t, m)) => r matches Ok(req) && req.target@ == t && req.per_machine == m,
            Err(e) => r == Err::<InstallRequest, InstallError>(e),
        },
{
    let current_user = same_text(mode, "currentUser");
    let per_machine = same_text(mode, "perMachine");
    if !current_user && !per_machine {
        return Err(InstallError::InvalidScope);
    }
    let target = trim(path);
    if target.unicode_len() == 0 {
        return Err(InstallError::MissingDirectory);
    }
    Ok(InstallRequest { target, per_machine })
}

pub open spec fn setup_arguments_of(target: Seq<char>, per_machine: bool) -> Seq<Seq<char>> {
    seq![
        "/S"@,
        if per_machine {
            "/ALLUSERS"@
        } else {
            "/CURRENTUSER"@
        },
        "/D="@ + target,
    ]
}

/// The command line of the bundled setup program: silent, for all users or
/// the current one, into the target folder.
pub fn setup_arguments(request: &InstallRequest) -> (r: Vec<String>)
    ensures
        r@.map_values(|a: String| a@) == setup_arguments_of(request.target@, request.per_machine),
{
    let mut args: Vec<String> = Vec::new();
    args.push(owned("/S"));
    if request.per_machine {
        args.push(owned("/ALLUSERS"));
    } else {
        args.push(owned("/CURRENTUSER"));
    }
    let mut dest = owned("/D=");
    dest.append(request.target.as_str());
    args.push(dest);
    assert(args@.map_values(|a: String| a@) =~= setup_arguments_of(
        request.target@,
        request.per_machine,
    ));
    args
}

pub open spec fn setup_outcome_of(success: bool, code: Option<i32>) -> Result<(), InstallError> {
    if success {
        Ok(())
    } else {
        Err(
            InstallError::SetupFailed(
                match code {
                    Some(c) => c,
                    None => -1i32,
                },
            ),
        )
    }
}

/// What the setup program's exit means: success, or a failure that
/// reports its exit code (`-1` when it gave none).
pub fn setup_outcome(success: bool, code: Option<i32>) -> (r: Result<(), InstallError>)
    ensures
        r == setup_outcome_of(success, code),
{
    if success {
        Ok(())
    } else {
        let c: i32 = match code {
            Some(c) => c,
            None => -1,
        };
        Err(InstallError::SetupFailed(c))
    }
}

/// The file name under which the setup program is unpacked for the
/// installer process `pid`.
pub fn payload_file_name(pid: u32) -> (r: String)
    ensures
        r@ == "dsh-desktop-payload-"@ + decimal(pid as nat) + ".exe"@,
{
    let mut name = owned("dsh-desktop-payload-");
    push_decimal(&mut name, pid as u64);
    name.append(".exe");
    name
}

/// Where and how the application was installed in this session.
#[derive(Debug, Clone, PartialEq, Eq)]
pub struct InstallSelection {
    /// The folder installed to.
    pub target: String,
    /// The install scope.
    pub mode: String,
}

/// Which executable to start, given whether each candidate exists: the one
/// in the folder installed to, else the one at the default location for
/// the scope, else neither.
pub fn choose_installed_app(
    target: &str,
    selected_exe: String,
    selected_exists: bool,
    default_exe: String,
    default_exists: bool,
) -> (r: Result<String, InstallError>)
    ensures
        selected_exists ==> r == Ok::<String, InstallError>(selected_exe),
        !selected_exists && default_exists ==> r == Ok::<String, InstallError>(default_exe),
        !selected_exists && !default_exists ==> (r matches Err(
            InstallError::InstalledAppNotFound(p),
        ) && p@ == target@),
{
    if selected_exists {
        Ok(selected_exe)
    } else if default_exists {
        Ok(default_exe)
    } else {
        Err(InstallError::InstalledAppNotFound(owned(target)))
    }
}

/// `r` is what starting the installed application finds for the install
/// `sel`, going by the answers of `ask` for whether a file exists: the
/// executable in the folder installed to if it was answered `true`; else,
/// that one having been answered `false`, the executable at the default
/// location for the scope if that was answered `true`; else, both having
/// been answered `false`, the error naming the folder installed to.
pub open spec fn installed_app_found<F: Fn(&String) -> bool>(
    sel: InstallSelection,
    env: (Option<Seq<char>>, Option<Seq<char>>),
    ask: F,
    r: Result<String, InstallError>,
) -> bool {
    match r {
        Ok(p) => {
            &&& answered(ask, p, true)
            &&& {
                ||| joined(sel.target@, app_exe_name(), p@)
                ||| installed_exe_ok(sel.mode@, env, p@) && exists|q: String|
                    joined(sel.target@, app_exe_name(), q@) && #[trigger] answered(ask, q, false)
            }
        },
        Err(InstallError::InstalledAppNotFound(t)) => {
            &&& t@ == sel.target@
            &&& exists|q: String, d: String|
                {
                    &&& joined(sel.target@, app_exe_name(), q@)
                    &&& installed_exe_ok(sel.mode@, env, d@)
                    &&& #[trigger] answered(ask, q, false)
                    &&& #[trigger] answered(ask, d, false)
                }
        },
        Err(_) => false,
    }
}

/// The installed executable to start, going by `ask` for whether a file
/// exists: the one in the folder installed to if it exists there, else the
/// one at the default location for the scope if that exists; with no
/// install recorded, the error saying so.
pub fn find_installed_app_by<F: Fn(&String) -> bool>(
    selection: Option<InstallSelection>,
    env: &InstallEnv,
    ask: F,
) -> (r: Result<String, InstallError>)
    requires
        forall|s: &String| #[trigger] ask.requires((s,)),
    ensures
        selection is None ==> r == Err::<String, InstallError>(InstallError::MissingInstallInfo),
        selection matches Some(sel) ==> installed_app_found(sel, env.model(), ask, r),
{
    proof {
        lemma_constant_components();
    }
    match selection {
        None => Err(InstallError::MissingInstallInfo),
        Some(sel) => {
            let default_exe = installed_exe_path(sel.mode.as_str(), env);
            let selected_exe = join_path(sel.target.as_str(), "dsh-desktop.exe");
            let selected_exists = ask(&selected_exe);
            let default_exists = if selected_exists {
                false
            } else {
                ask(&default_exe)
            };
            proof {
                assert(selected_exists ==> answered(ask, selected_exe, true));
                assert(!selected_exists ==> answered(ask, selected_exe, false));
                assert(!selected_exists ==> answered(ask, default_exe, default_exists));
            }
            choose_installed_app(
                sel.target.as_str(),
                selected_exe,
                selected_exists,
                default_exe,
                default_exists,
            )
        },
    }
}

/// The installed executable to start: the one in the folder installed to if
/// the file system says it exists, else the one at the default location for
/// the scope if the file system says that exists; with no install recorded,
/// the error saying so.
pub fn find_installed_app(selection: Option<InstallSelection>, env: &InstallEnv) -> (r: Result<
    String,
    InstallError,
>)
    ensures
        selection is None ==> r == Err::<String, InstallError>(InstallError::MissingInstallInfo),
        selection matches Some(sel) ==> installed_app_found(sel, env.model(), names_existing_path, r),
{
    find_installed_app_by(selection, env, names_existing_path)
}

} // verus!
