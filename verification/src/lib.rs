//! The decision logic of a desktop shell that hosts a local web server in an
//! embedded browser window, together with the logic of its installer.

mod text;
pub mod paths;
pub mod workspace;
pub mod settings;
pub mod window;
pub mod shell;
pub mod webview;
pub mod installer;

pub use installer::installed_exe_path;
pub use workspace::requested_workspace;
