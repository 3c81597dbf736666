use vstd::prelude::*;

pub mod install;
pub mod laws;
pub mod list;
pub mod paths;
mod sys;

pub use crate::install::copy_decision;
pub use crate::install::get_destination_file;
pub use crate::install::get_s4dir;
pub use crate::install::get_sendto_dir;
pub use crate::install::install;
pub use crate::install::install_cli;
pub use crate::install::install_copy;
pub use crate::install::install_lnk;
pub use crate::install::install_pwsh;
pub use crate::install::install_sendto;
pub use crate::install::install_symlink;
pub use crate::install::pwsh_decision;
pub use crate::install::registry_gate;
pub use crate::install::shortcut_decision;
pub use crate::install::symlink_decision;
pub use crate::install::InstallAction;
pub use crate::install::InstallError;
pub use crate::install::ShortcutSpec;
pub use crate::list::get_installed_programs;
pub use crate::list::get_program_exts;
pub use crate::list::is_program_file;
pub use crate::list::program_exts_with_defaults;
pub use crate::list::LinkStatus;
pub use crate::list::ScanEntry;

verus! {

/// The four ways a program can be installed into a registry directory.
#[derive(Debug, PartialEq, Eq, Structural, Clone, Copy)]
pub enum InstallType {
    Copy,
    Lnk,
    Sym,
    Pwsh,
}

/// The two registries a program can be installed into: a directory meant to
/// be put on the shell search path, or the file manager's "Send To" menu.
#[derive(Debug, PartialEq, Eq, Structural, Clone, Copy)]
pub enum InstallRegistry {
    Cli,
    SendTo,
}

} // verus!
