//! Installation of a program into a registry directory.
//!
//! The four strategies are resolved here down to a single [`InstallAction`]:
//! the one filesystem mutation that completes the installation. Deriving the
//! destination path, validating the source, and choosing the action are all
//! verified; looking up directories, probing the filesystem and performing
//! the final write go through the collaborators in [`crate::sys`] and the
//! caller of the library.

use vstd::prelude::*;

use crate::paths::{
    destination_spec, join_spec, parent_spec, file_name_of, join_path, with_extension, parent_dir,
};
use crate::sys::{absolutize_path, home_dir_path, path_is_file, which_pwsh};
use crate::{InstallRegistry, InstallType};

verus! {

/// Why an installation failed.
#[derive(Debug, PartialEq, Eq, Structural, Clone, Copy)]
pub enum InstallError {
    /// The registry's backing directory could not be determined.
    AccessTargetDir,
    /// The source path does not name an existing regular file, or no file
    /// name can be extracted from it.
    NoProgram,
    /// The destination is already occupied (copy strategy only).
    AlreadyExists,
    /// A filesystem operation failed.
    FileIO,
    /// No PowerShell-core interpreter was found on the search path.
    NoInterpreter,
}

impl InstallError {
    /// A short label naming the error kind.
    pub fn label(&self) -> (r: &'static str)
        ensures
            *self is AccessTargetDir ==> r@ == "AccessTargetDir"@,
            *self is NoProgram ==> r@ == "NoProgram"@,
            *self is AlreadyExists ==> r@ == "AlreadyExists"@,
            *self is FileIO ==> r@ == "FileIO"@,
            *self is NoInterpreter ==> r@ == "NoInterpreter"@,
    {
        match self {
            InstallError::AccessTargetDir => "AccessTargetDir",
            InstallError::NoProgram => "NoProgram",
            InstallError::AlreadyExists => "AlreadyExists",
            InstallError::FileIO => "FileIO",
            InstallError::NoInterpreter => "NoInterpreter",
        }
    }
}

/// Everything a shell-shortcut artifact records.
#[derive(Debug, Clone)]
pub struct ShortcutSpec {
    /// The path the shortcut points at.
    pub target: String,
    /// The command-line arguments handed to the target, if any.
    pub arguments: Option<String>,
    /// The working directory the target starts in, if any.
    pub working_dir: Option<String>,
    /// Display metadata naming the installer that produced the shortcut.
    pub description: String,
    /// Whether the target's window starts minimized and non-activated.
    pub minimized: bool,
}

/// The one filesystem mutation that completes an installation.
#[derive(Debug, Clone)]
pub enum InstallAction {
    /// Copy the full byte contents of `source` to `dest`.
    CopyFile { source: String, dest: String },
    /// Write the shell-shortcut artifact `link` to `dest`.
    CreateShortcut { link: ShortcutSpec, dest: String },
    /// Create a symbolic link at `dest` pointing at `source`.
    CreateSymlink { source: String, dest: String },
}

/// The display metadata every shortcut produced by this installer carries.
pub open spec fn installer_mark() -> Seq<char> {
    "Installed by s4 installer v0.1.0"@
}

/// Derives the destination file for an installation into `s4dir`: the base
/// name is `name` when given, else the file name of `program`; the chosen
/// name is joined onto `s4dir`, and `extension` (when given) replaces any
/// extension the joined path carries.
pub fn get_destination_file(
    s4dir: &str,
    name: &Option<String>,
    program: &str,
    extension: Option<&str>,
) -> (r: Result<String, InstallError>)
    ensures
        r matches Ok(d) ==> Some(d@) == destination_spec(
            s4dir@,
            name.deep_view(),
            program@,
            extension.deep_view(),
        ),
        r is Ok <==> destination_spec(
            s4dir@,
            name.deep_view(),
            program@,
            extension.deep_view(),
        ) is Some,
        r matches Err(e) ==> e == InstallError::NoProgram,
{
    let base: String = match name {
        Some(n) => n.clone(),
        None => match file_name_of(program) {
            Some(f) => f,
            None => {
                return Err(InstallError::NoProgram);
            },
        },
    };
    let joined = join_path(s4dir, base.as_str());
    match extension {
        Some(ext) => Ok(with_extension(joined.as_str(), ext)),
        None => Ok(joined),
    }
}

/// The copy strategy's decision once the destination's occupancy is known:
/// an occupied destination is refused, a free one receives a byte copy.
pub fn copy_decision(program: &str, dest: &String, dest_is_file: bool) -> (r: Result<
    InstallAction,
    InstallError,
>)
    ensures
        dest_is_file ==> (r matches Err(e) && e == InstallError::AlreadyExists),
        !dest_is_file ==> (r matches Ok(a) && a matches InstallAction::CopyFile {
            source,
            dest: d,
        } && source@ == program@ && d@ == dest@),
{
    if dest_is_file {
        Err(InstallError::AlreadyExists)
    } else {
        Ok(InstallAction::CopyFile { source: program.to_owned(), dest: dest.clone() })
    }
}

/// The shortcut strategy's decision, given the absolutized source: a
/// shortcut pointing at the source, working in the source's directory,
/// written to the derived destination with the shortcut extension forced.
pub fn shortcut_decision(target_dir: &str, name: &Option<String>, program_abs: &str) -> (r: Result<
    InstallAction,
    InstallError,
>)
    ensures
        r is Ok <==> destination_spec(
            target_dir@,
            name.deep_view(),
            program_abs@,
            Some("lnk"@),
        ) is Some,
        r matches Err(e) ==> e == InstallError::NoProgram,
        r matches Ok(a) ==> (a matches InstallAction::CreateShortcut { link, dest } && {
            &&& link.target@ == program_abs@
            &&& link.arguments is None
            &&& link.working_dir.deep_view() == parent_spec(program_abs@)
            &&& link.description@ == installer_mark()
            &&& link.minimized == false
            &&& Some(dest@) == destination_spec(
                target_dir@,
                name.deep_view(),
                program_abs@,
                Some("lnk"@),
            )
        }),
{
    let dest = match get_destination_file(target_dir, name, program_abs, Some("lnk")) {
        Ok(d) => d,
        Err(e) => {
            return Err(e);
        },
    };
    let link = ShortcutSpec {
        target: program_abs.to_owned(),
        arguments: None,
        working_dir: parent_dir(program_abs),
        description: "Installed by s4 installer v0.1.0".to_owned(),
        minimized: false,
    };
    Ok(InstallAction::CreateShortcut { link, dest })
}

/// The symlink strategy's decision, given the absolutized source: a symbolic
/// link to the source at the derived destination, no extension forced.
pub fn symlink_decision(target_dir: &str, name: &Option<String>, program_abs: &str) -> (r: Result<
    InstallAction,
    InstallError,
>)
    ensures
        r is Ok <==> destination_spec(
            target_dir@,
            name.deep_view(),
            program_abs@,
            None,
        ) is Some,
        r matches Err(e) ==> e == InstallError::NoProgram,
        r matches Ok(a) ==> (a matches InstallAction::CreateSymlink { source, dest } && {
            &&& source@ == program_abs@
            &&& Some(dest@) == destination_spec(
                target_dir@,
                name.deep_view(),
                program_abs@,
                None,
            )
        }),
{
    let dest = match get_destination_file(target_dir, name, program_abs, None) {
        Ok(d) => d,
        Err(e) => {
            return Err(e);
        },
    };
    Ok(InstallAction::CreateSymlink { source: program_abs.to_owned(), dest })
}

/// The PowerShell-wrapper strategy's decision, given the absolutized source
/// and the outcome of the interpreter search: with no interpreter the
/// installation is refused; otherwise a minimized shortcut runs the
/// interpreter, profile-free, on the source.
pub fn pwsh_decision(
    target_dir: &str,
    name: &Option<String>,
    program_abs: &str,
    pwsh: &Option<String>,
) -> (r: Result<InstallAction, InstallError>)
    ensures
        pwsh is None ==> (r matches Err(e) && e == InstallError::NoInterpreter),
        pwsh is Some ==> (r is Ok <==> destination_spec(
            target_dir@,
            name.deep_view(),
            program_abs@,
            Some("lnk"@),
        ) is Some),
        r matches Err(e) ==> e == InstallError::NoProgram || e == InstallError::NoInterpreter,
        r matches Ok(a) ==> (a matches InstallAction::CreateShortcut { link, dest } && {
            &&& pwsh matches Some(pw) && link.target@ == pw@
            &&& link.arguments matches Some(args) && args@ == "-noprofile "@ + program_abs@
            &&& link.working_dir.deep_view() == parent_spec(program_abs@)
            &&& link.description@ == installer_mark()
            &&& link.minimized == true
            &&& Some(dest@) == destination_spec(
                target_dir@,
                name.deep_view(),
                program_abs@,
                Some("lnk"@),
            )
        }),
{
    let pw: &String = match pwsh {
        Some(p) => p,
        None => {
            return Err(InstallError::NoInterpreter);
        },
    };
    let dest = match get_destination_file(target_dir, name, program_abs, Some("lnk")) {
        Ok(d) => d,
        Err(e) => {
            return Err(e);
        },
    };
    let mut args = String::from_str("-noprofile ");
    args.append(program_abs);
    let link = ShortcutSpec {
        target: pw.clone(),
        arguments: Some(args),
        working_dir: parent_dir(program_abs),
        description: "Installed by s4 installer v0.1.0".to_owned(),
        minimized: true,
    };
    Ok(InstallAction::CreateShortcut { link, dest })
}

/// What every successful PowerShell-wrapper action looks like: for some
/// absolutized source `ap`, the shortcut's arguments run `ap` profile-free,
/// its working directory is `ap`'s parent, and its destination derives from
/// `ap` with the shortcut extension forced.
pub open spec fn pwsh_action_shape(
    link: ShortcutSpec,
    dest: Seq<char>,
    dir: Seq<char>,
    name: Option<Seq<char>>,
    ap: Seq<char>,
) -> bool {
    &&& link.arguments matches Some(args) && args@ == "-noprofile "@ + ap
    &&& link.working_dir.deep_view() == parent_spec(ap)
    &&& Some(dest) == destination_spec(dir, name, ap, Some("lnk"@))
}

/// Installs by copying: the destination derives from the inputs with no
/// extension forced, and an occupied destination is refused.
pub fn install_copy(target_dir: &str, name: &Option<String>, program: &str) -> (r: Result<
    InstallAction,
    InstallError,
>)
    ensures
        (r matches Err(e) && e == InstallError::NoProgram) <==> destination_spec(
            target_dir@,
            name.deep_view(),
            program@,
            None,
        ) is None,
        r matches Err(e) ==> e == InstallError::NoProgram || e == InstallError::AlreadyExists,
        r matches Ok(a) ==> action_resolved_in(
            a,
            InstallType::Copy,
            target_dir@,
            name.deep_view(),
            program@,
        ),
{
    let dest = match get_destination_file(target_dir, name, program, None) {
        Ok(d) => d,
        Err(e) => {
            return Err(e);
        },
    };
    let occupied = path_is_file(dest.as_str());
    copy_decision(program, &dest, occupied)
}

/// Installs as a shell shortcut: the source is absolutized first, and the
/// action records the shortcut's target, working directory and metadata.
/// No occupancy check is made: an existing destination is overwritten.
pub fn install_lnk(target_dir: &str, name: &Option<String>, program: &str) -> (r: Result<
    InstallAction,
    InstallError,
>)
    ensures
        r matches Err(e) ==> e == InstallError::NoProgram || e == InstallError::FileIO,
        name is Some ==> !(r matches Err(e) && e == InstallError::NoProgram),
        r matches Ok(a) ==> action_resolved_in(
            a,
            InstallType::Lnk,
            target_dir@,
            name.deep_view(),
            program@,
        ),
{
    let abs = match absolutize_path(program) {
        Some(a) => a,
        None => {
            return Err(InstallError::FileIO);
        },
    };
    shortcut_decision(target_dir, name, abs.as_str())
}

/// Installs as a symbolic link: the source is absolutized first and the
/// destination keeps its derived name unchanged. No occupancy check is
/// made: an existing destination is overwritten.
pub fn install_symlink(target_dir: &str, name: &Option<String>, program: &str) -> (r: Result<
    InstallAction,
    InstallError,
>)
    ensures
        r matches Err(e) ==> e == InstallError::NoProgram || e == InstallError::FileIO,
        name is Some ==> !(r matches Err(e) && e == InstallError::NoProgram),
        r matches Ok(a) ==> action_resolved_in(
            a,
            InstallType::Sym,
            target_dir@,
            name.deep_view(),
            program@,
        ),
{
    let abs = match absolutize_path(program) {
        Some(a) => a,
        None => {
            return Err(InstallError::FileIO);
        },
    };
    symlink_decision(target_dir, name, abs.as_str())
}

/// Installs as a PowerShell-wrapping shortcut: the source is absolutized, a
/// PowerShell-core interpreter is looked up on the search path (its absence
/// refuses the installation), and the action is a minimized shortcut that
/// runs the interpreter on the source. No occupancy check is made.
pub fn install_pwsh(target_dir: &str, name: &Option<String>, program: &str) -> (r: Result<
    InstallAction,
    InstallError,
>)
    ensures
        r matches Err(e) ==> e == InstallError::NoProgram || e == InstallError::FileIO || e
            == InstallError::NoInterpreter,
        name is Some ==> !(r matches Err(e) && e == InstallError::NoProgram),
        r matches Ok(a) ==> action_resolved_in(
            a,
            InstallType::Pwsh,
            target_dir@,
            name.deep_view(),
            program@,
        ),
{
    let abs = match absolutize_path(program) {
        Some(a) => a,
        None => {
            return Err(InstallError::FileIO);
        },
    };
    let pwsh = which_pwsh();
    let r = pwsh_decision(target_dir, name, abs.as_str(), &pwsh);
    proof {
        if let Ok(a) = &r {
            if let InstallAction::CreateShortcut { link, dest } = a {
                assert(pwsh_action_shape(*link, dest@, target_dir@, name.deep_view(), abs@));
            }
        }
    }
    r
}

/// The errors an installation of each strategy can report.
pub open spec fn allowed_error(t: InstallType, e: InstallError) -> bool {
    match t {
        InstallType::Copy => e == InstallError::NoProgram || e == InstallError::AlreadyExists || e
            == InstallError::AccessTargetDir,
        InstallType::Lnk | InstallType::Sym => e == InstallError::NoProgram || e
            == InstallError::FileIO || e == InstallError::AccessTargetDir,
        InstallType::Pwsh => e == InstallError::NoProgram || e == InstallError::FileIO || e
            == InstallError::AccessTargetDir || e == InstallError::NoInterpreter,
    }
}

/// Each strategy yields its own kind of action: a byte copy for `Copy`, a
/// plain shortcut for `Lnk`, a symbolic link for `Sym`, and a minimized
/// argument-carrying shortcut for `Pwsh`.
pub open spec fn action_matches_type(t: InstallType, a: InstallAction) -> bool {
    match t {
        InstallType::Copy => a is CopyFile,
        InstallType::Lnk => a matches InstallAction::CreateShortcut { link, .. }
            && link.minimized == false && link.arguments is None && link.description@
            == installer_mark(),
        InstallType::Sym => a is CreateSymlink,
        InstallType::Pwsh => a matches InstallAction::CreateShortcut { link, .. }
            && link.minimized == true && link.arguments is Some && link.description@
            == installer_mark(),
    }
}

/// What a successful installation into the directory `dir` looks like, per
/// strategy: the action's source and destination all derive from `dir`,
/// `name` and `program` (through the absolutized source, recorded in the
/// action itself, for the pointer strategies).
pub open spec fn action_resolved_in(
    a: InstallAction,
    t: InstallType,
    dir: Seq<char>,
    name: Option<Seq<char>>,
    program: Seq<char>,
) -> bool {
    match t {
        InstallType::Copy => a matches InstallAction::CopyFile { source, dest } && source@
            == program && Some(dest@) == destination_spec(dir, name, program, None),
        InstallType::Lnk => a matches InstallAction::CreateShortcut { link, dest } && {
            &&& link.arguments is None
            &&& link.working_dir.deep_view() == parent_spec(link.target@)
            &&& link.description@ == installer_mark()
            &&& link.minimized == false
            &&& Some(dest@) == destination_spec(dir, name, link.target@, Some("lnk"@))
        },
        InstallType::Sym => a matches InstallAction::CreateSymlink { source, dest } && Some(dest@)
            == destination_spec(dir, name, source@, None),
        InstallType::Pwsh => a matches InstallAction::CreateShortcut { link, dest } && {
            &&& link.description@ == installer_mark()
            &&& link.minimized == true
            &&& exists|ap: Seq<char>| pwsh_action_shape(link, dest@, dir, name, ap)
        },
    }
}

/// A CLI registry directory: `s4\scripts` joined under some home.
pub open spec fn cli_dir_shape(d: Seq<char>) -> bool {
    exists|h: Seq<char>| d == #[trigger] join_spec(h, "s4\\scripts"@)
}

/// A SendTo registry directory: the SendTo folder joined under some home.
pub open spec fn sendto_dir_shape(d: Seq<char>) -> bool {
    exists|h: Seq<char>|
        d == #[trigger] join_spec(h, "AppData\\Roaming\\Microsoft\\Windows\\SendTo"@)
}

/// The directory each registry resolves to has that registry's shape.
pub open spec fn registry_dir_shape(reg: InstallRegistry, d: Seq<char>) -> bool {
    match reg {
        InstallRegistry::Cli => cli_dir_shape(d),
        InstallRegistry::SendTo => sendto_dir_shape(d),
    }
}

/// The orchestrator's gate, decided from the two probed facts: a source
/// that is no regular file is refused as `NoProgram` before anything else,
/// an unresolved registry directory as `AccessTargetDir`, and only then is
/// the resolved directory handed on.
pub fn registry_gate(program_is_file: bool, dir: Option<String>) -> (r: Result<
    String,
    InstallError,
>)
    ensures
        !program_is_file ==> (r matches Err(e) && e == InstallError::NoProgram),
        program_is_file && dir is None ==> (r matches Err(e) && e
            == InstallError::AccessTargetDir),
        program_is_file && dir is Some ==> (r matches Ok(d) && Some(d@) == dir.deep_view()),
{
    if !program_is_file {
        return Err(InstallError::NoProgram);
    }
    match dir {
        Some(d) => Ok(d),
        None => Err(InstallError::AccessTargetDir),
    }
}

/// The CLI registry's directory under the given home directory.
pub fn cli_dir_from_home(home: &str) -> (r: String)
    ensures
        r@ == join_spec(home@, "s4\\scripts"@),
{
    join_path(home, "s4\\scripts")
}

/// The SendTo registry's directory under the given home directory.
pub fn sendto_dir_from_home(home: &str) -> (r: String)
    ensures
        r@ == join_spec(home@, "AppData\\Roaming\\Microsoft\\Windows\\SendTo"@),
{
    join_path(home, "AppData\\Roaming\\Microsoft\\Windows\\SendTo")
}

/// The CLI registry's directory: `s4\scripts` under the user's home
/// directory, when a home directory is known.
pub fn get_s4dir() -> (r: Option<String>)
    ensures
        r matches Some(d) ==> cli_dir_shape(d@),
{
    match home_dir_path() {
        Some(h) => Some(cli_dir_from_home(h.as_str())),
        None => None,
    }
}

/// The SendTo registry's directory under the user's home directory, when a
/// home directory is known.
pub fn get_sendto_dir() -> (r: Option<String>)
    ensures
        r matches Some(d) ==> sendto_dir_shape(d@),
{
    match home_dir_path() {
        Some(h) => Some(sendto_dir_from_home(h.as_str())),
        None => None,
    }
}

/// Installs `program` into the CLI registry: [`registry_gate`] turns the
/// source probe and the directory lookup into the matching errors, and the
/// chosen strategy then decides the action against the resolved directory,
/// its outcome handed back unchanged.
pub fn install_cli(install_type: InstallType, name: &Option<String>, program: &str) -> (r: Result<
    InstallAction,
    InstallError,
>)
    ensures
        r matches Err(e) ==> allowed_error(install_type, e),
        r matches Ok(a) ==> action_matches_type(install_type, a),
        r matches Ok(a) ==> exists|d: Seq<char>|
            #[trigger] action_resolved_in(a, install_type, d, name.deep_view(), program@)
                && cli_dir_shape(d),
{
    let program_is_file = path_is_file(program);
    let looked_up = get_s4dir();
    let s4dir = match registry_gate(program_is_file, looked_up) {
        Ok(d) => d,
        Err(e) => {
            return Err(e);
        },
    };
    let r = match install_type {
        InstallType::Copy => install_copy(s4dir.as_str(), name, program),
        InstallType::Lnk => install_lnk(s4dir.as_str(), name, program),
        InstallType::Sym => install_symlink(s4dir.as_str(), name, program),
        InstallType::Pwsh => install_pwsh(s4dir.as_str(), name, program),
    };
    proof {
        if let Ok(a) = &r {
            assert(action_resolved_in(*a, install_type, s4dir@, name.deep_view(), program@));
            assert(cli_dir_shape(s4dir@));
        }
    }
    r
}

/// Installs `program` into the SendTo registry, as [`install_cli`] does for
/// the CLI registry.
pub fn install_sendto(install_type: InstallType, name: &Option<String>, program: &str) -> (r:
    Result<InstallAction, InstallError>)
    ensures
        r matches Err(e) ==> allowed_error(install_type, e),
        r matches Ok(a) ==> action_matches_type(install_type, a),
        r matches Ok(a) ==> exists|d: Seq<char>|
            #[trigger] action_resolved_in(a, install_type, d, name.deep_view(), program@)
                && sendto_dir_shape(d),
{
    let program_is_file = path_is_file(program);
    let looked_up = get_sendto_dir();
    let sendto = match registry_gate(program_is_file, looked_up) {
        Ok(d) => d,
        Err(e) => {
            return Err(e);
        },
    };
    let r = match install_type {
        InstallType::Copy => install_copy(sendto.as_str(), name, program),
        InstallType::Lnk => install_lnk(sendto.as_str(), name, program),
        InstallType::Sym => install_symlink(sendto.as_str(), name, program),
        InstallType::Pwsh => install_pwsh(sendto.as_str(), name, program),
    };
    proof {
        if let Ok(a) = &r {
            assert(action_resolved_in(*a, install_type, sendto@, name.deep_view(), program@));
            assert(sendto_dir_shape(sendto@));
        }
    }
    r
}

/// Installs `program` into the registry that `install_registry` selects,
/// with the chosen strategy, yielding the one filesystem action that
/// completes the installation: the action is resolved in a directory of
/// the selected registry's shape.
pub fn install(
    install_type: InstallType,
    install_registry: InstallRegistry,
    name: &Option<String>,
    program: &str,
) -> (r: Result<InstallAction, InstallError>)
    ensures
        r matches Err(e) ==> allowed_error(install_type, e),
        r matches Ok(a) ==> action_matches_type(install_type, a),
        r matches Ok(a) ==> exists|d: Seq<char>|
            #[trigger] action_resolved_in(a, install_type, d, name.deep_view(), program@)
                && registry_dir_shape(install_registry, d),
{
    match install_registry {
        InstallRegistry::Cli => {
            let r = install_cli(install_type, name, program);
            proof {
                if let Ok(a) = &r {
                    let d = choose|d: Seq<char>|
                        action_resolved_in(*a, install_type, d, name.deep_view(), program@)
                            && cli_dir_shape(d);
                    assert(registry_dir_shape(install_registry, d));
                }
            }
            r
        },
        InstallRegistry::SendTo => {
            let r = install_sendto(install_type, name, program);
            proof {
                if let Ok(a) = &r {
                    let d = choose|d: Seq<char>|
                        action_resolved_in(*a, install_type, d, name.deep_view(), program@)
                            && sendto_dir_shape(d);
                    assert(registry_dir_shape(install_registry, d));
                }
            }
            r
        },
    }
}

} // verus!
