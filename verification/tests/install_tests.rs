use s4installer::copy_decision;
use s4installer::get_destination_file;
use s4installer::install_cli;
use s4installer::install_lnk;
use s4installer::install_sendto;
use s4installer::install_symlink;
use s4installer::pwsh_decision;
use s4installer::shortcut_decision;
use s4installer::symlink_decision;
use s4installer::InstallAction;
use s4installer::InstallError;
use s4installer::InstallType;

#[test]
fn destination_uses_display_name_verbatim() {
    let dest = get_destination_file(
        "C:\\Users\\me\\s4\\scripts",
        &Some(String::from("alpha")),
        "C:\\x\\beta.exe",
        None,
    )
    .unwrap();
    assert_eq!(dest, "C:\\Users\\me\\s4\\scripts\\alpha");
}

#[test]
fn destination_uses_source_file_name_when_no_display_name() {
    let dest = get_destination_file("C:\\Users\\me\\s4\\scripts", &None, "C:\\x\\beta.exe", None)
        .unwrap();
    assert_eq!(dest, "C:\\Users\\me\\s4\\scripts\\beta.exe");
}

#[test]
fn destination_forced_extension_replaces_existing_one() {
    let dest = get_destination_file(
        "C:\\dir",
        &Some(String::from("tool.exe")),
        "C:\\x\\y.ps1",
        Some("lnk"),
    )
    .unwrap();
    assert_eq!(dest, "C:\\dir\\tool.lnk");
}

#[test]
fn destination_forced_extension_appended_when_name_has_none() {
    let dest = get_destination_file("C:\\dir", &Some(String::from("plain")), "C:\\x\\y.ps1", Some("lnk"))
        .unwrap();
    assert_eq!(dest, "C:\\dir\\plain.lnk");
}

#[test]
fn destination_forced_extension_cuts_only_last_extension() {
    let dest = get_destination_file(
        "C:\\dir",
        &Some(String::from("archive.tar.gz")),
        "C:\\x\\y.ps1",
        Some("lnk"),
    )
    .unwrap();
    assert_eq!(dest, "C:\\dir\\archive.tar.lnk");
}

#[test]
fn destination_dotfile_name_keeps_its_leading_dot() {
    let dest = get_destination_file("C:\\dir", &Some(String::from(".bashrc")), "C:\\x\\y.ps1", Some("lnk"))
        .unwrap();
    assert_eq!(dest, "C:\\dir\\.bashrc.lnk");
}

#[test]
fn destination_joins_without_doubling_a_trailing_separator() {
    let dest = get_destination_file("C:\\dir\\", &Some(String::from("a.exe")), "C:\\x\\y.exe", None)
        .unwrap();
    assert_eq!(dest, "C:\\dir\\a.exe");
}

#[test]
fn destination_fails_without_extractable_file_name() {
    for bad in ["..", "/", "", "C:\\tools\\", "."] {
        let r = get_destination_file("C:\\dir", &None, bad, None);
        assert_eq!(r.unwrap_err(), InstallError::NoProgram, "source: {:?}", bad);
    }
}

#[test]
fn copy_scenario_quickrun_into_sendto() {
    let sendto = "C:\\Users\\me\\AppData\\Roaming\\Microsoft\\Windows\\SendTo";
    let dest = get_destination_file(sendto, &Some(String::from("quickrun")), "C:\\tools\\run.exe", None)
        .unwrap();
    assert_eq!(
        dest,
        "C:\\Users\\me\\AppData\\Roaming\\Microsoft\\Windows\\SendTo\\quickrun"
    );
    match copy_decision("C:\\tools\\run.exe", &dest, false) {
        Ok(InstallAction::CopyFile { source, dest: d }) => {
            assert_eq!(source, "C:\\tools\\run.exe");
            assert_eq!(d, dest);
        }
        other => panic!("unexpected outcome: {:?}", other),
    }
}

#[test]
fn copy_refuses_occupied_destination() {
    let dest = String::from("C:\\dir\\run.exe");
    let r = copy_decision("C:\\tools\\run.exe", &dest, true);
    assert_eq!(r.unwrap_err(), InstallError::AlreadyExists);
}

#[test]
fn shortcut_records_target_and_working_dir() {
    match shortcut_decision("C:\\dir", &None, "C:\\tools\\build.ps1") {
        Ok(InstallAction::CreateShortcut { link, dest }) => {
            assert_eq!(dest, "C:\\dir\\build.lnk");
            assert_eq!(link.target, "C:\\tools\\build.ps1");
            assert_eq!(link.arguments, None);
            assert_eq!(link.working_dir.as_deref(), Some("C:\\tools"));
            assert_eq!(link.description, "Installed by s4 installer v0.1.0");
            assert!(!link.minimized);
        }
        other => panic!("unexpected outcome: {:?}", other),
    }
}

#[test]
fn shortcut_forces_lnk_extension_over_display_name() {
    match shortcut_decision("C:\\dir", &Some(String::from("mytool.exe")), "C:\\tools\\a.ps1") {
        Ok(InstallAction::CreateShortcut { dest, .. }) => {
            assert_eq!(dest, "C:\\dir\\mytool.lnk");
        }
        other => panic!("unexpected outcome: {:?}", other),
    }
}

#[test]
fn symlink_keeps_derived_name_unchanged() {
    match symlink_decision("C:\\dir", &None, "C:\\tools\\run.exe") {
        Ok(InstallAction::CreateSymlink { source, dest }) => {
            assert_eq!(source, "C:\\tools\\run.exe");
            assert_eq!(dest, "C:\\dir\\run.exe");
        }
        other => panic!("unexpected outcome: {:?}", other),
    }
}

#[test]
fn pwsh_scenario_build_ps1_into_cli() {
    let pwsh = Some(String::from("C:\\Program Files\\PowerShell\\7\\pwsh.exe"));
    match pwsh_decision("C:\\Users\\me\\s4\\scripts", &None, "C:\\tools\\build.ps1", &pwsh) {
        Ok(InstallAction::CreateShortcut { link, dest }) => {
            assert_eq!(dest, "C:\\Users\\me\\s4\\scripts\\build.lnk");
            assert_eq!(link.target, "C:\\Program Files\\PowerShell\\7\\pwsh.exe");
            assert_eq!(link.arguments.as_deref(), Some("-noprofile C:\\tools\\build.ps1"));
            assert_eq!(link.working_dir.as_deref(), Some("C:\\tools"));
            assert_eq!(link.description, "Installed by s4 installer v0.1.0");
            assert!(link.minimized);
        }
        other => panic!("unexpected outcome: {:?}", other),
    }
}

#[test]
fn pwsh_without_interpreter_is_refused() {
    let r = pwsh_decision("C:\\dir", &None, "C:\\tools\\build.ps1", &None);
    assert_eq!(r.unwrap_err(), InstallError::NoInterpreter);
}

#[test]
fn install_lnk_absolutizes_a_relative_source() {
    match install_lnk("C:\\dir", &None, "tools/x.ps1") {
        Ok(InstallAction::CreateShortcut { link, dest }) => {
            assert!(link.target.ends_with("tools/x.ps1"));
            assert_ne!(link.target, "tools/x.ps1");
            assert_eq!(dest, "C:\\dir\\x.lnk");
            assert!(!link.minimized);
        }
        other => panic!("unexpected outcome: {:?}", other),
    }
}

#[test]
fn install_symlink_absolutizes_a_relative_source() {
    match install_symlink("C:\\dir", &None, "tools/x.ps1") {
        Ok(InstallAction::CreateSymlink { source, dest }) => {
            assert!(source.ends_with("tools/x.ps1"));
            assert_ne!(source, "tools/x.ps1");
            assert_eq!(dest, "C:\\dir\\x.ps1");
        }
        other => panic!("unexpected outcome: {:?}", other),
    }
}

#[test]
fn registry_directories_derive_from_home() {
    assert_eq!(
        s4installer::install::cli_dir_from_home("C:\\Users\\me"),
        "C:\\Users\\me\\s4\\scripts"
    );
    assert_eq!(
        s4installer::install::sendto_dir_from_home("C:\\Users\\me"),
        "C:\\Users\\me\\AppData\\Roaming\\Microsoft\\Windows\\SendTo"
    );
}

#[test]
fn registry_gate_orders_its_refusals() {
    let dir = Some(String::from("C:\\Users\\me\\s4\\scripts"));
    assert_eq!(
        s4installer::registry_gate(false, dir.clone()).unwrap_err(),
        InstallError::NoProgram
    );
    assert_eq!(
        s4installer::registry_gate(false, None).unwrap_err(),
        InstallError::NoProgram
    );
    assert_eq!(
        s4installer::registry_gate(true, None).unwrap_err(),
        InstallError::AccessTargetDir
    );
    assert_eq!(
        s4installer::registry_gate(true, dir).unwrap(),
        "C:\\Users\\me\\s4\\scripts"
    );
}

#[test]
fn error_labels_name_the_kind() {
    assert_eq!(InstallError::NoProgram.label(), "NoProgram");
    assert_eq!(InstallError::AlreadyExists.label(), "AlreadyExists");
    assert_eq!(InstallError::NoInterpreter.label(), "NoInterpreter");
    assert_eq!(InstallError::AccessTargetDir.label(), "AccessTargetDir");
    assert_eq!(InstallError::FileIO.label(), "FileIO");
}

#[test]
fn install_cli_refuses_missing_source() {
    let r = install_cli(InstallType::Copy, &None, "Z:\\no\\such\\file.exe");
    assert_eq!(r.unwrap_err(), InstallError::NoProgram);
}

#[test]
fn install_sendto_refuses_missing_source() {
    let r = install_sendto(InstallType::Lnk, &None, "Z:\\no\\such\\file.ps1");
    assert_eq!(r.unwrap_err(), InstallError::NoProgram);
}
