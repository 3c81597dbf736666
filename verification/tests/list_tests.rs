use s4installer::get_installed_programs;
use s4installer::get_program_exts;
use s4installer::is_program_file;
use s4installer::program_exts_with_defaults;
use s4installer::paths::extension_of;
use s4installer::paths::file_name_of;
use s4installer::paths::parent_dir;
use s4installer::LinkStatus;
use s4installer::ScanEntry;

#[test]
fn file_name_of_plain_paths() {
    assert_eq!(file_name_of("C:\\a\\b.exe").as_deref(), Some("b.exe"));
    assert_eq!(file_name_of("b.exe").as_deref(), Some("b.exe"));
    assert_eq!(file_name_of("a/b/c.txt").as_deref(), Some("c.txt"));
}

#[test]
fn file_name_of_without_component() {
    assert_eq!(file_name_of(""), None);
    assert_eq!(file_name_of("/"), None);
    assert_eq!(file_name_of(".."), None);
    assert_eq!(file_name_of("."), None);
    assert_eq!(file_name_of("C:\\tools\\"), None);
    assert_eq!(file_name_of("a\\.."), None);
}

#[test]
fn parent_dir_of_paths() {
    assert_eq!(parent_dir("C:\\tools\\x.ps1").as_deref(), Some("C:\\tools"));
    assert_eq!(parent_dir("\\x.ps1").as_deref(), Some("\\"));
    assert_eq!(parent_dir("x.ps1"), None);
}

#[test]
fn extension_of_paths() {
    assert_eq!(extension_of("a.tar.gz").as_deref(), Some("gz"));
    assert_eq!(extension_of("C:\\dir.d\\plain"), None);
    assert_eq!(extension_of(".bashrc"), None);
    assert_eq!(extension_of("foo.").as_deref(), Some(""));
}

#[test]
fn program_exts_parsed_and_normalized() {
    let exts = get_program_exts(&Some(String::from(".COM;.EXE;.BAT")));
    assert_eq!(exts, vec!["com", "exe", "bat"]);
}

#[test]
fn program_exts_keep_empty_segments() {
    let exts = get_program_exts(&Some(String::from("a;;B")));
    assert_eq!(exts, vec!["a", "", "b"]);
}

#[test]
fn program_exts_empty_without_environment_text() {
    let exts = get_program_exts(&None);
    assert!(exts.is_empty());
}

#[test]
fn program_exts_defaults_appended() {
    let exts = program_exts_with_defaults(&Some(String::from(".EXE")));
    assert_eq!(exts, vec!["exe", "ps1", "lnk"]);
    let bare = program_exts_with_defaults(&None);
    assert_eq!(bare, vec!["ps1", "lnk"]);
}

#[test]
fn program_file_judged_case_insensitively() {
    let exts = vec![String::from("exe")];
    assert!(is_program_file(
        &String::from("C:\\x\\A.EXE"),
        &LinkStatus::NotSymlink,
        &exts
    ));
    assert!(!is_program_file(
        &String::from("C:\\x\\readme"),
        &LinkStatus::NotSymlink,
        &exts
    ));
}

#[test]
fn program_file_judged_by_link_target() {
    let exts = vec![String::from("exe"), String::from("txt")];
    assert!(is_program_file(
        &String::from("C:\\x\\d"),
        &LinkStatus::ResolvesTo(String::from("C:\\y\\b.txt")),
        &exts
    ));
    assert!(!is_program_file(
        &String::from("C:\\x\\d.exe"),
        &LinkStatus::Unreadable,
        &exts
    ));
}

fn entry(path: &str, is_file: bool, link: LinkStatus) -> ScanEntry {
    ScanEntry {
        path: String::from(path),
        is_file,
        link,
    }
}

#[test]
fn list_reports_recognized_files_only() {
    let exts = program_exts_with_defaults(&Some(String::from("COM;EXE;BAT")));
    let entries = vec![
        entry("C:\\sendto\\a.exe", true, LinkStatus::NotSymlink),
        entry("C:\\sendto\\b.txt", true, LinkStatus::NotSymlink),
        entry("C:\\sendto\\c.lnk", true, LinkStatus::NotSymlink),
        entry(
            "C:\\sendto\\d",
            true,
            LinkStatus::ResolvesTo(String::from("C:\\stuff\\b.txt")),
        ),
    ];
    let programs = get_installed_programs(&Some(String::from("C:\\sendto")), &entries, &exts);
    assert_eq!(programs, vec!["C:\\sendto\\a.exe", "C:\\sendto\\c.lnk"]);
}

#[test]
fn list_skips_directories_and_unknown_registry_dir() {
    let exts = program_exts_with_defaults(&Some(String::from("EXE")));
    let entries = vec![
        entry("C:\\sendto\\sub.exe", false, LinkStatus::NotSymlink),
        entry("C:\\sendto\\real.exe", true, LinkStatus::NotSymlink),
    ];
    let programs = get_installed_programs(&Some(String::from("C:\\sendto")), &entries, &exts);
    assert_eq!(programs, vec!["C:\\sendto\\real.exe"]);

    let none = get_installed_programs(&None, &entries, &exts);
    assert!(none.is_empty());
}
