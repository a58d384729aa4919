use kiwi_tts::desktop::{
    default_output_folder, dialog_commands, dialog_start, dialog_step, launch_next, launch_start,
    mac_to_unix_path, open_file_commands, reveal_commands, reveal_target, DialogAction,
    DialogEvent, LaunchAction, LaunchPurpose, Platform, ShellCommand, Spawned,
};

fn shape(cs: &[ShellCommand]) -> Vec<(String, Vec<String>)> {
    cs.iter().map(|c| (c.program.clone(), c.args.clone())).collect()
}

fn cmd(p: &str, args: &[&str]) -> (String, Vec<String>) {
    (p.to_string(), args.iter().map(|a| a.to_string()).collect())
}

fn exited(success: bool, stdout: &str) -> DialogEvent {
    DialogEvent::Exited { success, stdout: stdout.to_string() }
}

fn chosen(a: DialogAction) -> Option<String> {
    match a {
        DialogAction::Finish(Ok(f)) => f,
        other => panic!("expected a chosen folder, got {:?}", other),
    }
}

#[test]
fn open_file_per_platform() {
    assert_eq!(
        shape(&open_file_commands(Platform::Windows, "C:\\a.mp3")),
        vec![cmd("cmd", &["/C", "start", "", "C:\\a.mp3"])]
    );
    assert_eq!(shape(&open_file_commands(Platform::MacOs, "/a.mp3")), vec![cmd("open", &["/a.mp3"])]);
    assert_eq!(shape(&open_file_commands(Platform::Linux, "/a.mp3")), vec![cmd("xdg-open", &["/a.mp3"])]);
    assert!(open_file_commands(Platform::Other, "/a.mp3").is_empty());
}

#[test]
fn reveal_a_file_per_platform() {
    assert_eq!(
        shape(&reveal_commands(Platform::Windows, "C:\\o\\a.mp3", true, "C:\\o")),
        vec![cmd("explorer", &["/select,", "C:\\o\\a.mp3"])]
    );
    assert_eq!(
        shape(&reveal_commands(Platform::MacOs, "/o/a.mp3", true, "/o")),
        vec![cmd("open", &["-R", "/o/a.mp3"])]
    );
    assert_eq!(
        shape(&reveal_commands(Platform::Linux, "/o/a.mp3", true, "/o")),
        vec![
            cmd("nautilus", &["--select", "/o/a.mp3"]),
            cmd("dolphin", &["--select", "/o/a.mp3"]),
            cmd("thunar", &["--select", "/o/a.mp3"]),
            cmd("pcmanfm", &["--select", "/o/a.mp3"]),
            cmd("xdg-open", &["/o"]),
        ]
    );
    assert!(reveal_commands(Platform::Other, "/o/a.mp3", true, "/o").is_empty());
}

#[test]
fn reveal_a_folder_per_platform() {
    assert_eq!(shape(&reveal_commands(Platform::Windows, "C:\\o", false, "C:\\o")), vec![cmd("explorer", &["C:\\o"])]);
    assert_eq!(shape(&reveal_commands(Platform::MacOs, "/o", false, "/o")), vec![cmd("open", &["/o"])]);
    assert_eq!(shape(&reveal_commands(Platform::Linux, "/o", false, "/o")), vec![cmd("xdg-open", &["/o"])]);
}

#[test]
fn dialogs_per_platform() {
    let w = shape(&dialog_commands(Platform::Windows));
    assert_eq!(w.len(), 1);
    assert_eq!(w[0].0, "powershell");
    assert_eq!(w[0].1[0], "-Command");
    assert!(w[0].1[1].starts_with("Add-Type -AssemblyName System.Windows.Forms;"));
    let m = shape(&dialog_commands(Platform::MacOs));
    assert_eq!(m[0].0, "osascript");
    assert_eq!(m[0].1[0], "-e");
    assert!(m[0].1[1].contains("\"Select output folder for audio files:\""));
    assert_eq!(
        shape(&dialog_commands(Platform::Linux)),
        vec![
            cmd("zenity", &["--file-selection", "--directory", "--title=Select output folder for audio files"]),
            cmd("kdialog", &["--getexistingdirectory", ".", "--title", "Select output folder for audio files"]),
            cmd("yad", &["--file-selection", "--directory", "--title=Select output folder for audio files"]),
        ]
    );
    assert!(dialog_commands(Platform::Other).is_empty());
}

#[test]
fn launch_with_nothing_to_run_succeeds() {
    assert!(matches!(launch_start(0), LaunchAction::Finish(Ok(()))));
    assert!(matches!(launch_start(5), LaunchAction::Run(0)));
}

#[test]
fn launch_stops_at_the_first_command_that_starts() {
    assert!(matches!(launch_next(5, 1, Spawned::Started, LaunchPurpose::RevealFolder), LaunchAction::Finish(Ok(()))));
}

#[test]
fn launch_moves_on_after_a_failure() {
    let a = launch_next(5, 3, Spawned::Failed("not found".to_string()), LaunchPurpose::RevealFolder);
    assert!(matches!(a, LaunchAction::Run(4)));
}

#[test]
fn launch_reports_the_last_failure() {
    match launch_next(5, 4, Spawned::Failed("not found".to_string()), LaunchPurpose::RevealFolder) {
        LaunchAction::Finish(Err(e)) => assert_eq!(e, "Failed to open folder: not found"),
        other => panic!("unexpected {:?}", other),
    }
    match launch_next(1, 0, Spawned::Failed("denied".to_string()), LaunchPurpose::OpenFile) {
        LaunchAction::Finish(Err(e)) => assert_eq!(e, "Failed to open file: denied"),
        other => panic!("unexpected {:?}", other),
    }
}

#[test]
fn reveal_target_of_a_file_is_its_folder() {
    assert_eq!(reveal_target("/home/u/out/a.mp3", true, true).unwrap(), "/home/u/out");
    assert_eq!(reveal_target("a.mp3", true, true).unwrap(), "");
}

#[test]
fn reveal_target_of_a_folder_is_itself() {
    assert_eq!(reveal_target("/home/u/out", true, false).unwrap(), "/home/u/out");
}

#[test]
fn reveal_target_of_a_missing_path() {
    assert_eq!(reveal_target("/nope", false, false).unwrap_err(), "File does not exist: /nope");
}

#[test]
fn reveal_target_of_a_root_file() {
    assert_eq!(reveal_target("/", true, true).unwrap_err(), "Cannot determine parent directory");
}

#[test]
fn applescript_path_in_unix_form() {
    assert_eq!(mac_to_unix_path("Macintosh HD:Users:me:Music:"), "/Users/me/Music/");
    assert_eq!(mac_to_unix_path("Data:out:"), "Data/out/");
}

#[test]
fn default_folder_under_home() {
    assert_eq!(default_output_folder(Some("/home/u".to_string())), "/home/u/Downloads");
    assert_eq!(default_output_folder(None), "/tmp");
}

#[test]
fn dialog_start_per_platform() {
    assert!(matches!(dialog_start(Platform::Linux), DialogAction::Run(0)));
    assert!(matches!(dialog_start(Platform::Windows), DialogAction::Run(0)));
    assert_eq!(chosen(dialog_start(Platform::Other)), None);
}

#[test]
fn windows_dialog_reads_the_printed_folder() {
    assert_eq!(chosen(dialog_step(Platform::Windows, 0, exited(true, "C:\\Music\r\n"), None)), Some("C:\\Music".to_string()));
    assert_eq!(chosen(dialog_step(Platform::Windows, 0, exited(false, "C:\\Music\r\n"), None)), Some("C:\\Music".to_string()));
    assert_eq!(chosen(dialog_step(Platform::Windows, 0, exited(true, "  \r\n"), None)), None);
}

#[test]
fn dialog_that_cannot_start_is_an_error() {
    for p in [Platform::Windows, Platform::MacOs] {
        match dialog_step(p, 0, DialogEvent::Failed("no such program".to_string()), None) {
            DialogAction::Finish(Err(e)) => assert_eq!(e, "Failed to open folder dialog: no such program"),
            other => panic!("unexpected {:?}", other),
        }
    }
}

#[test]
fn mac_dialog_converts_the_chosen_folder() {
    assert_eq!(
        chosen(dialog_step(Platform::MacOs, 0, exited(true, "alias Macintosh HD:Users:me:\n"), None)),
        Some("alias /Users/me/".to_string())
    );
    assert_eq!(chosen(dialog_step(Platform::MacOs, 0, exited(false, ""), None)), None);
}

#[test]
fn linux_dialog_takes_the_first_folder_chosen() {
    assert_eq!(chosen(dialog_step(Platform::Linux, 1, exited(true, "/home/u/Music\n"), None)), Some("/home/u/Music".to_string()));
}

#[test]
fn linux_dialog_moves_on_after_a_failure() {
    assert!(matches!(dialog_step(Platform::Linux, 0, DialogEvent::Failed("missing".to_string()), None), DialogAction::Run(1)));
    assert!(matches!(dialog_step(Platform::Linux, 0, exited(false, "/x"), None), DialogAction::Run(1)));
    assert!(matches!(dialog_step(Platform::Linux, 1, exited(true, " \n"), None), DialogAction::Run(2)));
}

#[test]
fn linux_dialog_falls_back_after_the_last() {
    assert_eq!(
        chosen(dialog_step(Platform::Linux, 2, exited(false, ""), Some("/home/u".to_string()))),
        Some("/home/u/Downloads".to_string())
    );
    assert_eq!(chosen(dialog_step(Platform::Linux, 2, DialogEvent::Failed("x".to_string()), None)), Some("/tmp".to_string()));
}
