//! Work handed to the host's shell utilities: opening a file, revealing it in
//! a file manager, and asking the user for an output folder.
//!
//! Each is a plan, a list of commands, and a step function. The caller runs
//! the command that a step names, reports how it went, and stops at the first
//! `Finish`.
use vstd::prelude::*;
use crate::text::{replace_spec, replace_text, trim_spec, trim_text};

verus! {

/// The family of operating system the application runs on.
#[derive(Clone, Copy, Debug, PartialEq, Eq, Structural)]
pub enum Platform {
    Windows,
    MacOs,
    Linux,
    Other,
}

/// A program and its arguments.
#[derive(Clone, Debug)]
pub struct ShellCommand {
    pub program: String,
    pub args: Vec<String>,
}

/// How starting a command went.
#[derive(Clone, Debug)]
pub enum Spawned {
    /// It started and ran to its end.
    Started,
    /// It could not be started; the detail says why.
    Failed(String),
}

/// What a launch is for; it decides the message of a failure.
#[derive(Clone, Debug)]
pub enum LaunchPurpose {
    OpenFile,
    RevealFolder,
}

/// What to do next in a launch.
#[derive(Debug)]
pub enum LaunchAction {
    /// Run the command at this position of the plan.
    Run(usize),
    /// The launch is over, with this outcome.
    Finish(Result<(), String>),
}

/// How a folder dialog went.
#[derive(Clone, Debug)]
pub enum DialogEvent {
    /// It could not be started; the detail says why.
    Failed(String),
    /// It ran; whether it exited with success, and what it printed.
    Exited { success: bool, stdout: String },
}

/// What to do next while asking for a folder.
#[derive(Debug)]
pub enum DialogAction {
    /// Run the dialog at this position of the plan.
    Run(usize),
    /// The question is over: the folder chosen, if any, or an error.
    Finish(Result<Option<String>, String>),
}

/// A command as plain values: the program and its arguments.
pub type CommandSpec = (Seq<char>, Seq<Seq<char>>);

pub open spec fn command_is(c: ShellCommand, spec: CommandSpec) -> bool {
    &&& c.program@ == spec.0
    &&& c.args@.len() == spec.1.len()
    &&& forall|i: int| 0 <= i < spec.1.len() ==> (#[trigger] c.args@[i])@ == spec.1[i]
}

pub open spec fn plan_is(cs: Seq<ShellCommand>, plan: Seq<CommandSpec>) -> bool {
    &&& cs.len() == plan.len()
    &&& forall|i: int| 0 <= i < plan.len() ==> command_is(#[trigger] cs[i], plan[i])
}

/// The command that opens a file with the application the host associates
/// with it.
pub open spec fn open_file_plan(platform: Platform, path: Seq<char>) -> Seq<CommandSpec> {
    match platform {
        Platform::Windows => seq![("cmd"@, seq!["/C"@, "start"@, ""@, path])],
        Platform::MacOs => seq![("open"@, seq![path])],
        Platform::Linux => seq![("xdg-open"@, seq![path])],
        Platform::Other => seq![],
    }
}

/// The commands that show a file, or a folder, in a file manager. On Linux a
/// file is first offered to file managers that can select it, and the
/// folder is opened where none of them starts.
pub open spec fn reveal_plan(platform: Platform, path: Seq<char>, is_file: bool, folder: Seq<char>) -> Seq<
    CommandSpec,
> {
    match platform {
        Platform::Windows => if is_file {
            seq![("explorer"@, seq!["/select,"@, path])]
        } else {
            seq![("explorer"@, seq![folder])]
        },
        Platform::MacOs => if is_file {
            seq![("open"@, seq!["-R"@, path])]
        } else {
            seq![("open"@, seq![folder])]
        },
        Platform::Linux => if is_file {
            seq![
                ("nautilus"@, seq!["--select"@, path]),
                ("dolphin"@, seq!["--select"@, path]),
                ("thunar"@, seq!["--select"@, path]),
                ("pcmanfm"@, seq!["--select"@, path]),
                ("xdg-open"@, seq![folder]),
            ]
        } else {
            seq![("xdg-open"@, seq![folder])]
        },
        Platform::Other => seq![],
    }
}

/// The folder dialogs to try, in order.
pub open spec fn dialog_plan(platform: Platform) -> Seq<CommandSpec> {
    match platform {
        Platform::Windows => seq![("powershell"@, seq!["-Command"@, windows_dialog_script()])],
        Platform::MacOs => seq![("osascript"@, seq!["-e"@, mac_dialog_script()])],
        Platform::Linux => seq![
            (
                "zenity"@,
                seq![
                    "--file-selection"@,
                    "--directory"@,
                    "--title=Select output folder for audio files"@,
                ],
            ),
            (
                "kdialog"@,
                seq![
                    "--getexistingdirectory"@,
                    "."@,
                    "--title"@,
                    "Select output folder for audio files"@,
                ],
            ),
            (
                "yad"@,
                seq![
                    "--file-selection"@,
                    "--directory"@,
                    "--title=Select output folder for audio files"@,
                ],
            ),
        ],
        Platform::Other => seq![],
    }
}

pub open spec fn windows_dialog_script() -> Seq<char> {
    "Add-Type -AssemblyName System.Windows.Forms; $f = New-Object System.Windows.Forms.FolderBrowserDialog; $f.Description = 'Select output folder for audio files'; $f.SelectedPath = [Environment]::GetFolderPath('MyDocuments'); if ($f.ShowDialog() -eq 'OK') { $f.SelectedPath } else { '' }"@
}

pub open spec fn mac_dialog_script() -> Seq<char> {
    "set chosenFolder to choose folder with prompt \"Select output folder for audio files:\" default location (path to documents folder)"@
}

pub open spec fn launch_failure(purpose: LaunchPurpose, detail: Seq<char>) -> Seq<char> {
    match purpose {
        LaunchPurpose::OpenFile => "Failed to open file: "@ + detail,
        LaunchPurpose::RevealFolder => "Failed to open folder: "@ + detail,
    }
}

/// A folder path as the AppleScript dialog prints it, in Unix form: every
/// `:` becomes `/`, and the volume name `Macintosh HD` is dropped.
pub open spec fn mac_path(s: Seq<char>) -> Seq<char> {
    replace_spec(replace_spec(s, ":"@, "/"@), "Macintosh HD"@, ""@)
}

/// The folder offered when no dialog yields one: `Downloads` under the home
/// folder, or `/tmp` where no home folder is known.
pub open spec fn default_folder(home: Option<Seq<char>>) -> Seq<char> {
    match home {
        Some(h) => h + "/Downloads"@,
        None => "/tmp"@,
    }
}

pub open spec fn finishes_with(a: DialogAction, folder: Option<Seq<char>>) -> bool {
    match a {
        DialogAction::Finish(Ok(Some(f))) => folder == Some(f@),
        DialogAction::Finish(Ok(None)) => folder is None,
        _ => false,
    }
}

pub open spec fn dialog_error(a: DialogAction, msg: Seq<char>) -> bool {
    a matches DialogAction::Finish(Err(e)) && e@ == msg
}

/// The text a dialog printed, trimmed, or nothing where that is empty.
pub open spec fn printed_folder(stdout: Seq<char>) -> Option<Seq<char>> {
    if trim_spec(stdout).len() == 0 {
        None
    } else {
        Some(trim_spec(stdout))
    }
}

/// The decision after dialog `index` of the plan for `platform` has run:
/// - Windows: a dialog that cannot start is an error; otherwise the trimmed
///   text it printed is the folder, and none was chosen where that is empty.
/// - macOS: a dialog that cannot start is an error; one that exits with
///   success yields its trimmed text in Unix form, another means none chosen.
/// - Linux: a dialog that exits with success and prints a folder yields it;
///   otherwise the next dialog is tried, and after the last one the default
///   folder is offered.
pub open spec fn dialog_decides(
    platform: Platform,
    index: int,
    event: DialogEvent,
    home: Option<Seq<char>>,
    a: DialogAction,
) -> bool {
    match platform {
        Platform::Linux => match event {
            DialogEvent::Exited { success: true, stdout } if printed_folder(stdout@) is Some => {
                finishes_with(a, printed_folder(stdout@))
            },
            _ => if index + 1 < dialog_plan(platform).len() {
                a == DialogAction::Run((index + 1) as usize)
            } else {
                finishes_with(a, Some(default_folder(home)))
            },
        },
        _ => match event {
            DialogEvent::Failed(detail) => dialog_error(
                a,
                "Failed to open folder dialog: "@ + detail@,
            ),
            DialogEvent::Exited { success, stdout } => if platform is Windows {
                finishes_with(a, printed_folder(stdout@))
            } else if success {
                finishes_with(a, Some(mac_path(trim_spec(stdout@))))
            } else {
                finishes_with(a, None)
            },
        },
    }
}

/// The folder that holds `path`, as `std::path::Path::parent` finds it:
/// nothing for a root or an empty path.
pub uninterp spec fn parent_of(path: Seq<char>) -> Option<Seq<char>>;

/// Where a file or folder is to be revealed: an error where `path` does not
/// exist, or is a file whose folder cannot be told; else the folder that
/// holds the file, or the folder itself.
pub open spec fn reveal_target_spec(path: Seq<char>, exists: bool, is_file: bool) -> Result<
    Seq<char>,
    Seq<char>,
> {
    if !exists {
        Err("File does not exist: "@ + path)
    } else if is_file {
        match parent_of(path) {
            Some(p) => Ok(p),
            None => Err("Cannot determine parent directory"@),
        }
    } else {
        Ok(path)
    }
}

/// Relies on `std::path::Path::parent`, the text of the folder that holds
/// `path`; that is a prefix of a UTF-8 path, so the lossy conversion keeps it.
#[verifier::external_body]
fn parent_dir(path: &str) -> (r: Option<String>)
    ensures
        match r {
            Some(p) => parent_of(path@) == Some(p@),
            None => parent_of(path@) is None,
        },
{
    std::path::Path::new(path).parent().map(|p| p.to_string_lossy().to_string())
}

/// A command of `program` with `args`.
fn shell_command(program: &str, args: Vec<&str>) -> (r: ShellCommand)
    ensures
        command_is(r, (program@, args@.map_values(|a: &str| a@))),
{
    let mut out: Vec<String> = Vec::new();
    for i in 0..args.len()
        invariant
            out@.len() == i,
            forall|k: int| 0 <= k < i ==> (#[trigger] out@[k])@ == args@[k]@,
    {
        out.push(String::from_str(args[i]));
    }
    ShellCommand { program: String::from_str(program), args: out }
}

/// The command that opens `path` with the application the host associates
/// with it; none on a platform without such a utility.
pub fn open_file_commands(platform: Platform, path: &str) -> (r: Vec<ShellCommand>)
    ensures
        plan_is(r@, open_file_plan(platform, path@)),
{
    let mut r: Vec<ShellCommand> = Vec::new();
    match platform {
        Platform::Windows => {
            let args = vec!["/C", "start", "", path];
            assert(args@.map_values(|a: &str| a@) =~= seq!["/C"@, "start"@, ""@, path@]);
            r.push(shell_command("cmd", args));
        },
        Platform::MacOs => {
            let args = vec![path];
            assert(args@.map_values(|a: &str| a@) =~= seq![path@]);
            r.push(shell_command("open", args));
        },
        Platform::Linux => {
            let args = vec![path];
            assert(args@.map_values(|a: &str| a@) =~= seq![path@]);
            r.push(shell_command("xdg-open", args));
        },
        Platform::Other => {},
    }
    r
}

/// The commands that show `path` in a file manager: the file selected where
/// the host can do so, else `folder`, the folder that holds it.
pub fn reveal_commands(platform: Platform, path: &str, is_file: bool, folder: &str) -> (r: Vec<
    ShellCommand,
>)
    ensures
        plan_is(r@, reveal_plan(platform, path@, is_file, folder@)),
{
    let mut r: Vec<ShellCommand> = Vec::new();
    let ghost folder_args = seq![folder@];
    match platform {
        Platform::Windows => {
            if is_file {
                let args = vec!["/select,", path];
                assert(args@.map_values(|a: &str| a@) =~= seq!["/select,"@, path@]);
                r.push(shell_command("explorer", args));
            } else {
                let args = vec![folder];
                assert(args@.map_values(|a: &str| a@) =~= folder_args);
                r.push(shell_command("explorer", args));
            }
        },
        Platform::MacOs => {
            if is_file {
                let args = vec!["-R", path];
                assert(args@.map_values(|a: &str| a@) =~= seq!["-R"@, path@]);
                r.push(shell_command("open", args));
            } else {
                let args = vec![folder];
                assert(args@.map_values(|a: &str| a@) =~= folder_args);
                r.push(shell_command("open", args));
            }
        },
        Platform::Linux => {
            if is_file {
                let ghost select_args = seq!["--select"@, path@];
                let managers: Vec<&str> = vec!["nautilus", "dolphin", "thunar", "pcmanfm"];
                let ghost plan = reveal_plan(platform, path@, is_file, folder@);
                for i in 0..managers.len()
                    invariant
                        managers@ == seq!["nautilus", "dolphin", "thunar", "pcmanfm"],
                        plan == reveal_plan(platform, path@, is_file, folder@),
                        platform is Linux,
                        is_file,
                        select_args == seq!["--select"@, path@],
                        r@.len() == i,
                        forall|k: int| 0 <= k < i ==> command_is(#[trigger] r@[k], plan[k]),
                {
                    let args = vec!["--select", path];
                    assert(args@.map_values(|a: &str| a@) =~= select_args);
                    r.push(shell_command(managers[i], args));
                }
            }
            let args = vec![folder];
            assert(args@.map_values(|a: &str| a@) =~= folder_args);
            r.push(shell_command("xdg-open", args));
        },
        Platform::Other => {},
    }
    r
}

/// The folder dialogs to try, in order.
pub fn dialog_commands(platform: Platform) -> (r: Vec<ShellCommand>)
    ensures
        plan_is(r@, dialog_plan(platform)),
{
    let mut r: Vec<ShellCommand> = Vec::new();
    let title = "--title=Select output folder for audio files";
    match platform {
        Platform::Windows => {
            let args = vec![
                "-Command",
                "Add-Type -AssemblyName System.Windows.Forms; $f = New-Object System.Windows.Forms.FolderBrowserDialog; $f.Description = 'Select output folder for audio files'; $f.SelectedPath = [Environment]::GetFolderPath('MyDocuments'); if ($f.ShowDialog() -eq 'OK') { $f.SelectedPath } else { '' }",
            ];
            assert(args@.map_values(|a: &str| a@) =~= seq!["-Command"@, windows_dialog_script()]);
            r.push(shell_command("powershell", args));
        },
        Platform::MacOs => {
            let args = vec![
                "-e",
                "set chosenFolder to choose folder with prompt \"Select output folder for audio files:\" default location (path to documents folder)",
            ];
            assert(args@.map_values(|a: &str| a@) =~= seq!["-e"@, mac_dialog_script()]);
            r.push(shell_command("osascript", args));
        },
        Platform::Linux => {
            let args = vec!["--file-selection", "--directory", title];
            assert(args@.map_values(|a: &str| a@) =~= dialog_plan(platform)[0].1);
            r.push(shell_command("zenity", args));
            let args = vec![
                "--getexistingdirectory",
                ".",
                "--title",
                "Select output folder for audio files",
            ];
            assert(args@.map_values(|a: &str| a@) =~= dialog_plan(platform)[1].1);
            r.push(shell_command("kdialog", args));
            let args = vec!["--file-selection", "--directory", title];
            assert(args@.map_values(|a: &str| a@) =~= dialog_plan(platform)[2].1);
            r.push(shell_command("yad", args));
        },
        Platform::Other => {},
    }
    r
}

/// The first step of a launch whose plan holds `count` commands: the first
/// command, or, with none, an immediate success.
pub fn launch_start(count: usize) -> (a: LaunchAction)
    ensures
        count == 0 ==> a == LaunchAction::Finish(Ok(())),
        count > 0 ==> a == LaunchAction::Run(0),
{
    if count == 0 {
        LaunchAction::Finish(Ok(()))
    } else {
        LaunchAction::Run(0)
    }
}

/// The step after command `index` of a plan of `count` commands: a command
/// that starts ends the launch with success; one that fails hands over to
/// the next, and the failure of the last is the launch's error.
pub fn launch_next(count: usize, index: usize, outcome: Spawned, purpose: LaunchPurpose) -> (a:
    LaunchAction)
    requires
        index < count,
    ensures
        match outcome {
            Spawned::Started => a == LaunchAction::Finish(Ok(())),
            Spawned::Failed(detail) => if index + 1 < count {
                a == LaunchAction::Run((index + 1) as usize)
            } else {
                a matches LaunchAction::Finish(Err(e)) && e@ == launch_failure(purpose, detail@)
            },
        },
{
    match outcome {
        Spawned::Started => LaunchAction::Finish(Ok(())),
        Spawned::Failed(detail) => {
            if index + 1 < count {
                LaunchAction::Run(index + 1)
            } else {
                let prefix = match purpose {
                    LaunchPurpose::OpenFile => "Failed to open file: ",
                    LaunchPurpose::RevealFolder => "Failed to open folder: ",
                };
                LaunchAction::Finish(Err(String::from_str(prefix).concat(detail.as_str())))
            }
        },
    }
}

/// Where `path` is to be revealed, given whether it exists and whether it is
/// a file.
pub fn reveal_target(path: &str, exists: bool, is_file: bool) -> (r: Result<String, String>)
    ensures
        match reveal_target_spec(path@, exists, is_file) {
            Ok(p) => r is Ok && r->Ok_0@ == p,
            Err(e) => r is Err && r->Err_0@ == e,
        },
{
    if !exists {
        Err(String::from_str("File does not exist: ").concat(path))
    } else if is_file {
        match parent_dir(path) {
            Some(p) => Ok(p),
            None => Err(String::from_str("Cannot determine parent directory")),
        }
    } else {
        Ok(String::from_str(path))
    }
}

/// A folder path as the AppleScript dialog prints it, in Unix form.
pub fn mac_to_unix_path(path: &str) -> (r: String)
    ensures
        r@ == mac_path(path@),
{
    proof {
        reveal_strlit(":");
        reveal_strlit("Macintosh HD");
    }
    let slashed = replace_text(path, ":", "/");
    replace_text(slashed.as_str(), "Macintosh HD", "")
}

/// The folder offered when no dialog yields one.
pub fn default_output_folder(home: Option<String>) -> (r: String)
    ensures
        r@ == default_folder(
            match home {
                Some(h) => Some(h@),
                None => None,
            },
        ),
{
    match home {
        Some(h) => h.concat("/Downloads"),
        None => String::from_str("/tmp"),
    }
}

/// The first step of asking for a folder: the first dialog, or, where the
/// platform has none, no folder.
pub fn dialog_start(platform: Platform) -> (a: DialogAction)
    ensures
        dialog_plan(platform).len() == 0 ==> finishes_with(a, None),
        dialog_plan(platform).len() > 0 ==> a == DialogAction::Run(0),
{
    match platform {
        Platform::Other => DialogAction::Finish(Ok(None)),
        _ => DialogAction::Run(0),
    }
}

/// The trimmed text a dialog printed, or nothing where that is empty.
fn folder_printed(stdout: &str) -> (r: Option<String>)
    ensures
        match printed_folder(stdout@) {
            Some(f) => r is Some && r->0@ == f,
            None => r is None,
        },
{
    let t = trim_text(stdout);
    if t.as_str().unicode_len() == 0 {
        None
    } else {
        Some(t)
    }
}

/// The step after dialog `index` of the plan for `platform` has run, with
/// `home` the user's home folder where it is known.
pub fn dialog_step(platform: Platform, index: usize, event: DialogEvent, home: Option<String>) -> (a:
    DialogAction)
    requires
        index < dialog_plan(platform).len(),
    ensures
        dialog_decides(
            platform,
            index as int,
            event,
            match home {
                Some(h) => Some(h@),
                None => None,
            },
            a,
        ),
{
    match platform {
        Platform::Linux => {
            let found = match &event {
                DialogEvent::Exited { success: true, stdout } => folder_printed(stdout.as_str()),
                _ => None,
            };
            match found {
                Some(f) => DialogAction::Finish(Ok(Some(f))),
                None => {
                    if index + 1 < 3 {
                        DialogAction::Run(index + 1)
                    } else {
                        DialogAction::Finish(Ok(Some(default_output_folder(home))))
                    }
                },
            }
        },
        _ => match event {
            DialogEvent::Failed(detail) => DialogAction::Finish(
                Err(String::from_str("Failed to open folder dialog: ").concat(detail.as_str())),
            ),
            DialogEvent::Exited { success, stdout } => {
                if platform == Platform::Windows {
                    DialogAction::Finish(Ok(folder_printed(stdout.as_str())))
                } else if success {
                    let t = trim_text(stdout.as_str());
                    DialogAction::Finish(Ok(Some(mac_to_unix_path(t.as_str()))))
                } else {
                    DialogAction::Finish(Ok(None))
                }
            },
        },
    }
}

} // verus!
