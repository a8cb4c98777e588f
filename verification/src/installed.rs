//! Which executables count as an installed server, and how the Ollama
//! server is launched.

use crate::fstree::{find_first_with_names, first_match, FsNode};
use crate::platform::{Os, ServerKind};
use crate::supervisor::{LaunchModel, LaunchPlan};
use crate::text::texts;
use vstd::prelude::*;
use vstd::string::*;

verus! {

/// How deep the install directory is searched to tell whether a server is
/// installed.
pub const INSTALLED_SEARCH_DEPTH: u8 = 5;

/// How deep the install directory is searched for the executable to launch.
pub const LAUNCH_SEARCH_DEPTH: u8 = 8;

/// The file names under which the executable of an engine may be installed
/// on an operating system; `None` stands for a system that is none of the
/// three known ones.
pub open spec fn executable_names_of(kind: ServerKind, os: Option<Os>) -> Seq<Seq<char>> {
    match kind {
        ServerKind::LlamaCpp => if os == Some(Os::Windows) {
            seq!["llama-server.exe"@]
        } else {
            seq!["llama-server"@]
        },
        ServerKind::Ollama => if os == Some(Os::Windows) {
            seq!["ollama.exe"@, "ollama-windows-amd64.exe"@, "ollama-windows-arm64.exe"@]
        } else {
            seq!["ollama"@]
        },
    }
}

/// The executable names of an engine on an operating system.
pub fn executable_names(kind: ServerKind, os: Option<Os>) -> (names: Vec<String>)
    ensures
        texts(names@) == executable_names_of(kind, os),
{
    let mut names: Vec<String> = Vec::new();
    let windows = match os {
        Some(Os::Windows) => true,
        _ => false,
    };
    match kind {
        ServerKind::LlamaCpp => {
            if windows {
                names.push(String::from_str("llama-server.exe"));
            } else {
                names.push(String::from_str("llama-server"));
            }
        },
        ServerKind::Ollama => {
            if windows {
                names.push(String::from_str("ollama.exe"));
                names.push(String::from_str("ollama-windows-amd64.exe"));
                names.push(String::from_str("ollama-windows-arm64.exe"));
            } else {
                names.push(String::from_str("ollama"));
            }
        },
    }
    assert(texts(names@) =~= executable_names_of(kind, os));
    names
}

/// A server is installed when one of its executables is found in the
/// listing of its install directory. For Ollama on macOS the disk image in
/// that directory counts as well, and on an unknown system Ollama is never
/// installed.
pub open spec fn installed_as(
    kind: ServerKind,
    os: Option<Os>,
    entries: Seq<FsNode>,
    installer_present: bool,
) -> bool {
    let found = first_match(
        entries,
        executable_names_of(kind, os),
        INSTALLED_SEARCH_DEPTH as nat,
    ) is Some;
    match kind {
        ServerKind::LlamaCpp => found,
        ServerKind::Ollama => match os {
            Some(Os::Macos) => installer_present || found,
            Some(_) => found,
            None => false,
        },
    }
}

/// Tells whether a server is installed, from the listing of its install
/// directory. `installer_present` says whether the directory holds the file
/// `Ollama.dmg`.
pub fn is_installed(
    kind: ServerKind,
    os: Option<Os>,
    entries: &Vec<FsNode>,
    installer_present: bool,
) -> (installed: bool)
    ensures
        installed == installed_as(kind, os, entries@, installer_present),
{
    let names = executable_names(kind, os);
    match kind {
        ServerKind::LlamaCpp => find_first_with_names(
            entries,
            &names,
            INSTALLED_SEARCH_DEPTH,
        ).is_some(),
        ServerKind::Ollama => match os {
            Some(Os::Macos) => installer_present || find_first_with_names(
                entries,
                &names,
                INSTALLED_SEARCH_DEPTH,
            ).is_some(),
            Some(_) => find_first_with_names(entries, &names, INSTALLED_SEARCH_DEPTH).is_some(),
            None => false,
        },
    }
}

/// The variant of the Ollama server to launch: the configured one, or the
/// CPU build where none is configured.
pub fn ollama_variant(configured: Option<&str>) -> (variant: String)
    ensures
        variant@ == match configured {
            Some(v) => v@,
            None => "cpu"@,
        },
{
    match configured {
        Some(v) => String::from_str(v),
        None => String::from_str("cpu"),
    }
}

/// How Ollama is launched: the installed binary, run in its directory where
/// that is known, or else whatever `ollama` the search path offers; either
/// way with the single argument `serve`.
pub open spec fn ollama_launch_of(installed: Option<Seq<char>>, dir: Option<Seq<char>>) -> LaunchModel {
    match installed {
        Some(program) => LaunchModel { program, working_dir: dir, args: seq!["serve"@] },
        None => LaunchModel { program: "ollama"@, working_dir: None, args: seq!["serve"@] },
    }
}

/// Plans the launch of the Ollama server. `installed` is the executable
/// found in the install directory, if any, and `dir` that directory in
/// canonical form, if it could be had.
pub fn ollama_launch(installed: Option<&str>, dir: Option<&str>) -> (plan: LaunchPlan)
    ensures
        plan@ == ollama_launch_of(
            match installed {
                Some(p) => Some(p@),
                None => None,
            },
            match dir {
                Some(d) => Some(d@),
                None => None,
            },
        ),
{
    let mut args: Vec<String> = Vec::new();
    args.push(String::from_str("serve"));
    assert(texts(args@) =~= seq!["serve"@]);
    match installed {
        Some(program) => LaunchPlan {
            program: String::from_str(program),
            working_dir: match dir {
                Some(d) => Some(String::from_str(d)),
                None => None,
            },
            args,
        },
        None => LaunchPlan { program: String::from_str("ollama"), working_dir: None, args },
    }
}

/// The text of a failed launch of Ollama.
pub fn ollama_spawn_error(os_error: &str) -> (m: String)
    ensures
        m@ == "Ошибка запуска Ollama: "@ + os_error@
            + ". Убедитесь, что Ollama установлен и доступен в PATH или установите через 'Установка сервера'."@,
{
    let mut m = String::from_str("Ошибка запуска Ollama: ");
    m.append(os_error);
    m.append(
        ". Убедитесь, что Ollama установлен и доступен в PATH или установите через 'Установка сервера'.",
    );
    m
}

} // verus!
