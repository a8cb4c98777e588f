//! The process supervisor's decisions: how a server is launched, when a
//! launch is refused, and what stopping means for a given process-id
//! record.
//!
//! Spawning, killing and the record on disk are the caller's part. It looks
//! up the executable, asks for a [`LaunchPlan`], spawns it and stores the
//! process id; to stop, it reads the record, asks for a [`StopPlan`] and
//! carries it out. Whatever the plan, the record is gone afterwards.

use crate::text::{
    decimal, push_decimal, same_text, strip_leading, text_starts_with, texts, trim_start_matches,
};
use vstd::prelude::*;
use vstd::string::*;

verus! {

/// The context window that every server is started with.
pub open spec fn context_size() -> Seq<char> {
    "2048"@
}

/// The only address a server binds to.
pub open spec fn loopback() -> Seq<char> {
    "127.0.0.1"@
}

/// Where the process id of a running llama.cpp server is kept, relative to
/// the data directory. There is one record per engine, whatever the variant.
pub open spec fn pid_record_of() -> Seq<char> {
    "runtime/llama-cpp/llama-server.pid"@
}

/// The path of the process-id record, relative to the data directory.
pub fn pid_record_path() -> (path: String)
    ensures
        path@ == pid_record_of(),
{
    String::from_str("runtime/llama-cpp/llama-server.pid")
}

/// How a model is addressed: by a reference into a remote registry or by the
/// path of a local file, never both.
pub enum ModelRef {
    Remote { reference: String },
    Local { path: String },
}

/// Mathematical form of a [`ModelRef`].
pub enum ModelRefModel {
    Remote { reference: Seq<char> },
    Local { path: Seq<char> },
}

impl View for ModelRef {
    type V = ModelRefModel;

    open spec fn view(&self) -> ModelRefModel {
        match *self {
            ModelRef::Remote { reference } => ModelRefModel::Remote { reference: reference@ },
            ModelRef::Local { path } => ModelRefModel::Local { path: path@ },
        }
    }
}

/// A model given as `hf:<reference>` lives in the remote registry; anything
/// else is the path of a local file.
pub open spec fn model_ref_of(model: Seq<char>) -> ModelRefModel {
    if "hf:"@.is_prefix_of(model) {
        ModelRefModel::Remote { reference: strip_leading(model, "hf:"@) }
    } else {
        ModelRefModel::Local { path: model }
    }
}

/// Tells how `model` addresses its model.
pub fn model_reference(model: &str) -> (r: ModelRef)
    ensures
        r@ == model_ref_of(model@),
{
    if text_starts_with(model, "hf:") {
        ModelRef::Remote { reference: trim_start_matches(model, "hf:") }
    } else {
        ModelRef::Local { path: String::from_str(model) }
    }
}

/// Whether builds of the variant run on the CPU only.
pub open spec fn is_cpu_only(variant: Seq<char>) -> bool {
    variant == "cpu"@ || variant == "cpu_arm"@
}

/// The GPU-offload level for a variant: nothing for CPU-only builds,
/// everything for all others.
pub open spec fn offload_level_of(variant: Seq<char>) -> Seq<char> {
    if is_cpu_only(variant) {
        "0"@
    } else {
        "99"@
    }
}

/// The value of the GPU-offload option for `variant`.
pub fn offload_level(variant: &str) -> (level: &'static str)
    ensures
        level@ == offload_level_of(variant@),
{
    if same_text(variant, "cpu") || same_text(variant, "cpu_arm") {
        "0"
    } else {
        "99"
    }
}

/// Whether a build of `variant` cannot run on a host of architecture
/// `host_arch`: the ARM build on anything but ARM.
pub open spec fn arch_mismatch(variant: Seq<char>, host_arch: Seq<char>) -> bool {
    variant == "cpu_arm"@ && host_arch != "aarch64"@
}

/// Whether a build of `variant` is unfit for a host of `host_arch`.
pub fn is_arch_mismatch(variant: &str, host_arch: &str) -> (r: bool)
    ensures
        r == arch_mismatch(variant@, host_arch@),
{
    same_text(variant, "cpu_arm") && !same_text(host_arch, "aarch64")
}

/// Why a server was not started.
#[derive(Clone, Copy, Debug, PartialEq, Eq, Structural)]
pub enum StartErrorKind {
    /// No server executable was found in the install directory.
    ExecutableNotFound,
    /// The variant is built for another architecture than the host's.
    UnsupportedArchitecture,
    /// The local model file does not exist.
    ModelNotFound,
}

/// A refused launch, with the text for the caller.
#[derive(Clone, Debug)]
pub struct StartError {
    pub kind: StartErrorKind,
    pub message: String,
}

/// What to spawn.
#[derive(Clone, Debug)]
pub struct LaunchPlan {
    /// Path of the executable.
    pub program: String,
    /// The directory to run it in, if it is to be set.
    pub working_dir: Option<String>,
    /// Its arguments.
    pub args: Vec<String>,
}

/// Mathematical form of a [`LaunchPlan`].
pub struct LaunchModel {
    pub program: Seq<char>,
    pub working_dir: Option<Seq<char>>,
    pub args: Seq<Seq<char>>,
}

impl View for LaunchPlan {
    type V = LaunchModel;

    open spec fn view(&self) -> LaunchModel {
        LaunchModel {
            program: self.program@,
            working_dir: match self.working_dir {
                Some(d) => Some(d@),
                None => None,
            },
            args: texts(self.args@),
        }
    }
}

/// The arguments of a llama.cpp server: the model by exactly one of its two
/// addresses, the fixed context size, the offload level of the variant, the
/// loopback address and the port.
pub open spec fn server_args_of(model: ModelRefModel, variant: Seq<char>, port: u16) -> Seq<
    Seq<char>,
> {
    let address = match model {
        ModelRefModel::Remote { reference } => seq!["-hf"@, reference],
        ModelRefModel::Local { path } => seq!["-m"@, path],
    };
    address + seq![
        "-c"@,
        context_size(),
        "-ngl"@,
        offload_level_of(variant),
        "--host"@,
        loopback(),
        "--port"@,
        decimal(port as nat),
    ]
}

/// Builds the argument list of a llama.cpp server.
pub fn server_args(model: &ModelRef, variant: &str, port: u16) -> (args: Vec<String>)
    ensures
        texts(args@) == server_args_of(model@, variant@, port),
{
    let mut args: Vec<String> = Vec::new();
    match model {
        ModelRef::Remote { reference } => {
            args.push(String::from_str("-hf"));
            args.push(reference.clone());
        },
        ModelRef::Local { path } => {
            args.push(String::from_str("-m"));
            args.push(path.clone());
        },
    }
    args.push(String::from_str("-c"));
    args.push(String::from_str("2048"));
    args.push(String::from_str("-ngl"));
    args.push(String::from_str(offload_level(variant)));
    args.push(String::from_str("--host"));
    args.push(String::from_str("127.0.0.1"));
    args.push(String::from_str("--port"));
    let mut port_text = String::new();
    push_decimal(&mut port_text, port as u64);
    assert(port_text@ =~= decimal(port as nat));
    args.push(port_text);
    assert(texts(args@) =~= server_args_of(model@, variant@, port));
    args
}

/// The text of a refused launch.
pub open spec fn start_error_text(
    kind: StartErrorKind,
    base_dir: Seq<char>,
    host_arch: Seq<char>,
    model: Seq<char>,
) -> Seq<char> {
    match kind {
        StartErrorKind::ExecutableNotFound => "Не найден llama-server.exe в "@ + base_dir,
        StartErrorKind::UnsupportedArchitecture => "Вариант 'CPU only (ARM)' поддерживается только на Windows ARM64 (aarch64). Текущая архитектура: "@
            + host_arch + ". Пожалуйста, выберите вариант 'CPU'."@,
        StartErrorKind::ModelNotFound => "Файл модели не найден: "@ + model,
    }
}

/// The outcome of planning a launch. The executable is looked for first,
/// then the architecture is checked, and a local model file has to exist;
/// the first of these that fails decides the error, and nothing is spawned.
pub open spec fn start_outcome(
    executable: Option<Seq<char>>,
    variant: Seq<char>,
    host_arch: Seq<char>,
    model: Seq<char>,
    model_file_exists: bool,
) -> Result<(), StartErrorKind> {
    if executable is None {
        Err(StartErrorKind::ExecutableNotFound)
    } else if arch_mismatch(variant, host_arch) {
        Err(StartErrorKind::UnsupportedArchitecture)
    } else if model_ref_of(model) is Local && !model_file_exists {
        Err(StartErrorKind::ModelNotFound)
    } else {
        Ok(())
    }
}

/// Whether `r` is the plan or the refusal that the inputs call for.
pub open spec fn start_result_is(
    r: Result<LaunchPlan, StartError>,
    executable: Option<Seq<char>>,
    base_dir: Seq<char>,
    variant: Seq<char>,
    host_arch: Seq<char>,
    model: Seq<char>,
    model_file_exists: bool,
    port: u16,
) -> bool {
    match start_outcome(executable, variant, host_arch, model, model_file_exists) {
        Ok(()) => r matches Ok(plan) && plan@ == (LaunchModel {
            program: executable->0,
            working_dir: Some(base_dir),
            args: server_args_of(model_ref_of(model), variant, port),
        }),
        Err(kind) => r matches Err(e) && e.kind == kind && e.message@ == start_error_text(
            kind,
            base_dir,
            host_arch,
            model,
        ),
    }
}

fn joined(head: &str, tail: &str) -> (s: String)
    ensures
        s@ == head@ + tail@,
{
    let mut s = String::from_str(head);
    s.append(tail);
    s
}

/// Plans the launch of a llama.cpp server. `executable` is the server
/// binary found below `base_dir`, if any; `model_file_exists` says whether
/// `model`, taken as a local path, names an existing file.
pub fn plan_start(
    executable: Option<&str>,
    base_dir: &str,
    variant: &str,
    host_arch: &str,
    model: &str,
    model_file_exists: bool,
    port: u16,
) -> (r: Result<LaunchPlan, StartError>)
    ensures
        start_result_is(
            r,
            match executable {
                Some(e) => Some(e@),
                None => None,
            },
            base_dir@,
            variant@,
            host_arch@,
            model@,
            model_file_exists,
            port,
        ),
{
    let program = match executable {
        Some(p) => p,
        None => {
            return Err(
                StartError {
                    kind: StartErrorKind::ExecutableNotFound,
                    message: joined("Не найден llama-server.exe в ", base_dir),
                },
            );
        },
    };
    if is_arch_mismatch(variant, host_arch) {
        let mut message = joined(
            "Вариант 'CPU only (ARM)' поддерживается только на Windows ARM64 (aarch64). Текущая архитектура: ",
            host_arch,
        );
        message.append(". Пожалуйста, выберите вариант 'CPU'.");
        return Err(StartError { kind: StartErrorKind::UnsupportedArchitecture, message });
    }
    let target = model_reference(model);
    let missing = match &target {
        ModelRef::Local { .. } => !model_file_exists,
        ModelRef::Remote { .. } => false,
    };
    if missing {
        return Err(
            StartError {
                kind: StartErrorKind::ModelNotFound,
                message: joined("Файл модели не найден: ", model),
            },
        );
    }
    Ok(
        LaunchPlan {
            program: String::from_str(program),
            working_dir: Some(String::from_str(base_dir)),
            args: server_args(&target, variant, port),
        },
    )
}

/// The text of a failed spawn: the operating system's error behind a fixed
/// introduction.
pub fn spawn_error_message(os_error: &str) -> (m: String)
    ensures
        m@ == "Ошибка запуска сервера: "@ + os_error@,
{
    joined("Ошибка запуска сервера: ", os_error)
}

/// An ARM-only build is never launched on a host of another architecture:
/// wherever an executable is installed, the launch is refused before
/// anything is spawned. Without an executable the launch is refused as
/// well, for that reason.
pub proof fn arm_build_is_refused_elsewhere(
    executable: Option<Seq<char>>,
    host_arch: Seq<char>,
    model: Seq<char>,
    model_file_exists: bool,
)
    requires
        host_arch != "aarch64"@,
    ensures
        start_outcome(executable, "cpu_arm"@, host_arch, model, model_file_exists) is Err,
        executable is Some ==> start_outcome(
            executable,
            "cpu_arm"@,
            host_arch,
            model,
            model_file_exists,
        ) == Err::<(), StartErrorKind>(StartErrorKind::UnsupportedArchitecture),
{
}

/// The launch rules follow the variant's nature: a build that can use a GPU
/// offloads everything, a CPU-only build nothing, and the build for ARM
/// processors is the one that other hosts refuse.
pub proof fn launch_rules_follow_the_variant(variant: crate::platform::Variant, host_arch: Seq<char>)
    ensures
        offload_level_of(variant.tag_of()) == if variant.is_gpu_capable() {
            "99"@
        } else {
            "0"@
        },
        arch_mismatch(variant.tag_of(), host_arch) == (variant.is_arm_only() && host_arch
            != "aarch64"@),
{
    crate::platform::variant_tags_are_distinct(variant);
    crate::platform::variant_tags_are_distinct(crate::platform::Variant::Cpu);
    crate::platform::variant_tags_are_distinct(crate::platform::Variant::CpuArm);
}

} // verus!
