//! Saved settings and their resolution against the environment: saved values
//! come first, then environment variables, then built-in defaults.

use vstd::prelude::*;
use vstd::string::*;
use crate::paths::{joined_path, join_path, plain_component};
use crate::text::{
    blank, chars_of, clone_opt, is_blank, join3, opt_view, parse_u16, parse_u16_chars, trim,
    trim_chars,
};

verus! {

/// Environment variable naming the ComfyUI folder.
pub const ENV_COMFYUI_PATH: &'static str = "COMFYUI_PATH";

/// Environment variable naming the Python executable.
pub const ENV_COMFYUI_PYTHON: &'static str = "COMFYUI_PYTHON";

/// Environment variable giving the port.
pub const ENV_COMFYUI_PORT: &'static str = "COMFYUI_PORT";

/// Environment variable giving extra arguments for ComfyUI.
pub const ENV_COMFYUI_EXTRA_ARGS: &'static str = "COMFYUI_EXTRA_ARGS";

/// The port that ComfyUI listens on when nothing else is chosen.
pub const DEFAULT_PORT: u16 = 8188;

/// Settings that the user saved (every field may be missing).
#[derive(Debug, Clone)]
pub struct AppSettings {
    /// Full path to the ComfyUI folder (must contain main.py)
    pub comfyui_path: Option<String>,
    /// Full path to the Python executable to use (e.g. from a chosen venv)
    pub python_path: Option<String>,
    /// Default port to launch ComfyUI on
    pub default_port: Option<u16>,
    /// Extra arguments to pass to ComfyUI (e.g. "--cuda-device 0 --force-fp16")
    pub extra_args: Option<String>,
}

impl Default for AppSettings {
    /// Settings with nothing saved.
    fn default() -> (r: Self)
        ensures
            r.comfyui_path is None,
            r.python_path is None,
            r.default_port is None,
            r.extra_args is None,
    {
        AppSettings { comfyui_path: None, python_path: None, default_port: None, extra_args: None }
    }
}

/// What the environment offers when the settings leave a value open: each
/// variable as read (`None` when it is unset or not valid Unicode), and the
/// working directory, under which the default ComfyUI folder lies.
#[derive(Debug, Clone)]
pub struct LaunchEnvironment {
    /// The value of `COMFYUI_PATH`.
    pub comfyui_path: Option<String>,
    /// The value of `COMFYUI_PYTHON`.
    pub comfyui_python: Option<String>,
    /// The value of `COMFYUI_PORT`.
    pub comfyui_port: Option<String>,
    /// The value of `COMFYUI_EXTRA_ARGS`.
    pub comfyui_extra_args: Option<String>,
    /// The working directory (empty when it cannot be read).
    pub current_dir: String,
}

/// The configuration that will actually be used, with where each value came from.
#[derive(Debug, Clone)]
pub struct EffectiveSettings {
    /// The ComfyUI folder that will actually be used
    pub comfyui_path: String,
    /// The Python executable that will actually be used
    pub python_path: String,
    /// The port that will actually be used
    pub default_port: u16,
    /// Where the ComfyUI folder came from
    pub comfyui_source: String,
    /// Where the Python executable came from
    pub python_source: String,
    /// Where the port came from
    pub port_source: String,
    /// Extra arguments that will be passed (saved, or from COMFYUI_EXTRA_ARGS)
    pub extra_args: Option<String>,
}

/// The source label of a value taken from the environment variable `name`.
pub open spec fn env_source(name: Seq<char>) -> Seq<char> {
    "Environment Variable ("@ + name + ")"@
}

/// The source label of a saved value.
pub open spec fn saved_source() -> Seq<char> {
    "Saved Settings"@
}

/// The value chosen before any default, with its source: the saved value
/// unless it is missing or blank, then the environment variable `name` unless
/// it is missing or blank; `None` when both are missing or blank.
pub open spec fn chosen_value(saved: Option<String>, env: Option<String>, name: Seq<char>) -> Option<
    (Seq<char>, Seq<char>),
> {
    if saved is Some && !is_blank(saved->0@) {
        Some((saved->0@, saved_source()))
    } else if env is Some && !is_blank(env->0@) {
        Some((env->0@, env_source(name)))
    } else {
        None
    }
}

/// A value and its source: the chosen value, else `default`.
pub open spec fn resolve_choice(
    saved: Option<String>,
    env: Option<String>,
    name: Seq<char>,
    default: (Seq<char>, Seq<char>),
) -> (Seq<char>, Seq<char>) {
    match chosen_value(saved, env, name) {
        Some(v) => v,
        None => default,
    }
}

/// The source label of the default ComfyUI folder.
pub open spec fn default_comfyui_source() -> Seq<char> {
    "Default (./comfyui)"@
}

/// Whether `dir` and `source` are the default ComfyUI folder, `comfyui`
/// under the working directory `cwd`, and its label.
pub open spec fn is_default_comfyui(cwd: Seq<char>, dir: Seq<char>, source: Seq<char>) -> bool {
    joined_path(cwd, "comfyui"@, dir) && source == default_comfyui_source()
}

/// Whether `dir` and `source` are the ComfyUI folder and its source that
/// `settings` resolve to in `env`.
pub open spec fn resolves_comfyui(
    settings: AppSettings,
    env: LaunchEnvironment,
    dir: Seq<char>,
    source: Seq<char>,
) -> bool {
    match chosen_value(settings.comfyui_path, env.comfyui_path, ENV_COMFYUI_PATH@) {
        Some(v) => (dir, source) == v,
        None => is_default_comfyui(env.current_dir@, dir, source),
    }
}

/// The default Python executable and its source label.
pub open spec fn default_python() -> (Seq<char>, Seq<char>) {
    ("python"@, "Default (python in PATH)"@)
}

/// The port and its source: the saved port; else the trimmed value of
/// `COMFYUI_PORT` read as a `u16`, with 8188 when it does not read; else 8188.
pub open spec fn resolve_port(saved: Option<u16>, env: Option<String>) -> (u16, Seq<char>) {
    if saved is Some {
        (saved->0, saved_source())
    } else if env is Some {
        match parse_u16(trim(env->0@)) {
            Some(p) => (p, env_source(ENV_COMFYUI_PORT@)),
            None => (DEFAULT_PORT, "Default (invalid COMFYUI_PORT)"@),
        }
    } else {
        (DEFAULT_PORT, "Default"@)
    }
}

/// The extra arguments: the saved ones, even when blank; else those of
/// `COMFYUI_EXTRA_ARGS` unless missing or blank.
pub open spec fn resolve_extra_args(saved: Option<String>, env: Option<String>) -> Option<
    Seq<char>,
> {
    if saved is Some {
        Some(saved->0@)
    } else if env is Some && !is_blank(env->0@) {
        Some(env->0@)
    } else {
        None
    }
}

/// The saved port, or 8188.
pub open spec fn saved_or_default_port(settings: AppSettings) -> u16 {
    match settings.default_port {
        Some(p) => p,
        None => DEFAULT_PORT,
    }
}

/// Whether `r` is what `settings` resolve to in `env`.
pub open spec fn resolves_to(
    settings: AppSettings,
    env: LaunchEnvironment,
    r: EffectiveSettings,
) -> bool {
    &&& resolves_comfyui(settings, env, r.comfyui_path@, r.comfyui_source@)
    &&& (r.python_path@, r.python_source@) == resolve_choice(
        settings.python_path,
        env.comfyui_python,
        ENV_COMFYUI_PYTHON@,
        default_python(),
    )
    &&& (r.default_port, r.port_source@) == resolve_port(settings.default_port, env.comfyui_port)
    &&& opt_view(r.extra_args) == resolve_extra_args(settings.extra_args, env.comfyui_extra_args)
}

/// The label of a value taken from the environment variable `name`.
fn env_source_label(name: &str) -> (r: String)
    ensures
        r@ == env_source(name@),
{
    join3("Environment Variable (", name, ")")
}

/// Chooses between a saved value, an environment variable and a default.
fn choose_value(
    saved: &Option<String>,
    env: &Option<String>,
    name: &str,
    default: (String, String),
) -> (r: (String, String))
    ensures
        (r.0@, r.1@) == resolve_choice(*saved, *env, name@, (default.0@, default.1@)),
{
    if let Some(p) = saved {
        if !blank(p.as_str()) {
            return (p.clone(), String::from_str("Saved Settings"));
        }
    }
    if let Some(e) = env {
        if !blank(e.as_str()) {
            return (e.clone(), env_source_label(name));
        }
    }
    default
}

impl AppSettings {
    /// The saved port, or 8188.
    pub fn effective_port(&self) -> (port: u16)
        ensures
            port == saved_or_default_port(*self),
    {
        match self.default_port {
            Some(p) => p,
            None => DEFAULT_PORT,
        }
    }

    /// The default ComfyUI folder, `comfyui` under the working directory
    /// `cwd`, with its source label.
    pub fn default_comfyui_path(cwd: &str) -> (r: (String, String))
        ensures
            is_default_comfyui(cwd@, r.0@, r.1@),
    {
        proof {
            reveal_strlit("comfyui");
            let n = "comfyui"@;
            assert(n =~= seq!['c', 'o', 'm', 'f', 'y', 'u', 'i']);
            assert(n != seq!['.']);
            assert(n != seq!['.', '.']);
            assert(plain_component(n));
        }
        (join_path(cwd, "comfyui"), String::from_str("Default (./comfyui)"))
    }

    /// The default Python executable, `python` from the PATH, with its source label.
    pub fn default_python_path() -> (r: (String, String))
        ensures
            (r.0@, r.1@) == default_python(),
    {
        (String::from_str("python"), String::from_str("Default (python in PATH)"))
    }

    /// Resolves the final values to use, with this priority:
    /// 1. saved settings (when not blank),
    /// 2. environment variables (when not blank),
    /// 3. built-in defaults.
    pub fn resolve_effective(&self, env: &LaunchEnvironment) -> (r: EffectiveSettings)
        ensures
            resolves_to(*self, *env, r),
            self.extra_args is Some ==> opt_view(r.extra_args) == Some(self.extra_args->0@),
    {
        let (comfyui_path, comfyui_source) = choose_value(
            &self.comfyui_path,
            &env.comfyui_path,
            ENV_COMFYUI_PATH,
            Self::default_comfyui_path(env.current_dir.as_str()),
        );
        let (python_path, python_source) = choose_value(
            &self.python_path,
            &env.comfyui_python,
            ENV_COMFYUI_PYTHON,
            Self::default_python_path(),
        );
        let (port, port_source) = match self.default_port {
            Some(p) => (p, String::from_str("Saved Settings")),
            None => match &env.comfyui_port {
                Some(v) => {
                    let trimmed = trim_chars(&chars_of(v.as_str()));
                    match parse_u16_chars(&trimmed) {
                        Some(parsed) => (parsed, env_source_label(ENV_COMFYUI_PORT)),
                        None => (DEFAULT_PORT, String::from_str("Default (invalid COMFYUI_PORT)")),
                    }
                },
                None => (DEFAULT_PORT, String::from_str("Default")),
            },
        };
        let extra_args = resolve_extra(&self.extra_args, &env.comfyui_extra_args);
        EffectiveSettings {
            comfyui_path,
            python_path,
            default_port: port,
            comfyui_source,
            python_source,
            port_source,
            extra_args,
        }
    }
}

/// The extra arguments: the saved ones, else the environment's unless blank.
pub fn resolve_extra(saved: &Option<String>, env: &Option<String>) -> (r: Option<String>)
    ensures
        opt_view(r) == resolve_extra_args(*saved, *env),
{
    match saved {
        Some(s) => Some(s.clone()),
        None => match env {
            Some(e) => {
                if blank(e.as_str()) {
                    None
                } else {
                    Some(e.clone())
                }
            },
            None => None,
        },
    }
}

} // verus!
