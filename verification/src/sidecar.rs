//! The ComfyUI sidecar: what the manager knows of the process, the launch it
//! plans, and the replies it gives to start, stop, health and readiness
//! requests. The process itself, and every HTTP request, stay with the caller,
//! which performs the action that a step returns and hands back its outcome.

use vstd::prelude::*;
use vstd::string::*;
use crate::http_status::{http_status_text, status_is_success, status_text};
use crate::settings::{
    chosen_value, default_python, resolve_choice, resolve_extra, resolve_extra_args, resolves_comfyui,
    resolve_port, AppSettings, LaunchEnvironment, DEFAULT_PORT, ENV_COMFYUI_PATH,
    ENV_COMFYUI_PYTHON,
};
use crate::text::{blank, decimal, decimal_string, join2, join3, split_words, string_views, words};

verus! {

/// The state of the sidecar as a caller sees it.
#[derive(Debug, Clone)]
pub struct ComfyStatus {
    pub running: bool,
    pub port: u16,
    pub pid: Option<u32>,
    /// "starting" | "healthy" | "unhealthy" | "unreachable" | "stopped"
    pub health: String,
    pub message: String,
}

/// How far ComfyUI has come in starting up.
#[derive(Debug, Clone)]
pub struct ComfyReadiness {
    /// "stopped" | "loading_models" | "ready"
    pub status: String,
    pub message: String,
    pub port: u16,
}

/// What the manager records: the process id of the running sidecar, if any,
/// and the port it was last asked to use.
pub struct SidecarState {
    pub pid: Option<u32>,
    pub port: u16,
}

/// Tracks the ComfyUI sidecar process.
#[derive(Debug, Clone, Copy)]
pub struct ComfyManager {
    child_pid: Option<u32>,
    port: u16,
}

impl View for ComfyManager {
    type V = SidecarState;

    closed spec fn view(&self) -> SidecarState {
        SidecarState { pid: self.child_pid, port: self.port }
    }
}

/// How to launch ComfyUI: the Python interpreters to try in turn, the folder
/// to run in, the arguments, and what the launch was resolved from.
#[derive(Debug, Clone)]
pub struct LaunchPlan {
    /// The resolved Python executable (the first interpreter to try).
    pub python_exe: String,
    /// The interpreters to try, in order, until one starts.
    pub python_candidates: Vec<String>,
    pub comfyui_dir: String,
    pub args: Vec<String>,
    pub port: u16,
    pub comfyui_source: String,
    pub python_source: String,
}

/// The outcome of an HTTP request: the status code of the response, or the
/// text of the error when no response came.
#[derive(Debug, Clone)]
pub enum HttpProbe {
    Status(u16),
    Failed(String),
}

/// Whether a probe holds a status code that HTTP allows.
pub open spec fn probe_well_formed(p: HttpProbe) -> bool {
    p matches HttpProbe::Status(c) ==> 100 <= c <= 999
}

/// Whether a probe got a successful (2xx) response.
pub open spec fn probe_succeeded(p: HttpProbe) -> bool {
    p matches HttpProbe::Status(c) && 200 <= c < 300
}

/// The next step of a launch.
#[derive(Debug)]
pub enum LaunchStep {
    /// Spawn ComfyUI with the interpreter of this index in the plan (this
    /// program) and hand the outcome to `ComfyManager::next_launch`.
    Spawn(usize, String),
    /// The launch is over: this is the answer.
    Done(Result<ComfyStatus, String>),
}

/// The next step of a health check.
#[derive(Debug, Clone)]
pub enum HealthStep {
    /// The check is over: this is the answer.
    Reply(ComfyStatus),
    /// Send a GET request to this URL and hand its outcome to `health_after_probe`.
    Probe(String),
}

/// The next step of a readiness check.
#[derive(Debug, Clone)]
pub enum ReadinessStep {
    /// The check is over: this is the answer.
    Reply(ComfyReadiness),
    /// GET this URL and hand the outcome to `readiness_after_root`.
    ProbeRoot(String),
    /// Build an HTTP client with a 4 second timeout, GET this URL with it,
    /// and hand the outcome (or the client's build error) to `readiness_after_stats`.
    ProbeStats(String),
}

/// Whether `s` holds exactly these values.
pub open spec fn status_is(
    s: ComfyStatus,
    running: bool,
    port: u16,
    pid: Option<u32>,
    health: Seq<char>,
    message: Seq<char>,
) -> bool {
    &&& s.running == running
    &&& s.port == port
    &&& s.pid == pid
    &&& s.health@ == health
    &&& s.message@ == message
}

/// Whether `r` holds exactly these values.
pub open spec fn readiness_is(r: ComfyReadiness, status: Seq<char>, message: Seq<char>, port: u16) -> bool {
    &&& r.status@ == status
    &&& r.message@ == message
    &&& r.port == port
}

/// The arguments that ComfyUI is launched with.
pub open spec fn launch_args(port: u16, extra: Option<Seq<char>>) -> Seq<Seq<char>> {
    seq!["-u"@, "main.py"@, "--listen"@, "localhost"@, "--port"@, decimal(port as nat)] + (match extra {
        Some(e) => words(e),
        None => seq![],
    }) + seq!["--enable-cors-header"@, "*"@]
}

/// The port a start uses: the requested one, else the resolved one.
pub open spec fn start_port(
    settings: AppSettings,
    env: LaunchEnvironment,
    requested_port: Option<u16>,
) -> u16 {
    match requested_port {
        Some(p) => p,
        None => resolve_port(settings.default_port, env.comfyui_port).0,
    }
}

/// The interpreters tried when nothing names one: `python`, `python3`, `py`.
pub open spec fn default_interpreters() -> Seq<Seq<char>> {
    seq!["python"@, "python3"@, "py"@]
}

/// The Python interpreters a launch tries, in order: the saved or
/// environment value alone when there is one, else the default interpreters.
pub open spec fn python_candidates(settings: AppSettings, env: LaunchEnvironment) -> Seq<Seq<char>> {
    match chosen_value(settings.python_path, env.comfyui_python, ENV_COMFYUI_PYTHON@) {
        Some(v) => seq![v.0],
        None => default_interpreters(),
    }
}

/// Whether `plan` is the launch that `settings`, `env` and `requested_port` call for.
pub open spec fn plans_launch(
    settings: AppSettings,
    env: LaunchEnvironment,
    requested_port: Option<u16>,
    plan: LaunchPlan,
) -> bool {
    let python = resolve_choice(
        settings.python_path,
        env.comfyui_python,
        ENV_COMFYUI_PYTHON@,
        default_python(),
    );
    let port = start_port(settings, env, requested_port);
    &&& resolves_comfyui(settings, env, plan.comfyui_dir@, plan.comfyui_source@)
    &&& plan.python_exe@ == python.0
    &&& plan.python_source@ == python.1
    &&& string_views(plan.python_candidates@) == python_candidates(settings, env)
    &&& plan.port == port
    &&& string_views(plan.args@) == launch_args(
        port,
        resolve_extra_args(settings.extra_args, env.comfyui_extra_args),
    )
}

/// The message of a start that finds ComfyUI running.
pub open spec fn already_running_message() -> Seq<char> {
    "ComfyUI sidecar is already running"@
}

/// The message of a launch whose ComfyUI folder holds no main.py.
pub open spec fn comfyui_missing_text(plan: LaunchPlan) -> Seq<char> {
    "ComfyUI not found at "@ + plan.comfyui_dir@ + ".\n\nSource: "@ + plan.comfyui_source@
        + "\nPlease either set the correct path in Settings or set the "@ + ENV_COMFYUI_PATH@
        + " environment variable."@
}

/// The message of a launch whose Python executable is missing.
pub open spec fn python_missing_text(plan: LaunchPlan) -> Seq<char> {
    "Python executable not found at: "@ + plan.python_exe@ + "\n\nSource: "@ + plan.python_source@
        + "\nPlease select the python.exe from your desired venv in Settings or set the "@
        + ENV_COMFYUI_PYTHON@ + " environment variable."@
}

/// The message of a launch whose last interpreter, `program`, could not be spawned.
pub open spec fn launch_failed_text(program: Seq<char>, error: Seq<char>) -> Seq<char> {
    "Failed to launch ComfyUI with Python at "@ + program + ": "@ + error
}

/// The message of a launch that started with the interpreter `program`.
pub open spec fn started_text(plan: LaunchPlan, program: Seq<char>, pid: u32) -> Seq<char> {
    "ComfyUI started using "@ + program + " (pid "@ + decimal(pid as nat) + ") on port "@
        + decimal(plan.port as nat) + "  |  Source: "@ + plan.comfyui_source@ + " + "@
        + plan.python_source@
}

/// The state after a stop.
pub open spec fn stopped(s: SidecarState) -> SidecarState {
    SidecarState { pid: None, port: s.port }
}

/// The URL that asks ComfyUI on `port` to interrupt its work.
pub open spec fn interrupt_url_text(port: u16) -> Seq<char> {
    "http://127.0.0.1:"@ + decimal(port as nat) + "/interrupt"@
}

/// The URL of the health probe for ComfyUI on `port`.
pub open spec fn health_url_text(port: u16) -> Seq<char> {
    "http://127.0.0.1:"@ + decimal(port as nat) + "/"@
}

/// The base URL of ComfyUI on `port`.
pub open spec fn base_url_text(port: u16) -> Seq<char> {
    "http://localhost:"@ + decimal(port as nat)
}

/// The message of a health check whose probe failed with `error`.
pub open spec fn health_failed_text(error: Seq<char>) -> Seq<char> {
    "Health check failed: "@ + error
}

/// The message of a health check whose probe got the status `status`.
pub open spec fn unhealthy_text(status: Seq<char>) -> Seq<char> {
    "ComfyUI returned status "@ + status
}

/// The message of a readiness check that finds ComfyUI still starting.
pub open spec fn starting_up_text() -> Seq<char> {
    "Sidecar running — ComfyUI still starting up..."@
}

/// The message of a readiness check that finds ComfyUI still loading models.
pub open spec fn loading_models_text() -> Seq<char> {
    "Sidecar running but still loading models (this can take 30–90 seconds on first launch)..."@
}

/// `prefix`, the decimal rendering of `n`, then `suffix`.
fn with_number(prefix: &str, n: u64, suffix: &str) -> (r: String)
    ensures
        r@ == prefix@ + decimal(n as nat) + suffix@,
{
    let d = decimal_string(n);
    join3(prefix, d.as_str(), suffix)
}

/// The interpreters that a launch with `settings` in `env` tries, in order.
fn python_candidate_list(settings: &AppSettings, env: &LaunchEnvironment) -> (r: Vec<String>)
    ensures
        string_views(r@) == python_candidates(*settings, *env),
{
    let mut r: Vec<String> = Vec::new();
    if let Some(p) = &settings.python_path {
        if !blank(p.as_str()) {
            r.push(p.clone());
            assert(string_views(r@) =~= seq![p@]);
            return r;
        }
    }
    if let Some(e) = &env.comfyui_python {
        if !blank(e.as_str()) {
            r.push(e.clone());
            assert(string_views(r@) =~= seq![e@]);
            return r;
        }
    }
    r.push(String::from_str("python"));
    r.push(String::from_str("python3"));
    r.push(String::from_str("py"));
    assert(string_views(r@) =~= default_interpreters());
    r
}

/// `prefix` followed by the decimal rendering of `n`.
fn prefixed_number(prefix: &str, n: u64) -> (r: String)
    ensures
        r@ == prefix@ + decimal(n as nat),
{
    let d = decimal_string(n);
    join2(prefix, d.as_str())
}

/// The arguments that ComfyUI is launched with on `port`, followed by the
/// words of `extra`.
pub fn build_launch_args(port: u16, extra: &Option<String>) -> (r: Vec<String>)
    ensures
        string_views(r@) == launch_args(port, crate::text::opt_view(*extra)),
        r@.len() == 8 + crate::laws::extra_words(crate::text::opt_view(*extra)).len(),
        string_views(r@).subrange(
            6,
            6 + crate::laws::extra_words(crate::text::opt_view(*extra)).len() as int,
        ) == crate::laws::extra_words(crate::text::opt_view(*extra)),
{
    let r = launch_arg_list(port, extra);
    proof {
        crate::laws::launch_args_pass_every_word(port, crate::text::opt_view(*extra));
    }
    r
}

/// The launch arguments, built one after the other.
fn launch_arg_list(port: u16, extra: &Option<String>) -> (r: Vec<String>)
    ensures
        string_views(r@) == launch_args(port, crate::text::opt_view(*extra)),
{
    let mut args: Vec<String> = Vec::new();
    args.push(String::from_str("-u"));
    args.push(String::from_str("main.py"));
    args.push(String::from_str("--listen"));
    args.push(String::from_str("localhost"));
    args.push(String::from_str("--port"));
    args.push(decimal_string(port as u64));
    let ghost head = string_views(args@);
    assert(head =~= seq!["-u"@, "main.py"@, "--listen"@, "localhost"@, "--port"@, decimal(port as nat)]);
    let mut words_vec: Vec<String> = match extra {
        Some(e) => split_words(e.as_str()),
        None => Vec::new(),
    };
    let ghost ws = string_views(words_vec@);
    assert(ws == (match crate::text::opt_view(*extra) {
        Some(e) => words(e),
        None => seq![],
    })) by {
        if extra.is_none() {
            assert(ws =~= seq![]);
        }
    }
    args.append(&mut words_vec);
    assert(string_views(args@) =~= head + ws);
    let ghost mid = string_views(args@);
    args.push(String::from_str("--enable-cors-header"));
    args.push(String::from_str("*"));
    assert(string_views(args@) =~= mid + seq!["--enable-cors-header"@, "*"@]);
    args
}

impl ComfyManager {
    /// A manager with no sidecar running, on port 8188.
    pub fn new() -> (m: Self)
        ensures
            m@ == (SidecarState { pid: None, port: DEFAULT_PORT }),
    {
        ComfyManager { child_pid: None, port: DEFAULT_PORT }
    }

    /// Whether a sidecar is running.
    pub fn is_running(&self) -> (b: bool)
        ensures
            b == self@.pid is Some,
    {
        self.child_pid.is_some()
    }

    /// The port last chosen for the sidecar.
    pub fn port(&self) -> (p: u16)
        ensures
            p == self@.port,
    {
        self.port
    }

    /// Begins a start: refuses when a sidecar is running; else records the
    /// port to use (the requested one, else the resolved one) and returns the
    /// launch to perform. The caller then checks the installation with
    /// `LaunchPlan::install_error` and follows `LaunchPlan::first_step` and
    /// `next_launch`, spawning each interpreter they name.
    pub fn start(
        &mut self,
        settings: &AppSettings,
        env: &LaunchEnvironment,
        requested_port: Option<u16>,
    ) -> (r: Result<LaunchPlan, String>)
        ensures
            old(self)@.pid is Some ==> (r matches Err(e) && e@ == already_running_message()
                && final(self)@ == old(self)@),
            old(self)@.pid is None ==> (r matches Ok(plan) && plans_launch(
                *settings,
                *env,
                requested_port,
                plan,
            ) && final(self)@ == (SidecarState {
                pid: None,
                port: start_port(*settings, *env, requested_port),
            })),
    {
        if self.child_pid.is_some() {
            return Err(String::from_str("ComfyUI sidecar is already running"));
        }
        let effective = settings.resolve_effective(env);
        let port = match requested_port {
            Some(p) => p,
            None => effective.default_port,
        };
        self.port = port;
        let extra = resolve_extra(&settings.extra_args, &env.comfyui_extra_args);
        let args = build_launch_args(port, &extra);
        let python_candidates = python_candidate_list(settings, env);
        Ok(
            LaunchPlan {
                python_exe: effective.python_path,
                python_candidates,
                comfyui_dir: effective.comfyui_path,
                args,
                port,
                comfyui_source: effective.comfyui_source,
                python_source: effective.python_source,
            },
        )
    }

    /// Continues a launch with the outcome of spawning the interpreter of
    /// index `attempt` in the plan: a process id ends it successfully; a
    /// failure moves on to the next interpreter, and after the last one ends
    /// the launch with the failure.
    pub fn next_launch(&mut self, plan: &LaunchPlan, attempt: usize, outcome: Result<u32, String>) -> (r:
        LaunchStep)
        requires
            old(self)@.pid is None,
            attempt < plan.python_candidates@.len(),
        ensures
            outcome matches Ok(pid) ==> (r matches LaunchStep::Done(Ok(s)) && status_is(
                s,
                true,
                plan.port,
                Some(pid),
                "starting"@,
                started_text(*plan, plan.python_candidates@[attempt as int]@, pid),
            ) && final(self)@ == (SidecarState { pid: Some(pid), port: old(self)@.port })),
            outcome matches Err(e) ==> (attempt + 1 < plan.python_candidates@.len() ==> (r matches LaunchStep::Spawn(
                i,
                program,
            ) && i == attempt + 1 && program@ == plan.python_candidates@[i as int]@ && final(self)@
                == old(self)@)),
            outcome matches Err(e) ==> (attempt + 1 == plan.python_candidates@.len() ==> (r matches LaunchStep::Done(
                Err(m),
            ) && m@ == launch_failed_text(plan.python_candidates@[attempt as int]@, e@)
                && final(self)@ == old(self)@)),
    {
        let program = &plan.python_candidates[attempt];
        match outcome {
            Ok(pid) => {
                self.child_pid = Some(pid);
                let head = join3("ComfyUI started using ", program.as_str(), " (pid ");
                let pid_text = decimal_string(pid as u64);
                let port_text = decimal_string(plan.port as u64);
                let m1 = join3(head.as_str(), pid_text.as_str(), ") on port ");
                let m2 = join3(m1.as_str(), port_text.as_str(), "  |  Source: ");
                let m3 = join3(m2.as_str(), plan.comfyui_source.as_str(), " + ");
                let message = join2(m3.as_str(), plan.python_source.as_str());
                assert(message@ =~= started_text(*plan, program@, pid));
                LaunchStep::Done(
                    Ok(
                        ComfyStatus {
                            running: true,
                            port: plan.port,
                            pid: Some(pid),
                            health: String::from_str("starting"),
                            message,
                        },
                    ),
                )
            },
            Err(e) => {
                if attempt < plan.python_candidates.len() - 1 {
                    LaunchStep::Spawn(attempt + 1, plan.python_candidates[attempt + 1].clone())
                } else {
                    let m = join3(
                        "Failed to launch ComfyUI with Python at ",
                        program.as_str(),
                        ": ",
                    );
                    LaunchStep::Done(Err(join2(m.as_str(), e.as_str())))
                }
            },
        }
    }

    /// Ends the sidecar: the caller first asks `interrupt_url` and, when it
    /// gets a URL, interrupts and kills the process before calling this.
    pub fn stop(&mut self) -> (r: Result<ComfyStatus, String>)
        ensures
            final(self)@ == stopped(old(self)@),
            old(self)@.pid is Some ==> (r matches Ok(s) && status_is(
                s,
                false,
                old(self)@.port,
                None,
                "stopped"@,
                "ComfyUI sidecar stopped successfully"@,
            )),
            old(self)@.pid is None ==> (r matches Ok(s) && status_is(
                s,
                false,
                old(self)@.port,
                None,
                "stopped"@,
                "No running ComfyUI sidecar"@,
            )),
    {
        let message = if self.child_pid.is_some() {
            String::from_str("ComfyUI sidecar stopped successfully")
        } else {
            String::from_str("No running ComfyUI sidecar")
        };
        self.child_pid = None;
        Ok(
            ComfyStatus {
                running: false,
                port: self.port,
                pid: None,
                health: String::from_str("stopped"),
                message,
            },
        )
    }

    /// The URL to send an interrupt to before a stop, when a sidecar runs.
    pub fn interrupt_url(&self) -> (r: Option<String>)
        ensures
            self@.pid is None ==> r is None,
            self@.pid is Some ==> (r matches Some(u) && u@ == interrupt_url_text(self@.port)),
    {
        if self.child_pid.is_some() {
            Some(with_number("http://127.0.0.1:", self.port as u64, "/interrupt"))
        } else {
            None
        }
    }

    /// Begins a health check: answers at once when no sidecar runs, else asks
    /// for a probe of ComfyUI.
    pub fn health(&self) -> (r: HealthStep)
        ensures
            self@.pid is None ==> (r matches HealthStep::Reply(s) && status_is(
                s,
                false,
                self@.port,
                None,
                "stopped"@,
                "Sidecar not running"@,
            )),
            self@.pid is Some ==> (r matches HealthStep::Probe(u) && u@ == health_url_text(
                self@.port,
            )),
    {
        if self.child_pid.is_none() {
            HealthStep::Reply(
                ComfyStatus {
                    running: false,
                    port: self.port,
                    pid: None,
                    health: String::from_str("stopped"),
                    message: String::from_str("Sidecar not running"),
                },
            )
        } else {
            HealthStep::Probe(with_number("http://127.0.0.1:", self.port as u64, "/"))
        }
    }

    /// Ends a health check with the outcome of the probe.
    pub fn health_after_probe(&self, probe: HttpProbe) -> (r: Result<ComfyStatus, String>)
        requires
            probe_well_formed(probe),
        ensures
            probe_succeeded(probe) ==> (r matches Ok(s) && status_is(
                s,
                true,
                self@.port,
                None,
                "healthy"@,
                "ComfyUI responding on port "@ + decimal(self@.port as nat),
            )),
            probe matches HttpProbe::Status(c) ==> (!probe_succeeded(probe) ==> (r matches Ok(s)
                && status_is(s, true, self@.port, None, "unhealthy"@, unhealthy_text(http_status_text(c))))),
            probe matches HttpProbe::Failed(e) ==> (r matches Ok(s) && status_is(
                s,
                true,
                self@.port,
                None,
                "unreachable"@,
                health_failed_text(e@),
            )),
    {
        match probe {
            HttpProbe::Status(code) => {
                if status_is_success(code) {
                    Ok(
                        ComfyStatus {
                            running: true,
                            port: self.port,
                            pid: None,
                            health: String::from_str("healthy"),
                            message: prefixed_number("ComfyUI responding on port ", self.port as u64),
                        },
                    )
                } else {
                    let text = status_text(code);
                    Ok(
                        ComfyStatus {
                            running: true,
                            port: self.port,
                            pid: None,
                            health: String::from_str("unhealthy"),
                            message: unhealthy_message(text.as_str()),
                        },
                    )
                }
            },
            HttpProbe::Failed(e) => {
                Ok(
                    ComfyStatus {
                        running: true,
                        port: self.port,
                        pid: None,
                        health: String::from_str("unreachable"),
                        message: join2("Health check failed: ", e.as_str()),
                    },
                )
            },
        }
    }

    /// Begins a readiness check: answers at once when no sidecar runs, else
    /// asks for a probe of ComfyUI's root.
    pub fn readiness(&self) -> (r: ReadinessStep)
        ensures
            self@.pid is None ==> (r matches ReadinessStep::Reply(s) && readiness_is(
                s,
                "stopped"@,
                "ComfyUI sidecar is not running"@,
                self@.port,
            )),
            self@.pid is Some ==> (r matches ReadinessStep::ProbeRoot(u) && u@ == base_url_text(
                self@.port,
            )),
    {
        if self.child_pid.is_none() {
            ReadinessStep::Reply(
                ComfyReadiness {
                    status: String::from_str("stopped"),
                    message: String::from_str("ComfyUI sidecar is not running"),
                    port: self.port,
                },
            )
        } else {
            ReadinessStep::ProbeRoot(prefixed_number("http://localhost:", self.port as u64))
        }
    }

    /// Continues a readiness check with the outcome of the root probe: a
    /// failed or unsuccessful probe means ComfyUI is still starting; a
    /// successful one calls for a probe of its system statistics.
    pub fn readiness_after_root(&self, root: HttpProbe) -> (r: ReadinessStep)
        requires
            probe_well_formed(root),
        ensures
            !probe_succeeded(root) ==> (r matches ReadinessStep::Reply(s) && readiness_is(
                s,
                "loading_models"@,
                starting_up_text(),
                self@.port,
            )),
            probe_succeeded(root) ==> (r matches ReadinessStep::ProbeStats(u) && u@ == base_url_text(
                self@.port,
            ) + "/system_stats"@),
    {
        let succeeded = match root {
            HttpProbe::Status(code) => status_is_success(code),
            HttpProbe::Failed(_) => false,
        };
        if succeeded {
            ReadinessStep::ProbeStats(with_number("http://localhost:", self.port as u64, "/system_stats"))
        } else {
            ReadinessStep::Reply(
                ComfyReadiness {
                    status: String::from_str("loading_models"),
                    message: String::from_str("Sidecar running — ComfyUI still starting up..."),
                    port: self.port,
                },
            )
        }
    }

    /// Ends a readiness check with the outcome of the statistics probe, or
    /// the error that building its client gave.
    pub fn readiness_after_stats(&self, stats: Result<HttpProbe, String>) -> (r: Result<
        ComfyReadiness,
        String,
    >)
        requires
            stats matches Ok(p) ==> probe_well_formed(p),
        ensures
            stats matches Err(e) ==> (r matches Err(m) && m@ == e@),
            stats matches Ok(p) && probe_succeeded(p) ==> (r matches Ok(s) && readiness_is(
                s,
                "ready"@,
                "ComfyUI ready on port "@ + decimal(self@.port as nat),
                self@.port,
            )),
            stats matches Ok(p) && !probe_succeeded(p) ==> (r matches Ok(s) && readiness_is(
                s,
                "loading_models"@,
                loading_models_text(),
                self@.port,
            )),
    {
        match stats {
            Err(e) => Err(e),
            Ok(probe) => {
                let succeeded = match probe {
                    HttpProbe::Status(code) => status_is_success(code),
                    HttpProbe::Failed(_) => false,
                };
                if succeeded {
                    Ok(
                        ComfyReadiness {
                            status: String::from_str("ready"),
                            message: prefixed_number("ComfyUI ready on port ", self.port as u64),
                            port: self.port,
                        },
                    )
                } else {
                    Ok(
                        ComfyReadiness {
                            status: String::from_str("loading_models"),
                            message: String::from_str(
                                "Sidecar running but still loading models (this can take 30–90 seconds on first launch)...",
                            ),
                            port: self.port,
                        },
                    )
                }
            },
        }
    }
}

/// The message of a health check whose probe got a response with the
/// displayed status `status`.
pub fn unhealthy_message(status: &str) -> (m: String)
    ensures
        m@ == unhealthy_text(status@),
{
    join2("ComfyUI returned status ", status)
}

impl LaunchPlan {
    /// The first step of a launch: spawn the first interpreter.
    pub fn first_step(&self) -> (r: LaunchStep)
        requires
            self.python_candidates@.len() > 0,
        ensures
            r matches LaunchStep::Spawn(i, program) && i == 0 && program@
                == self.python_candidates@[0]@,
    {
        LaunchStep::Spawn(0, self.python_candidates[0].clone())
    }

    /// The error of a launch whose installation check found something
    /// missing: first the ComfyUI folder's main.py, then the Python executable.
    pub fn install_error(&self, comfyui_found: bool, python_found: bool) -> (r: Option<String>)
        ensures
            !comfyui_found ==> (r matches Some(m) && m@ == comfyui_missing_text(*self)),
            comfyui_found && !python_found ==> (r matches Some(m) && m@ == python_missing_text(
                *self,
            )),
            comfyui_found && python_found ==> r is None,
    {
        if !comfyui_found {
            let a = join3("ComfyUI not found at ", self.comfyui_dir.as_str(), ".\n\nSource: ");
            let b = join3(
                self.comfyui_source.as_str(),
                "\nPlease either set the correct path in Settings or set the ",
                ENV_COMFYUI_PATH,
            );
            let m = join3(a.as_str(), b.as_str(), " environment variable.");
            assert(m@ =~= comfyui_missing_text(*self));
            Some(m)
        } else if !python_found {
            let a = join3(
                "Python executable not found at: ",
                self.python_exe.as_str(),
                "\n\nSource: ",
            );
            let b = join3(
                self.python_source.as_str(),
                "\nPlease select the python.exe from your desired venv in Settings or set the ",
                ENV_COMFYUI_PYTHON,
            );
            let m = join3(a.as_str(), b.as_str(), " environment variable.");
            assert(m@ =~= python_missing_text(*self));
            Some(m)
        } else {
            None
        }
    }
}

} // verus!
