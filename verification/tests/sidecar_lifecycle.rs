use mandingo_forge::settings::{AppSettings, LaunchEnvironment};
use mandingo_forge::sidecar::{
    build_launch_args, unhealthy_message, ComfyManager, ComfyStatus, HealthStep, HttpProbe,
    LaunchPlan, LaunchStep, ReadinessStep,
};

fn started(m: &mut ComfyManager, plan: &LaunchPlan, attempt: usize, pid: u32) -> ComfyStatus {
    match m.next_launch(plan, attempt, Ok(pid)) {
        LaunchStep::Done(Ok(s)) => s,
        other => panic!("unexpected {:?}", other),
    }
}

fn no_env() -> LaunchEnvironment {
    LaunchEnvironment {
        comfyui_path: None,
        comfyui_python: None,
        comfyui_port: None,
        comfyui_extra_args: None,
        current_dir: "/work".to_string(),
    }
}

fn saved() -> AppSettings {
    AppSettings {
        comfyui_path: Some("/opt/ComfyUI".to_string()),
        python_path: Some("/venv/bin/python".to_string()),
        default_port: Some(8190),
        extra_args: Some("  --cuda-device 0   --force-fp16 ".to_string()),
    }
}

#[test]
fn new_manager_is_idle_on_default_port() {
    let m = ComfyManager::new();
    assert!(!m.is_running());
    assert_eq!(m.port(), 8188);
    assert!(m.interrupt_url().is_none());
}

#[test]
fn launch_args_layout() {
    let args = build_launch_args(8188, &Some("--cpu  --lowvram".to_string()));
    assert_eq!(
        args,
        vec![
            "-u", "main.py", "--listen", "localhost", "--port", "8188", "--cpu", "--lowvram",
            "--enable-cors-header", "*"
        ]
    );
    let args = build_launch_args(1, &None);
    assert_eq!(
        args,
        vec!["-u", "main.py", "--listen", "localhost", "--port", "1", "--enable-cors-header", "*"]
    );
    let args = build_launch_args(2, &Some("   ".to_string()));
    assert_eq!(args.len(), 8);
}

#[test]
fn start_plans_the_launch_and_records_the_port() {
    let mut m = ComfyManager::new();
    let plan = m.start(&saved(), &no_env(), None).unwrap();
    assert_eq!(m.port(), 8190);
    assert!(!m.is_running());
    assert_eq!(plan.python_exe, "/venv/bin/python");
    assert_eq!(plan.comfyui_dir, "/opt/ComfyUI");
    assert_eq!(plan.port, 8190);
    assert_eq!(
        plan.args,
        vec![
            "-u", "main.py", "--listen", "localhost", "--port", "8190", "--cuda-device", "0",
            "--force-fp16", "--enable-cors-header", "*"
        ]
    );
    let plan = {
        let mut m2 = ComfyManager::new();
        m2.start(&saved(), &no_env(), Some(9999)).unwrap()
    };
    assert_eq!(plan.port, 9999);
}

#[test]
fn install_errors_in_order() {
    let mut m = ComfyManager::new();
    let plan = m.start(&AppSettings::default(), &no_env(), None).unwrap();
    assert_eq!(plan.comfyui_dir, "/work/comfyui");
    assert_eq!(
        plan.install_error(false, false).unwrap(),
        "ComfyUI not found at /work/comfyui.\n\nSource: Default (./comfyui)\nPlease either set the correct path in Settings or set the COMFYUI_PATH environment variable."
    );
    assert_eq!(
        plan.install_error(true, false).unwrap(),
        "Python executable not found at: python\n\nSource: Default (python in PATH)\nPlease select the python.exe from your desired venv in Settings or set the COMFYUI_PYTHON environment variable."
    );
    assert!(plan.install_error(true, true).is_none());
    // the port was recorded although the launch did not go ahead
    assert_eq!(m.port(), 8188);
}

#[test]
fn start_finish_stop_cycle() {
    let mut m = ComfyManager::new();
    let plan = m.start(&saved(), &no_env(), Some(8200)).unwrap();
    let status = started(&mut m, &plan, 0, 4242);
    assert!(status.running);
    assert_eq!(status.pid, Some(4242));
    assert_eq!(status.port, 8200);
    assert_eq!(status.health, "starting");
    assert_eq!(
        status.message,
        "ComfyUI started using /venv/bin/python (pid 4242) on port 8200  |  Source: Saved Settings + Saved Settings"
    );
    assert!(m.is_running());

    let again = m.start(&saved(), &no_env(), Some(1));
    assert_eq!(again.unwrap_err(), "ComfyUI sidecar is already running");
    assert_eq!(m.port(), 8200);

    assert_eq!(m.interrupt_url().unwrap(), "http://127.0.0.1:8200/interrupt");
    let stopped = m.stop().unwrap();
    assert!(!stopped.running);
    assert_eq!(stopped.port, 8200);
    assert_eq!(stopped.pid, None);
    assert_eq!(stopped.health, "stopped");
    assert_eq!(stopped.message, "ComfyUI sidecar stopped successfully");
    assert!(!m.is_running());

    let second = m.stop().unwrap();
    assert_eq!(second.message, "No running ComfyUI sidecar");
    assert_eq!(second.port, 8200);
    assert!(m.interrupt_url().is_none());
    assert!(m.start(&saved(), &no_env(), None).is_ok());
}

#[test]
fn failed_spawn_leaves_manager_idle() {
    let mut m = ComfyManager::new();
    let plan = m.start(&AppSettings::default(), &no_env(), None).unwrap();
    assert_eq!(plan.python_candidates, vec!["python", "python3", "py"]);
    match plan.first_step() {
        LaunchStep::Spawn(0, p) => assert_eq!(p, "python"),
        other => panic!("unexpected {:?}", other),
    }
    let e = || Err("No such file or directory (os error 2)".to_string());
    match m.next_launch(&plan, 0, e()) {
        LaunchStep::Spawn(1, p) => assert_eq!(p, "python3"),
        other => panic!("unexpected {:?}", other),
    }
    match m.next_launch(&plan, 1, e()) {
        LaunchStep::Spawn(2, p) => assert_eq!(p, "py"),
        other => panic!("unexpected {:?}", other),
    }
    assert!(!m.is_running());
    match m.next_launch(&plan, 2, e()) {
        LaunchStep::Done(Err(msg)) => assert_eq!(
            msg,
            "Failed to launch ComfyUI with Python at py: No such file or directory (os error 2)"
        ),
        other => panic!("unexpected {:?}", other),
    }
    assert!(!m.is_running());
}

#[test]
fn fallback_interpreter_starts() {
    let mut m = ComfyManager::new();
    let plan = m.start(&AppSettings::default(), &no_env(), None).unwrap();
    match m.next_launch(&plan, 0, Err("not found".to_string())) {
        LaunchStep::Spawn(1, p) => assert_eq!(p, "python3"),
        other => panic!("unexpected {:?}", other),
    }
    let s = started(&mut m, &plan, 1, 77);
    assert_eq!(
        s.message,
        "ComfyUI started using python3 (pid 77) on port 8188  |  Source: Default (./comfyui) + Default (python in PATH)"
    );
    assert!(m.is_running());
}

#[test]
fn named_interpreter_is_the_only_one_tried() {
    let mut m = ComfyManager::new();
    let plan = m.start(&saved(), &no_env(), None).unwrap();
    assert_eq!(plan.python_candidates, vec!["/venv/bin/python"]);
    match m.next_launch(&plan, 0, Err("denied".to_string())) {
        LaunchStep::Done(Err(msg)) => {
            assert_eq!(msg, "Failed to launch ComfyUI with Python at /venv/bin/python: denied")
        }
        other => panic!("unexpected {:?}", other),
    }
    let mut env = no_env();
    env.comfyui_python = Some("/env/python".to_string());
    let mut m2 = ComfyManager::new();
    let plan = m2.start(&AppSettings::default(), &env, None).unwrap();
    assert_eq!(plan.python_candidates, vec!["/env/python"]);
}

#[test]
fn health_when_stopped() {
    let m = ComfyManager::new();
    match m.health() {
        HealthStep::Reply(s) => {
            assert!(!s.running);
            assert_eq!(s.port, 8188);
            assert_eq!(s.health, "stopped");
            assert_eq!(s.message, "Sidecar not running");
        }
        HealthStep::Probe(_) => panic!("no probe expected"),
    }
}

fn running_manager(port: u16) -> ComfyManager {
    let mut m = ComfyManager::new();
    let plan = m.start(&AppSettings::default(), &no_env(), Some(port)).unwrap();
    started(&mut m, &plan, 0, 1);
    m
}

#[test]
fn health_when_running() {
    let m = running_manager(8189);
    match m.health() {
        HealthStep::Probe(url) => assert_eq!(url, "http://127.0.0.1:8189/"),
        HealthStep::Reply(_) => panic!("probe expected"),
    }
    let ok = m.health_after_probe(HttpProbe::Status(200)).unwrap();
    assert_eq!(ok.health, "healthy");
    assert_eq!(ok.message, "ComfyUI responding on port 8189");
    assert!(ok.running);
    let nf = m.health_after_probe(HttpProbe::Status(404)).unwrap();
    assert_eq!(nf.health, "unhealthy");
    assert_eq!(nf.message, "ComfyUI returned status 404 Not Found");
    let odd = m.health_after_probe(HttpProbe::Status(599)).unwrap();
    assert_eq!(odd.message, "ComfyUI returned status 599 <unknown status code>");
    let redirect = m.health_after_probe(HttpProbe::Status(301)).unwrap();
    assert_eq!(redirect.health, "unhealthy");
    let down = m.health_after_probe(HttpProbe::Failed("connection refused".to_string())).unwrap();
    assert_eq!(down.health, "unreachable");
    assert_eq!(down.message, "Health check failed: connection refused");
}

#[test]
fn unhealthy_message_text() {
    assert_eq!(unhealthy_message("503 Service Unavailable"), "ComfyUI returned status 503 Service Unavailable");
}

#[test]
fn readiness_steps() {
    let idle = ComfyManager::new();
    match idle.readiness() {
        ReadinessStep::Reply(r) => {
            assert_eq!(r.status, "stopped");
            assert_eq!(r.message, "ComfyUI sidecar is not running");
            assert_eq!(r.port, 8188);
        }
        _ => panic!("reply expected"),
    }
    let m = running_manager(8190);
    match m.readiness() {
        ReadinessStep::ProbeRoot(url) => assert_eq!(url, "http://localhost:8190"),
        _ => panic!("root probe expected"),
    }
    match m.readiness_after_root(HttpProbe::Failed("refused".to_string())) {
        ReadinessStep::Reply(r) => {
            assert_eq!(r.status, "loading_models");
            assert_eq!(r.message, "Sidecar running — ComfyUI still starting up...");
        }
        _ => panic!("reply expected"),
    }
    match m.readiness_after_root(HttpProbe::Status(500)) {
        ReadinessStep::Reply(r) => assert_eq!(r.status, "loading_models"),
        _ => panic!("reply expected"),
    }
    match m.readiness_after_root(HttpProbe::Status(200)) {
        ReadinessStep::ProbeStats(url) => assert_eq!(url, "http://localhost:8190/system_stats"),
        _ => panic!("stats probe expected"),
    }
    let ready = m.readiness_after_stats(Ok(HttpProbe::Status(200))).unwrap();
    assert_eq!(ready.status, "ready");
    assert_eq!(ready.message, "ComfyUI ready on port 8190");
    let loading = m.readiness_after_stats(Ok(HttpProbe::Failed("timeout".to_string()))).unwrap();
    assert_eq!(loading.status, "loading_models");
    assert_eq!(
        loading.message,
        "Sidecar running but still loading models (this can take 30–90 seconds on first launch)..."
    );
    let err = m.readiness_after_stats(Err("builder error".to_string()));
    assert_eq!(err.unwrap_err(), "builder error");
}

#[test]
fn port_on_command_line_reads_back() {
    for port in [0u16, 1, 8188, 65535] {
        let args = build_launch_args(port, &None);
        assert_eq!(args[5].parse::<u16>().unwrap(), port);
    }
}
