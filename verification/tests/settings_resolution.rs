use mandingo_forge::settings::{AppSettings, LaunchEnvironment};

fn env(
    path: Option<&str>,
    python: Option<&str>,
    port: Option<&str>,
    extra: Option<&str>,
) -> LaunchEnvironment {
    LaunchEnvironment {
        comfyui_path: path.map(|s| s.to_string()),
        comfyui_python: python.map(|s| s.to_string()),
        comfyui_port: port.map(|s| s.to_string()),
        comfyui_extra_args: extra.map(|s| s.to_string()),
        current_dir: "/work".to_string(),
    }
}

#[test]
fn effective_port_defaults_to_8188() {
    let mut s = AppSettings::default();
    assert_eq!(s.effective_port(), 8188);
    s.default_port = Some(9000);
    assert_eq!(s.effective_port(), 9000);
}

#[test]
fn defaults_when_nothing_is_set() {
    let r = AppSettings::default().resolve_effective(&env(None, None, None, None));
    assert_eq!(r.comfyui_path, std::path::Path::new("/work").join("comfyui").to_string_lossy());
    assert_eq!(r.comfyui_source, "Default (./comfyui)");
    assert_eq!(r.python_path, "python");
    assert_eq!(r.python_source, "Default (python in PATH)");
    assert_eq!(r.default_port, 8188);
    assert_eq!(r.port_source, "Default");
    assert_eq!(r.extra_args, None);
}

#[test]
fn environment_is_used_when_nothing_is_saved() {
    let r = AppSettings::default().resolve_effective(&env(
        Some("/opt/ComfyUI"),
        Some("/venv/bin/python"),
        Some(" 8190 "),
        Some("--cpu"),
    ));
    assert_eq!(r.comfyui_path, "/opt/ComfyUI");
    assert_eq!(r.comfyui_source, "Environment Variable (COMFYUI_PATH)");
    assert_eq!(r.python_path, "/venv/bin/python");
    assert_eq!(r.python_source, "Environment Variable (COMFYUI_PYTHON)");
    assert_eq!(r.default_port, 8190);
    assert_eq!(r.port_source, "Environment Variable (COMFYUI_PORT)");
    assert_eq!(r.extra_args.as_deref(), Some("--cpu"));
}

#[test]
fn saved_settings_win_over_environment() {
    let saved = AppSettings {
        comfyui_path: Some("C:\\ComfyUI".to_string()),
        python_path: Some("C:\\venv\\Scripts\\python.exe".to_string()),
        default_port: Some(7000),
        extra_args: Some("".to_string()),
    };
    let r = saved.resolve_effective(&env(Some("/x"), Some("/y"), Some("9"), Some("--cpu")));
    assert_eq!(r.comfyui_path, "C:\\ComfyUI");
    assert_eq!(r.comfyui_source, "Saved Settings");
    assert_eq!(r.python_path, "C:\\venv\\Scripts\\python.exe");
    assert_eq!(r.python_source, "Saved Settings");
    assert_eq!(r.default_port, 7000);
    assert_eq!(r.port_source, "Saved Settings");
    assert_eq!(r.extra_args.as_deref(), Some(""));
}

#[test]
fn blank_values_are_skipped() {
    let saved = AppSettings {
        comfyui_path: Some("   ".to_string()),
        python_path: Some("".to_string()),
        default_port: None,
        extra_args: None,
    };
    let r = saved.resolve_effective(&env(Some("\t"), Some("/env/python"), None, Some("  ")));
    assert_eq!(r.comfyui_path, std::path::Path::new("/work").join("comfyui").to_string_lossy());
    assert_eq!(r.comfyui_source, "Default (./comfyui)");
    assert_eq!(r.python_path, "/env/python");
    assert_eq!(r.python_source, "Environment Variable (COMFYUI_PYTHON)");
    assert_eq!(r.extra_args, None);
}

#[test]
fn invalid_port_variable_falls_back() {
    for bad in ["", "abc", "70000", "-1", "81 88"] {
        let r = AppSettings::default().resolve_effective(&env(None, None, Some(bad), None));
        assert_eq!(r.default_port, 8188);
        assert_eq!(r.port_source, "Default (invalid COMFYUI_PORT)");
    }
    let r = AppSettings::default().resolve_effective(&env(None, None, Some("+8200"), None));
    assert_eq!(r.default_port, 8200);
}

#[test]
fn default_paths() {
    let joined = |cwd: &str| std::path::Path::new(cwd).join("comfyui").to_string_lossy().to_string();
    assert_eq!(AppSettings::default_comfyui_path("").0, "comfyui");
    assert_eq!(AppSettings::default_comfyui_path("/w/").0, joined("/w/"));
    assert_eq!(AppSettings::default_comfyui_path("/w").0, joined("/w"));
    assert_eq!(
        AppSettings::default_python_path(),
        ("python".to_string(), "Default (python in PATH)".to_string())
    );
    assert_eq!(
        AppSettings::default_comfyui_path("/home/u"),
        (joined("/home/u"), "Default (./comfyui)".to_string())
    );
}

#[test]
fn cleared_settings_fall_back_to_environment() {
    let cleared = AppSettings::default();
    let r = cleared.resolve_effective(&env(Some("/env/comfy"), None, Some("8300"), None));
    assert_eq!(r.comfyui_source, "Environment Variable (COMFYUI_PATH)");
    assert_eq!(r.python_source, "Default (python in PATH)");
    assert_eq!(r.port_source, "Environment Variable (COMFYUI_PORT)");
}

#[test]
fn effective_port_equals_resolved_port_without_port_variable() {
    for port in [None, Some(1u16), Some(8188), Some(65535)] {
        let s = AppSettings { comfyui_path: None, python_path: None, default_port: port, extra_args: None };
        let r = s.resolve_effective(&env(None, None, None, None));
        assert_eq!(r.default_port, s.effective_port());
    }
}
