use backend_supervisor::config::allow_origins;
use backend_supervisor::config::autostart_enabled;
use backend_supervisor::config::backend_command;
use backend_supervisor::config::backend_listen_addr;
use backend_supervisor::config::backend_url;
use backend_supervisor::config::setting_name;
use backend_supervisor::config::ListenAddr;
use backend_supervisor::config::Setting;
use backend_supervisor::launch::launch_plan;
use backend_supervisor::launch::relay_name;
use backend_supervisor::launch::tag_line;
use backend_supervisor::launch::EnvVar;
use backend_supervisor::launch::LaunchPlan;
use backend_supervisor::launch::Platform;
use backend_supervisor::launch::StdioMode;
use backend_supervisor::launch::StreamSource;
use backend_supervisor::POLL_INTERVAL_MS;
use backend_supervisor::PROBE_TIMEOUT_MS;
use backend_supervisor::START_DEADLINE_MS;

#[test]
fn defaults_apply_where_nothing_is_configured() {
    assert_eq!(backend_url(None), "http://127.0.0.1:37123");
    assert_eq!(
        backend_command(None),
        "python -m uvicorn agent_studio_backend.api:app --host 127.0.0.1 --port 37123"
    );
    assert_eq!(allow_origins(None), "*");
    assert!(!autostart_enabled(None));
}

#[test]
fn configured_values_win() {
    assert_eq!(backend_url(Some("http://localhost:9".to_string())), "http://localhost:9");
    assert_eq!(backend_command(Some("uvicorn app".to_string())), "uvicorn app");
    assert_eq!(allow_origins(Some("http://a,http://b".to_string())), "http://a,http://b");
    assert_eq!(backend_url(Some(String::new())), "");
}

#[test]
fn autostart_flag_values() {
    assert!(autostart_enabled(Some("1")));
    assert!(autostart_enabled(Some("true")));
    assert!(autostart_enabled(Some("TRUE")));
    assert!(autostart_enabled(Some("True")));
    assert!(autostart_enabled(Some("tRuE")));
    assert!(!autostart_enabled(Some("")));
    assert!(!autostart_enabled(Some("0")));
    assert!(!autostart_enabled(Some("yes")));
    assert!(!autostart_enabled(Some("11")));
    assert!(!autostart_enabled(Some("true ")));
    assert!(!autostart_enabled(Some("tru\u{e9}")));
    assert!(!autostart_enabled(Some("false")));
    assert!(!autostart_enabled(Some("\u{ff11}")));
}

#[test]
fn listen_address_is_fixed() {
    assert_eq!(backend_listen_addr(), ListenAddr { a: 127, b: 0, c: 0, d: 1, port: 37123 });
}

#[test]
fn default_url_names_the_listen_address() {
    let addr = backend_listen_addr();
    let text = format!("http://{}.{}.{}.{}:{}", addr.a, addr.b, addr.c, addr.d, addr.port);
    assert_eq!(backend_url(None), text);
}

#[test]
fn setting_names() {
    assert_eq!(setting_name(Setting::BackendUrl), "AGENT_STUDIO_BACKEND_URL");
    assert_eq!(setting_name(Setting::BackendCommand), "AGENT_STUDIO_BACKEND_CMD");
    assert_eq!(setting_name(Setting::AllowOrigins), "AGENT_STUDIO_ALLOW_CORS_ORIGINS");
    assert_eq!(setting_name(Setting::Autostart), "AGENT_STUDIO_AUTOSTART_BACKEND");
}

#[test]
fn timing_constants() {
    assert_eq!(PROBE_TIMEOUT_MS, 150);
    assert_eq!(POLL_INTERVAL_MS, 150);
    assert_eq!(START_DEADLINE_MS, 6000);
}

#[test]
fn unix_launch_goes_through_sh() {
    let plan = launch_plan(Platform::Unix, "uvicorn app --port 37123", "*");
    assert_eq!(
        plan,
        LaunchPlan {
            program: "sh".to_string(),
            args: vec!["-lc".to_string(), "uvicorn app --port 37123".to_string()],
            env: vec![
                EnvVar {
                    name: "AGENT_STUDIO_ALLOW_CORS_ORIGINS".to_string(),
                    value: "*".to_string(),
                },
                EnvVar { name: "PYTHONUNBUFFERED".to_string(), value: "1".to_string() },
            ],
            stdin: StdioMode::Closed,
            stdout: StdioMode::Piped,
            stderr: StdioMode::Piped,
        }
    );
}

#[test]
fn windows_launch_goes_through_cmd() {
    let plan = launch_plan(Platform::Windows, "python -m uvicorn app", "http://tauri.localhost");
    assert_eq!(plan.program, "cmd");
    assert_eq!(plan.args, vec!["/C".to_string(), "python -m uvicorn app".to_string()]);
    assert_eq!(plan.env.len(), 2);
    assert_eq!(plan.env[0].value, "http://tauri.localhost");
    assert_eq!(plan.stdin, StdioMode::Closed);
    assert_eq!(plan.stdout, StdioMode::Piped);
    assert_eq!(plan.stderr, StdioMode::Piped);
}

#[test]
fn lines_are_tagged_by_source() {
    assert_eq!(tag_line(StreamSource::Stdout, "ready"), "[backend stdout] ready");
    assert_eq!(tag_line(StreamSource::Stderr, "oops"), "[backend stderr] oops");
    assert_eq!(tag_line(StreamSource::Stdout, ""), "[backend stdout] ");
    assert_eq!(relay_name(StreamSource::Stdout), "agent_studio_backend_stdout");
    assert_eq!(relay_name(StreamSource::Stderr), "agent_studio_backend_stderr");
}

#[test]
fn endpoint_text_of_listen_address() {
    assert_eq!(backend_listen_addr().endpoint(), "127.0.0.1:37123");
    assert_eq!(ListenAddr { a: 0, b: 10, c: 255, d: 9, port: 0 }.endpoint(), "0.10.255.9:0");
    assert_eq!(
        ListenAddr { a: 192, b: 168, c: 100, d: 101, port: 65535 }.endpoint(),
        "192.168.100.101:65535"
    );
    assert_eq!(format!("http://{}", backend_listen_addr().endpoint()), backend_url(None));
}
