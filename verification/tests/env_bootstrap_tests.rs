use wsgw_cdp::cdp_session::{CdpSessionCache, DevToolsVersionInfo, EndpointLookup};
use wsgw_cdp::env_bootstrap::{
    apply_default_debug_port, check_debug_port_http_json, check_debug_port_tcp,
    env_file_override_path, http_json_report, load_dotenv_files, tcp_probe_report,
    validate_cdp_settings_for_child, DotenvChoice, ProbePlan, TcpProbeFailure,
};

fn s(v: &str) -> Option<String> {
    Some(v.to_string())
}

const TCP_SKIP: &str = "已配置 WSGW_CDP_WS_URL：将直接使用该 WebSocket 连接 CDP，未做本机 TCP 端口探测。";
const HTTP_SKIP: &str = "已配置 WSGW_CDP_WS_URL：将直接使用该 WebSocket 连接 CDP，未请求 /json/version。";

#[test]
fn env_file_override_is_trimmed() {
    assert_eq!(env_file_override_path(&s(" /a/.env \n")), s("/a/.env"));
    assert_eq!(env_file_override_path(&None), None);
}

#[test]
fn dotenv_choice_prefers_override_then_first_file() {
    assert_eq!(load_dotenv_files(true, &vec![true]), DotenvChoice::OverrideFile);
    assert_eq!(load_dotenv_files(false, &vec![false, true, true]), DotenvChoice::Candidate(1));
    assert_eq!(load_dotenv_files(false, &vec![true, true]), DotenvChoice::Candidate(0));
    assert_eq!(load_dotenv_files(false, &vec![false, false]), DotenvChoice::NoFile);
    assert_eq!(load_dotenv_files(false, &vec![]), DotenvChoice::NoFile);
}

#[test]
fn default_port_only_when_nothing_is_set() {
    assert_eq!(apply_default_debug_port(&None, &None), s("9222"));
    assert_eq!(apply_default_debug_port(&s(" "), &s("\t")), s("9222"));
    assert_eq!(apply_default_debug_port(&s("ws://x"), &None), None);
    assert_eq!(apply_default_debug_port(&None, &s("9333")), None);
}

#[test]
fn child_settings_are_checked() {
    assert_eq!(validate_cdp_settings_for_child(&s("ws://x"), &s("junk")), Ok(()));
    assert_eq!(validate_cdp_settings_for_child(&None, &None), Ok(()));
    assert_eq!(validate_cdp_settings_for_child(&s(""), &s(" 9333 ")), Ok(()));
    assert_eq!(
        validate_cdp_settings_for_child(&None, &s("  ")),
        Err("未配置 CDP：请设置 WSGW_CDP_WS_URL，或设置 WSGW_DEBUG_PORT（1–65535）。".into())
    );
    assert_eq!(
        validate_cdp_settings_for_child(&None, &s("x")),
        Err("WSGW_DEBUG_PORT 无效：x（须为 1–65535 的整数）".into())
    );
    assert_eq!(
        validate_cdp_settings_for_child(&None, &s("70000")),
        Err("WSGW_DEBUG_PORT 无效：70000（须为 1–65535 的整数）".into())
    );
    assert_eq!(
        validate_cdp_settings_for_child(&None, &s("0")),
        Err("WSGW_DEBUG_PORT 不能为 0".into())
    );
}

#[test]
fn tcp_check_plans() {
    assert_eq!(check_debug_port_tcp(&s(" ws://x "), &s("junk")), ProbePlan::Skip(TCP_SKIP.into()));
    assert_eq!(check_debug_port_tcp(&None, &None), ProbePlan::Probe(9222));
    assert_eq!(
        check_debug_port_tcp(&s(" "), &s("abc ")),
        ProbePlan::Refuse("WSGW_DEBUG_PORT 无效：abc。请在 .env 或系统环境中设置为整数端口。".into())
    );
    assert_eq!(
        check_debug_port_tcp(&None, &s("0")),
        ProbePlan::Refuse("WSGW_DEBUG_PORT 不能为 0".into())
    );
}

#[test]
fn tcp_reports() {
    assert_eq!(
        tcp_probe_report(9222, Ok(())),
        Ok("本机调试端口 9222 可建立 TCP 连接（Chrome 远程调试可能已开启）。".into())
    );
    assert_eq!(
        tcp_probe_report(9222, Err(TcpProbeFailure::Connect("timed out".into()))),
        Err("本机 127.0.0.1:9222 无响应（timed out）。请确认已用带 --remote-debugging-port=9222 的快捷方式启动 Chrome，或检查防火墙/端口是否被占用。".into())
    );
    assert_eq!(
        tcp_probe_report(1, Err(TcpProbeFailure::Address("bad".into()))),
        Err("内部错误：无法解析地址 127.0.0.1:1：bad".into())
    );
}

#[test]
fn http_json_check_plans_and_reports() {
    assert_eq!(check_debug_port_http_json(&s("ws://x"), &None), ProbePlan::Skip(HTTP_SKIP.into()));
    assert_eq!(check_debug_port_http_json(&None, &s("9333")), ProbePlan::Probe(9333));
    assert_eq!(
        http_json_report(9333, Err("boom".into())),
        Err("http://127.0.0.1:9333/json/version：boom".into())
    );
    let info = DevToolsVersionInfo { browser: Some("Chrome".into()), web_socket_debugger_url: "ws://a".into() };
    assert_eq!(
        http_json_report(9333, Ok(info)),
        Ok("HTTP/JSON 检测通过：http://127.0.0.1:9333/json/version 对应 Chrome，webSocketDebuggerUrl 已就绪。".into())
    );
}

#[test]
fn defaults_lead_everything_to_port_9222() {
    let port = apply_default_debug_port(&None, &None);
    assert_eq!(validate_cdp_settings_for_child(&None, &port), Ok(()));
    assert_eq!(check_debug_port_tcp(&None, &port), ProbePlan::Probe(9222));
    assert_eq!(check_debug_port_http_json(&None, &port), ProbePlan::Probe(9222));
    let mut cache = CdpSessionCache::new();
    assert_eq!(cache.resolve_endpoint(false, &None, &port), EndpointLookup::FetchFromPort(9222));
}

#[test]
fn ws_url_setting_wins_over_a_bad_port() {
    let ws = s("ws://127.0.0.1:9222/devtools/browser/x");
    let port = s("not a port");
    assert_eq!(validate_cdp_settings_for_child(&ws, &port), Ok(()));
    assert_eq!(check_debug_port_tcp(&ws, &port), ProbePlan::Skip(TCP_SKIP.into()));
    assert_eq!(check_debug_port_http_json(&ws, &port), ProbePlan::Skip(HTTP_SKIP.into()));
}

#[test]
fn checks_agree_on_the_port() {
    for p in [None, s("1"), s(" 65535 "), s("+80")] {
        let tcp = check_debug_port_tcp(&None, &p);
        let http = check_debug_port_http_json(&None, &p);
        assert_eq!(tcp, http);
        let mut cache = CdpSessionCache::new();
        match (tcp, cache.resolve_endpoint(false, &None, &p)) {
            (ProbePlan::Probe(a), EndpointLookup::FetchFromPort(b)) => assert_eq!(a, b),
            other => panic!("unexpected {:?}", other),
        }
    }
}

#[test]
fn child_check_passes_exactly_when_probes_are_not_refused() {
    for (ws, p) in [(None, s("")), (None, s("x")), (None, s("0")), (None, s("8")), (s("ws://a"), s("x"))] {
        let child_ok = validate_cdp_settings_for_child(&ws, &p).is_ok();
        let refused = matches!(check_debug_port_tcp(&ws, &p), ProbePlan::Refuse(_));
        assert_eq!(child_ok, !refused);
    }
}
