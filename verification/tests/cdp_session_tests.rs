use wsgw_cdp::cdp_session::{
    env_u64, fetch_devtools_version_with_retry, fetch_json_version_once, format_http_check_ok,
    json_version_request, parse_devtools_version, parse_version_response, retry_schedule,
    session_status_snapshot, try_cdp_websocket_handshake, version_request_text,
    websocket_handshake_failure, CdpSessionCache, CdpSessionStatus, DevToolsVersionInfo,
    EndpointLookup, EndpointSource, ExchangeFailure, RetryRun, RetrySchedule, RetryStep,
};

const WS: &str = "ws://127.0.0.1:9222/devtools/browser/abc";

fn ok_response(body: &str) -> Vec<u8> {
    format!("HTTP/1.1 200 OK\r\nContent-Type: application/json\r\n\r\n{}", body).into_bytes()
}

fn json(text: &str) -> serde_json::Value {
    serde_json::from_str(text).unwrap()
}

#[test]
fn request_text_is_a_plain_get() {
    assert_eq!(
        version_request_text(9222),
        "GET /json/version HTTP/1.1\r\nHost: 127.0.0.1:9222\r\nConnection: close\r\nAccept: */*\r\n\r\n"
    );
    assert_eq!(json_version_request(0), Err("端口不能为 0".to_string()));
    assert_eq!(json_version_request(9333), Ok(version_request_text(9333)));
}

#[test]
fn port_zero_is_refused_before_anything_else() {
    let r = fetch_json_version_once(0, Ok(ok_response("{}")));
    assert_eq!(r.unwrap_err(), "端口不能为 0");
}

#[test]
fn network_failures_are_reported() {
    let e = |f| fetch_json_version_once(9222, Err(f)).unwrap_err();
    assert_eq!(
        e(ExchangeFailure::Connect("Connection refused (os error 111)".into())),
        "无法连接 127.0.0.1:9222（Connection refused (os error 111)）。请确认 Chrome 已用 --remote-debugging-port=9222 启动。"
    );
    assert_eq!(
        e(ExchangeFailure::Send("broken pipe".into())),
        "向 http://127.0.0.1:9222/json/version 发送 HTTP 请求失败：broken pipe"
    );
    assert_eq!(
        e(ExchangeFailure::Receive("timed out".into())),
        "读取 http://127.0.0.1:9222/json/version 响应失败：timed out"
    );
    assert_eq!(
        e(ExchangeFailure::Address("invalid socket address".into())),
        "内部错误：无法解析地址 127.0.0.1:9222：invalid socket address"
    );
}

#[test]
fn good_response_yields_the_document() {
    let body = format!("{{\"Browser\":\"Chrome/120.0\",\"webSocketDebuggerUrl\":\"{}\"}}", WS);
    let v = fetch_json_version_once(9222, Ok(ok_response(&body))).unwrap();
    let info = parse_devtools_version(&v).unwrap();
    assert_eq!(info.web_socket_debugger_url, WS);
    assert_eq!(info.browser, Some("Chrome/120.0".to_string()));
}

#[test]
fn lowercase_status_line_and_padded_body_are_accepted() {
    let raw = "http/1.1 204 no content\r\n\r\n  \n {\"webSocketDebuggerUrl\":\"ws://x\"} \n";
    let v = parse_version_response(9222, raw).unwrap();
    assert_eq!(parse_devtools_version(&v).unwrap().web_socket_debugger_url, "ws://x");
}

#[test]
fn missing_header_end_is_an_error() {
    let r = fetch_json_version_once(9222, Ok(b"HTTP/1.1 200 OK\r\n{}".to_vec()));
    assert_eq!(
        r.unwrap_err(),
        "http://127.0.0.1:9222/json/version 响应格式异常：未找到 HTTP 头结束标记。"
    );
}

#[test]
fn non_success_status_is_an_error() {
    let r = fetch_json_version_once(9222, Ok(b"HTTP/1.1 404 Not Found\r\nA: b\r\n\r\n{}".to_vec()));
    assert_eq!(
        r.unwrap_err(),
        "请求 http://127.0.0.1:9222/json/version 返回非成功状态：HTTP/1.1 404 Not Found。远程调试端口可能未由浏览器正确暴露。"
    );
    let r = fetch_json_version_once(9222, Ok(b"  garbage  \r\n\r\n{}".to_vec()));
    assert_eq!(
        r.unwrap_err(),
        "请求 http://127.0.0.1:9222/json/version 返回非成功状态：garbage。远程调试端口可能未由浏览器正确暴露。"
    );
    let r = fetch_json_version_once(9222, Ok(b"HTTP/1.1 300 Multiple\r\n\r\n{}".to_vec()));
    assert!(r.unwrap_err().contains("返回非成功状态：HTTP/1.1 300 Multiple。"));
    let r = fetch_json_version_once(9222, Ok(b"HTTP/1.1 +299 X\r\n\r\n{}".to_vec()));
    assert!(r.is_ok());
    let r = fetch_json_version_once(9222, Ok(b"HTTP/1.1 199 X\r\n\r\n{}".to_vec()));
    assert!(r.is_err());
}

#[test]
fn invalid_json_body_is_reported_with_an_excerpt() {
    let body = "not json";
    let serde_err = serde_json::from_str::<serde_json::Value>(body).unwrap_err().to_string();
    let r = fetch_json_version_once(9222, Ok(ok_response(body)));
    assert_eq!(
        r.unwrap_err(),
        format!(
            "http://127.0.0.1:9222/json/version 的响应体不是合法 JSON（{}）。响应片段：not json",
            serde_err
        )
    );
    let long = format!("<{}>", "界".repeat(200));
    let r = fetch_json_version_once(9222, Ok(ok_response(&long))).unwrap_err();
    let excerpt: String = long.chars().take(120).collect();
    assert!(r.ends_with(&format!("。响应片段：{}", excerpt)));
}

#[test]
fn invalid_utf8_is_replaced_before_parsing() {
    let mut raw = b"HTTP/1.1 200 OK\r\n\r\n".to_vec();
    raw.push(0xff);
    let r = fetch_json_version_once(9222, Ok(raw)).unwrap_err();
    assert!(r.ends_with("。响应片段：\u{fffd}"), "{}", r);
}

#[test]
fn devtools_version_needs_a_websocket_url() {
    let msg = "JSON 中缺少 webSocketDebuggerUrl。请确认该端口由 Chrome DevTools 协议提供。";
    assert_eq!(parse_devtools_version(&json("{}")).unwrap_err(), msg);
    assert_eq!(parse_devtools_version(&json("{\"webSocketDebuggerUrl\":\"  \"}")).unwrap_err(), msg);
    assert_eq!(parse_devtools_version(&json("{\"webSocketDebuggerUrl\":7}")).unwrap_err(), msg);
    assert_eq!(parse_devtools_version(&json("[1,2]")).unwrap_err(), msg);
    let info = parse_devtools_version(&json("{\"webSocketDebuggerUrl\":\"  ws://a \\n\"}")).unwrap();
    assert_eq!(info.web_socket_debugger_url, "ws://a");
    assert_eq!(info.browser, None);
}

#[test]
fn browser_name_comes_from_browser_member() {
    let info = parse_devtools_version(&json(
        "{\"webSocketDebuggerUrl\":\"ws://a\",\"browser\":\"lower\"}",
    ))
    .unwrap();
    assert_eq!(info.browser, Some("lower".to_string()));
    let info = parse_devtools_version(&json(
        "{\"webSocketDebuggerUrl\":\"ws://a\",\"Browser\":5,\"browser\":\"lower\"}",
    ))
    .unwrap();
    assert_eq!(info.browser, None);
    let info = parse_devtools_version(&json(
        "{\"webSocketDebuggerUrl\":\"ws://a\",\"Browser\":\"Upper\",\"browser\":\"lower\"}",
    ))
    .unwrap();
    assert_eq!(info.browser, Some("Upper".to_string()));
}

#[test]
fn http_check_message_names_browser_or_length() {
    let info = DevToolsVersionInfo { browser: Some("Chrome/120".into()), web_socket_debugger_url: WS.into() };
    assert_eq!(
        format_http_check_ok(9222, &info),
        "HTTP/JSON 检测通过：http://127.0.0.1:9222/json/version 对应 Chrome/120，webSocketDebuggerUrl 已就绪。"
    );
    let info = DevToolsVersionInfo { browser: Some(String::new()), web_socket_debugger_url: "ws://é".into() };
    assert_eq!(
        format_http_check_ok(9222, &info),
        "HTTP/JSON 检测通过：http://127.0.0.1:9222/json/version 返回 DevTools 版本信息，webSocketDebuggerUrl 已就绪（长度 7）。"
    );
    let info = DevToolsVersionInfo { browser: None, web_socket_debugger_url: WS.into() };
    assert!(format_http_check_ok(9222, &info).contains(&format!("（长度 {}）", WS.len())));
}

#[test]
fn settings_fall_back_to_defaults() {
    assert_eq!(env_u64(&None, 5), 5);
    assert_eq!(env_u64(&Some(" 7 ".into()), 5), 7);
    assert_eq!(env_u64(&Some("0".into()), 5), 5);
    assert_eq!(env_u64(&Some("abc".into()), 5), 5);
    assert_eq!(env_u64(&Some("-3".into()), 5), 5);
    assert_eq!(retry_schedule(&None, &None), RetrySchedule { max_attempts: 5, delay_ms: 400 });
    assert_eq!(
        retry_schedule(&Some("100".into()), &Some("99999".into())),
        RetrySchedule { max_attempts: 20, delay_ms: 5000 }
    );
    assert_eq!(
        retry_schedule(&Some("2".into()), &Some("10".into())),
        RetrySchedule { max_attempts: 2, delay_ms: 10 }
    );
}

fn refused() -> Result<Vec<u8>, ExchangeFailure> {
    Err(ExchangeFailure::Connect("refused".into()))
}

#[test]
fn retry_stops_at_last_error() {
    let schedule = RetrySchedule { max_attempts: 3, delay_ms: 250 };
    let (mut run, first) = RetryRun::start(9222, schedule);
    assert_eq!(first, RetryStep::Fetch);
    let pause = RetryStep::PauseThenFetch {
        delay_ms: 250,
        error: "无法连接 127.0.0.1:9222（refused）。请确认 Chrome 已用 --remote-debugging-port=9222 启动。".into(),
    };
    assert_eq!(fetch_devtools_version_with_retry(&mut run, refused()), pause);
    assert_eq!(fetch_devtools_version_with_retry(&mut run, refused()), pause);
    let last = fetch_devtools_version_with_retry(&mut run, Ok(ok_response("{}")));
    assert_eq!(
        last,
        RetryStep::Done(Err(
            "JSON 中缺少 webSocketDebuggerUrl。请确认该端口由 Chrome DevTools 协议提供。".into()
        ))
    );
    assert_eq!(run.attempts, 3);
    assert!(run.finished);
}

#[test]
fn retry_stops_at_first_success() {
    let schedule = RetrySchedule { max_attempts: 5, delay_ms: 400 };
    let (mut run, _) = RetryRun::start(9222, schedule);
    match fetch_devtools_version_with_retry(&mut run, refused()) {
        RetryStep::PauseThenFetch { delay_ms, .. } => assert_eq!(delay_ms, 400),
        other => panic!("unexpected {:?}", other),
    }
    let body = format!("{{\"webSocketDebuggerUrl\":\"{}\"}}", WS);
    let step = fetch_devtools_version_with_retry(&mut run, Ok(ok_response(&body)));
    assert_eq!(
        step,
        RetryStep::Done(Ok(DevToolsVersionInfo { browser: None, web_socket_debugger_url: WS.into() }))
    );
    assert_eq!(run.attempts, 2);
}

#[test]
fn retry_with_no_attempt_reports_unknown_failure() {
    let (run, first) = RetryRun::start(9222, RetrySchedule { max_attempts: 0, delay_ms: 1 });
    assert_eq!(first, RetryStep::Done(Err("解析 CDP WebSocket 失败（未知原因）".into())));
    assert!(run.finished);
}

#[test]
fn single_attempt_does_not_pause() {
    let (mut run, _) = RetryRun::start(9222, RetrySchedule { max_attempts: 1, delay_ms: 400 });
    match fetch_devtools_version_with_retry(&mut run, refused()) {
        RetryStep::Done(Err(m)) => assert!(m.starts_with("无法连接 127.0.0.1:9222（refused）")),
        other => panic!("unexpected {:?}", other),
    }
}

#[test]
fn env_url_takes_precedence_and_is_cached() {
    let mut cache = CdpSessionCache::new();
    let r = cache.resolve_endpoint(false, &Some("  ws://a  ".into()), &Some("not a port".into()));
    assert_eq!(r, EndpointLookup::Ready(Ok(("ws://a".into(), EndpointSource::Env, false))));
    assert!(cache.has_cached_endpoint());
    let r = cache.resolve_endpoint(true, &Some("ws://b".into()), &None);
    assert_eq!(r, EndpointLookup::Ready(Ok(("ws://b".into(), EndpointSource::Env, true))));
    let r = cache.resolve_endpoint(false, &None, &None);
    assert_eq!(r, EndpointLookup::Ready(Ok(("ws://b".into(), EndpointSource::Env, false))));
}

#[test]
fn fetched_endpoint_is_reused() {
    let mut cache = CdpSessionCache::new();
    assert_eq!(cache.resolve_endpoint(false, &None, &None), EndpointLookup::FetchFromPort(9222));
    let info = DevToolsVersionInfo { browser: None, web_socket_debugger_url: WS.into() };
    assert_eq!(cache.record_fetched_endpoint(Ok(info)), Ok((WS.into(), EndpointSource::Http, true)));
    assert_eq!(
        cache.resolve_endpoint(false, &Some("   ".into()), &Some("1".into())),
        EndpointLookup::Ready(Ok((WS.into(), EndpointSource::Http, false)))
    );
    assert_eq!(cache.record_fetched_endpoint(Err("boom".into())), Err("boom".into()));
    assert!(cache.has_cached_endpoint());
}

#[test]
fn forced_refresh_and_clear_forget_the_cache() {
    let mut cache = CdpSessionCache::new();
    cache.resolve_endpoint(false, &Some("ws://a".into()), &None);
    assert_eq!(
        cache.resolve_endpoint(true, &None, &Some(" 9333 ".into())),
        EndpointLookup::FetchFromPort(9333)
    );
    assert!(!cache.has_cached_endpoint());
    cache.resolve_endpoint(false, &Some("ws://a".into()), &None);
    cache.clear();
    assert_eq!(
        cache.resolve_endpoint(false, &None, &Some("abc".into())),
        EndpointLookup::Ready(Err("WSGW_DEBUG_PORT 无效：abc。".into()))
    );
    assert_eq!(
        cache.resolve_endpoint(false, &None, &Some("0".into())),
        EndpointLookup::Ready(Err("WSGW_DEBUG_PORT 不能为 0".into()))
    );
    assert_eq!(
        cache.resolve_endpoint(false, &None, &Some("".into())),
        EndpointLookup::Ready(Err("WSGW_DEBUG_PORT 无效：。".into()))
    );
}

#[test]
fn source_labels() {
    assert_eq!(EndpointSource::Env.as_str(), "env");
    assert_eq!(EndpointSource::Http.as_str(), "http");
}

#[test]
fn status_snapshot() {
    let mut cache = CdpSessionCache::new();
    assert_eq!(
        session_status_snapshot(&cache, &Some(" ".into())),
        CdpSessionStatus { has_cached_ws: false, prefers_env_ws_url: false }
    );
    cache.resolve_endpoint(false, &Some("ws://a".into()), &None);
    assert_eq!(
        session_status_snapshot(&cache, &Some("ws://a".into())),
        CdpSessionStatus { has_cached_ws: true, prefers_env_ws_url: true }
    );
}

#[test]
fn websocket_address_checks() {
    assert_eq!(try_cdp_websocket_handshake(WS), Ok(WS.to_string()));
    assert_eq!(
        try_cdp_websocket_handshake("http://127.0.0.1:9222/").unwrap_err(),
        "CDP WebSocket 地址须为 ws:// 或 wss://"
    );
    assert_eq!(
        try_cdp_websocket_handshake("wss://example.com/x").unwrap_err(),
        "当前版本仅校验本机 ws:// CDP；若你使用 wss，请确认证书与网络策略后再扩展实现。"
    );
    assert_eq!(
        try_cdp_websocket_handshake("not a url").unwrap_err(),
        "WebSocket URL 无法解析：relative URL without a base"
    );
    assert_eq!(
        try_cdp_websocket_handshake("WS://127.0.0.1:1").unwrap(),
        "ws://127.0.0.1:1/"
    );
    assert_eq!(
        websocket_handshake_failure("boom"),
        "WebSocket 握手失败：boom。请确认 Chrome 仍以远程调试模式运行，且 webSocketDebuggerUrl 未过期。"
    );
}

#[test]
fn non_object_document_is_parsed_but_has_no_websocket_url() {
    let v = fetch_json_version_once(9222, Ok(ok_response("[1]"))).unwrap();
    assert!(v.is_array());
    assert_eq!(
        parse_devtools_version(&v).unwrap_err(),
        "JSON 中缺少 webSocketDebuggerUrl。请确认该端口由 Chrome DevTools 协议提供。"
    );
    let v = fetch_json_version_once(9222, Ok(ok_response("{\"a\":1}"))).unwrap();
    assert!(v.is_object());
}
