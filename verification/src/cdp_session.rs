//! CDP session: reading `webSocketDebuggerUrl` from `/json/version`, retrying
//! while the browser starts, and caching the endpoint between probes.
use vstd::prelude::*;
use vstd::string::*;

use crate::json::{
    json_is_object, json_member, json_member_text, json_object_members, json_parse_outcome,
    member_text, parse_json_text, JsonDoc, JsonMemberView, JsonMembers,
};
use crate::text::{
    lemma_first_line_before_blank_line, lemma_port_text_round_trip,
    chars_of, decimal, decode_utf8_lossy, first_line, first_line_of, nth_word, opt_view, parse_u16,
    is_unset, parse_u16_text, same_text, parse_u64, parse_u64_text, push_decimal, second_word, trim,
    trim_white_space, unset,
    utf8_lossy,
};

verus! {

broadcast use vstd::string::group_string_axioms;

// ---------------------------------------------------------------------------
// Addresses and the request
// ---------------------------------------------------------------------------

/// `127.0.0.1:<port>`.
pub open spec fn loopback_addr(port: u16) -> Seq<char> {
    "127.0.0.1:"@ + decimal(port as nat)
}

/// `http://127.0.0.1:<port>/json/version`.
pub open spec fn version_url(port: u16) -> Seq<char> {
    "http://"@ + loopback_addr(port) + "/json/version"@
}

/// The HTTP/1.1 request sent to read `/json/version`.
pub open spec fn version_request(port: u16) -> Seq<char> {
    "GET /json/version HTTP/1.1\r\nHost: "@ + loopback_addr(port)
        + "\r\nConnection: close\r\nAccept: */*\r\n\r\n"@
}

pub fn loopback_addr_text(port: u16) -> (r: String)
    ensures
        r@ == loopback_addr(port),
{
    let mut s = String::new();
    s.append("127.0.0.1:");
    push_decimal(&mut s, port as u64);
    assert(Seq::<char>::empty() + "127.0.0.1:"@ + decimal(port as nat) =~= loopback_addr(port));
    s
}

pub fn version_url_text(port: u16) -> (r: String)
    ensures
        r@ == version_url(port),
{
    let mut s = String::new();
    s.append("http://");
    let addr = loopback_addr_text(port);
    s.append(addr.as_str());
    s.append("/json/version");
    assert(Seq::<char>::empty() + "http://"@ + loopback_addr(port) + "/json/version"@
        =~= version_url(port));
    s
}

/// The request text for `/json/version` on `port`.
pub fn version_request_text(port: u16) -> (r: String)
    ensures
        r@ == version_request(port),
{
    let mut s = String::new();
    s.append("GET /json/version HTTP/1.1\r\nHost: ");
    let addr = loopback_addr_text(port);
    s.append(addr.as_str());
    s.append("\r\nConnection: close\r\nAccept: */*\r\n\r\n");
    assert(Seq::<char>::empty() + "GET /json/version HTTP/1.1\r\nHost: "@ + loopback_addr(port)
        + "\r\nConnection: close\r\nAccept: */*\r\n\r\n"@ =~= version_request(port));
    s
}


// ---------------------------------------------------------------------------
// One `/json/version` exchange
// ---------------------------------------------------------------------------

/// How the network part of one `/json/version` exchange failed, with the
/// text of the I/O error.
#[derive(Debug, Clone, PartialEq, Eq)]
pub enum ExchangeFailure {
    /// `127.0.0.1:<port>` did not parse as a socket address.
    Address(String),
    /// The TCP connection was refused or timed out.
    Connect(String),
    /// Writing the request failed.
    Send(String),
    /// Reading the response failed.
    Receive(String),
}

pub open spec fn port_zero_message() -> Seq<char> {
    "端口不能为 0"@
}

pub open spec fn exchange_failure_message(port: u16, failure: ExchangeFailure) -> Seq<char> {
    match failure {
        ExchangeFailure::Address(e) => "内部错误：无法解析地址 "@ + loopback_addr(port) + "："@ + e@,
        ExchangeFailure::Connect(e) => "无法连接 "@ + loopback_addr(port) + "（"@ + e@
            + "）。请确认 Chrome 已用 --remote-debugging-port="@ + decimal(port as nat)
            + " 启动。"@,
        ExchangeFailure::Send(e) => "向 "@ + version_url(port) + " 发送 HTTP 请求失败："@ + e@,
        ExchangeFailure::Receive(e) => "读取 "@ + version_url(port) + " 响应失败："@ + e@,
    }
}

/// Whether `"\r\n\r\n"` starts at position `k` of `s`.
pub open spec fn blank_line_at(s: Seq<char>, k: int) -> bool {
    &&& 0 <= k
    &&& k + 4 <= s.len()
    &&& s[k] == '\r'
    &&& s[k + 1] == '\n'
    &&& s[k + 2] == '\r'
    &&& s[k + 3] == '\n'
}

/// The end of the first `"\r\n\r\n"` at or after `from`: where the header
/// block ends and the body begins.
pub open spec fn header_end_from(s: Seq<char>, from: int) -> Option<int>
    decreases s.len() - from,
{
    if from < 0 || from + 4 > s.len() {
        None
    } else if blank_line_at(s, from) {
        Some(from + 4)
    } else {
        header_end_from(s, from + 1)
    }
}

/// The status code read from a status line: its second word as a `u16`,
/// or 0 when there is none.
pub open spec fn status_code_of(status_line: Seq<char>) -> u16 {
    match nth_word(status_line, 1) {
        Some(w) => match parse_u16(w) {
            Some(c) => c,
            None => 0,
        },
        None => 0,
    }
}

/// At most the first 120 characters of `s`.
pub open spec fn excerpt(s: Seq<char>) -> Seq<char> {
    if s.len() <= 120 {
        s
    } else {
        s.take(120)
    }
}

pub open spec fn no_header_end_message(port: u16) -> Seq<char> {
    version_url(port) + " 响应格式异常：未找到 HTTP 头结束标记。"@
}

pub open spec fn bad_status_message(port: u16, status_line: Seq<char>) -> Seq<char> {
    "请求 "@ + version_url(port) + " 返回非成功状态："@ + status_line
        + "。远程调试端口可能未由浏览器正确暴露。"@
}

pub open spec fn bad_json_message(port: u16, error: Seq<char>, body: Seq<char>) -> Seq<char> {
    version_url(port) + " 的响应体不是合法 JSON（"@ + error + "）。响应片段："@ + excerpt(body)
}

/// What the response text of `/json/version` yields: its JSON body, read as
/// whether the root is an object and the root's members, when the status is
/// 2xx; else the error message.
pub open spec fn response_outcome(port: u16, text: Seq<char>) -> Result<JsonDoc, Seq<char>> {
    match header_end_from(text, 0) {
        None => Err(no_header_end_message(port)),
        Some(k) => {
            let status_line = trim(first_line(text.subrange(0, k)));
            let code = status_code_of(status_line);
            if !(200 <= code < 300) {
                Err(bad_status_message(port, status_line))
            } else {
                let body = trim(text.skip(k));
                match json_parse_outcome(body) {
                    Ok(m) => Ok(m),
                    Err(e) => Err(bad_json_message(port, e, body)),
                }
            }
        },
    }
}

/// What one `/json/version` exchange on `port` yields.
pub open spec fn fetch_outcome(port: u16, exchange: Result<Vec<u8>, ExchangeFailure>) -> Result<
    JsonDoc,
    Seq<char>,
> {
    if port == 0 {
        Err(port_zero_message())
    } else {
        match exchange {
            Err(f) => Err(exchange_failure_message(port, f)),
            Ok(raw) => response_outcome(port, utf8_lossy(raw@)),
        }
    }
}

/// The view of a parse result: whether the value is an object and its
/// members, or the message.
pub open spec fn json_result_view(r: Result<serde_json::Value, String>) -> Result<
    JsonDoc,
    Seq<char>,
> {
    match r {
        Ok(v) => Ok((json_is_object(v), json_object_members(v))),
        Err(m) => Err(m@),
    }
}

/// The request to send for `/json/version` on `port`; port 0 is refused
/// before anything is sent.
pub fn json_version_request(port: u16) -> (r: Result<String, String>)
    ensures
        port == 0 ==> r is Err && r->Err_0@ == port_zero_message(),
        port != 0 ==> r is Ok && r->Ok_0@ == version_request(port),
{
    if port == 0 {
        Err("端口不能为 0".to_owned())
    } else {
        Ok(version_request_text(port))
    }
}

fn exchange_failure_text(port: u16, failure: ExchangeFailure) -> (r: String)
    ensures
        r@ == exchange_failure_message(port, failure),
{
    let mut s = String::new();
    match failure {
        ExchangeFailure::Address(e) => {
            s.append("内部错误：无法解析地址 ");
            s.append(loopback_addr_text(port).as_str());
            s.append("：");
            s.append(e.as_str());
            assert(s@ =~= exchange_failure_message(port, failure));
        },
        ExchangeFailure::Connect(e) => {
            s.append("无法连接 ");
            s.append(loopback_addr_text(port).as_str());
            s.append("（");
            s.append(e.as_str());
            s.append("）。请确认 Chrome 已用 --remote-debugging-port=");
            push_decimal(&mut s, port as u64);
            s.append(" 启动。");
            assert(s@ =~= exchange_failure_message(port, failure));
        },
        ExchangeFailure::Send(e) => {
            s.append("向 ");
            s.append(version_url_text(port).as_str());
            s.append(" 发送 HTTP 请求失败：");
            s.append(e.as_str());
            assert(s@ =~= exchange_failure_message(port, failure));
        },
        ExchangeFailure::Receive(e) => {
            s.append("读取 ");
            s.append(version_url_text(port).as_str());
            s.append(" 响应失败：");
            s.append(e.as_str());
            assert(s@ =~= exchange_failure_message(port, failure));
        },
    }
    s
}

/// Finds where the header block of `v` ends.
fn find_header_end(v: &Vec<char>) -> (r: Option<usize>)
    ensures
        match r {
            Some(k) => header_end_from(v@, 0) == Some(k as int) && 4 <= k <= v@.len(),
            None => header_end_from(v@, 0) is None,
        },
{
    let n = v.len();
    let mut i: usize = 0;
    while n >= 4 && i <= n - 4
        invariant
            n == v@.len(),
            i <= n,
            header_end_from(v@, 0) == header_end_from(v@, i as int),
        decreases n - i,
    {
        if v[i] == '\r' && v[i + 1] == '\n' && v[i + 2] == '\r' && v[i + 3] == '\n' {
            return Some(i + 4);
        }
        i = i + 1;
    }
    None
}

/// Reads the response text of `/json/version`: the header block must end,
/// the status must be 2xx, and the trimmed body must be JSON.
pub fn parse_version_response(port: u16, text: &str) -> (r: Result<serde_json::Value, String>)
    ensures
        json_result_view(r) == response_outcome(port, text@),
{
    let v = chars_of(text);
    let k = match find_header_end(&v) {
        None => {
            let mut m = version_url_text(port);
            m.append(" 响应格式异常：未找到 HTTP 头结束标记。");
            return Err(m);
        },
        Some(k) => k,
    };
    let head = text.substring_char(0, k);
    let body = text.substring_char(k, v.len());
    assert(body@ =~= text@.skip(k as int));
    let line = first_line_of(head);
    let status_line = trim_white_space(line.as_str());
    let code: u16 = match second_word(status_line.as_str()) {
        Some(w) => match parse_u16_text(w.as_str()) {
            Some(c) => c,
            None => 0,
        },
        None => 0,
    };
    if !(200 <= code && code < 300) {
        let mut m = String::new();
        m.append("请求 ");
        m.append(version_url_text(port).as_str());
        m.append(" 返回非成功状态：");
        m.append(status_line.as_str());
        m.append("。远程调试端口可能未由浏览器正确暴露。");
        assert(m@ =~= bad_status_message(port, status_line@));
        return Err(m);
    }
    let body_trim = trim_white_space(body);
    match parse_json_text(body_trim.as_str()) {
        Ok(value) => Ok(value),
        Err(e) => {
            let len = body_trim.as_str().unicode_len();
            let cut: usize = if len <= 120 {
                len
            } else {
                120
            };
            let piece = body_trim.as_str().substring_char(0, cut);
            let mut m = version_url_text(port);
            m.append(" 的响应体不是合法 JSON（");
            m.append(e.as_str());
            m.append("）。响应片段：");
            m.append(piece);
            assert(piece@ =~= excerpt(body_trim@));
            assert(m@ =~= bad_json_message(port, e@, body_trim@));
            Err(m)
        },
    }
}

/// One `/json/version` exchange on `port`: `exchange` is what the network
/// gave back (the raw response, or how sending or receiving failed).  The
/// answer is the parsed JSON document (whatever kind of value its root is;
/// a root that is not an object has no members, and `parse_devtools_version`
/// refuses it) or the error message.
pub fn fetch_json_version_once(port: u16, exchange: Result<Vec<u8>, ExchangeFailure>) -> (r: Result<
    serde_json::Value,
    String,
>)
    ensures
        json_result_view(r) == fetch_outcome(port, exchange),
{
    if port == 0 {
        return Err("端口不能为 0".to_owned());
    }
    match exchange {
        Err(f) => Err(exchange_failure_text(port, f)),
        Ok(raw) => {
            let text = decode_utf8_lossy(raw.as_slice());
            parse_version_response(port, text.as_str())
        },
    }
}


// ---------------------------------------------------------------------------
// DevTools version information
// ---------------------------------------------------------------------------

/// What `/json/version` tells of the browser: its name, and the WebSocket
/// address of its DevTools endpoint.
#[derive(Debug, Clone, PartialEq, Eq)]
pub struct DevToolsVersionInfo {
    pub browser: Option<String>,
    pub web_socket_debugger_url: String,
}

/// The mathematical view of `DevToolsVersionInfo`.
pub struct DevToolsVersionInfoView {
    pub browser: Option<Seq<char>>,
    pub web_socket_debugger_url: Seq<char>,
}

impl View for DevToolsVersionInfo {
    type V = DevToolsVersionInfoView;

    open spec fn view(&self) -> DevToolsVersionInfoView {
        DevToolsVersionInfoView {
            browser: opt_view(self.browser),
            web_socket_debugger_url: self.web_socket_debugger_url@,
        }
    }
}

pub open spec fn missing_ws_url_message() -> Seq<char> {
    "JSON 中缺少 webSocketDebuggerUrl。请确认该端口由 Chrome DevTools 协议提供。"@
}

/// The DevTools information in a `/json/version` document: the trimmed
/// `webSocketDebuggerUrl` string (which must not be empty), and the browser
/// name from the `Browser` member, or from `browser` when there is no
/// `Browser` member at all.
pub open spec fn devtools_info_from(members: JsonMembers) -> Result<
    DevToolsVersionInfoView,
    Seq<char>,
> {
    let raw = match member_text(members, "webSocketDebuggerUrl"@) {
        Some(t) => t,
        None => Seq::empty(),
    };
    let ws = trim(raw);
    if ws.len() == 0 {
        Err(missing_ws_url_message())
    } else {
        let browser = if members.dom().contains("Browser"@) {
            member_text(members, "Browser"@)
        } else {
            member_text(members, "browser"@)
        };
        Ok(DevToolsVersionInfoView { browser, web_socket_debugger_url: ws })
    }
}

/// The view of a result that carries `DevToolsVersionInfo`.
pub open spec fn info_result_view(r: Result<DevToolsVersionInfo, String>) -> Result<
    DevToolsVersionInfoView,
    Seq<char>,
> {
    match r {
        Ok(i) => Ok(i@),
        Err(m) => Err(m@),
    }
}

/// Reads the DevTools information out of a `/json/version` document.
pub fn parse_devtools_version(json: &serde_json::Value) -> (r: Result<DevToolsVersionInfo, String>)
    ensures
        info_result_view(r) == devtools_info_from(json_object_members(*json)),
        !json_is_object(*json) ==> r is Err,
{
    let raw = match json_member_text(json, "webSocketDebuggerUrl") {
        Some(t) => t,
        None => String::new(),
    };
    let ws = trim_white_space(raw.as_str());
    if ws.as_str().unicode_len() == 0 {
        return Err(
            "JSON 中缺少 webSocketDebuggerUrl。请确认该端口由 Chrome DevTools 协议提供。".to_owned(),
        );
    }
    let browser = match json_member(json, "Browser") {
        Some(_) => json_member_text(json, "Browser"),
        None => json_member_text(json, "browser"),
    };
    Ok(DevToolsVersionInfo { browser, web_socket_debugger_url: ws })
}

/// The length in bytes of the UTF-8 encoding of `s`, as `str::len` reports it.
pub open spec fn utf8_len(s: Seq<char>) -> usize {
    vstd::utf8::encode_utf8(s).len() as usize
}

/// The message shown when the HTTP/JSON check passes.
pub open spec fn http_check_ok_message(port: u16, info: DevToolsVersionInfoView) -> Seq<char> {
    match info.browser {
        Some(b) if b.len() > 0 => "HTTP/JSON 检测通过："@ + version_url(port) + " 对应 "@ + b
            + "，webSocketDebuggerUrl 已就绪。"@,
        _ => "HTTP/JSON 检测通过："@ + version_url(port)
            + " 返回 DevTools 版本信息，webSocketDebuggerUrl 已就绪（长度 "@ + decimal(
            utf8_len(info.web_socket_debugger_url) as nat,
        ) + "）。"@,
    }
}

/// Reports a passed HTTP/JSON check: names the browser when it is known,
/// else gives the length in bytes of the WebSocket address.
pub fn format_http_check_ok(port: u16, info: &DevToolsVersionInfo) -> (r: String)
    ensures
        r@ == http_check_ok_message(port, info@),
{
    let mut s = String::new();
    s.append("HTTP/JSON 检测通过：");
    s.append(version_url_text(port).as_str());
    match &info.browser {
        Some(b) if b.as_str().unicode_len() > 0 => {
            s.append(" 对应 ");
            s.append(b.as_str());
            s.append("，webSocketDebuggerUrl 已就绪。");
            assert(s@ =~= http_check_ok_message(port, info@));
        },
        _ => {
            s.append(" 返回 DevTools 版本信息，webSocketDebuggerUrl 已就绪（长度 ");
            let n = info.web_socket_debugger_url.as_str().len();
            push_decimal(&mut s, n as u64);
            s.append("）。");
            assert(s@ =~= http_check_ok_message(port, info@));
        },
    }
    s
}


// ---------------------------------------------------------------------------
// Retrying while the browser starts
// ---------------------------------------------------------------------------

/// A positive whole number read from a setting: the trimmed text as a `u64`,
/// or `default` when the setting is missing, unreadable or zero.
pub open spec fn setting_u64(raw: Option<Seq<char>>, default: u64) -> u64 {
    match raw {
        Some(s) => match parse_u64(trim(s)) {
            Some(n) => if n > 0 {
                n
            } else {
                default
            },
            None => default,
        },
        None => default,
    }
}

/// Reads a positive whole number from a setting, falling back to `default`.
pub fn env_u64(raw: &Option<String>, default: u64) -> (r: u64)
    ensures
        r == setting_u64(opt_view(*raw), default),
{
    match raw {
        Some(s) => {
            let t = trim_white_space(s.as_str());
            match parse_u64_text(t.as_str()) {
                Some(n) => if n > 0 {
                    n
                } else {
                    default
                },
                None => default,
            }
        },
        None => default,
    }
}

/// How often to try `/json/version`, and how long to wait between tries.
#[derive(Debug, Clone, Copy, PartialEq, Eq)]
pub struct RetrySchedule {
    pub max_attempts: usize,
    pub delay_ms: u64,
}

pub open spec fn min_u64(a: u64, b: u64) -> u64 {
    if a <= b {
        a
    } else {
        b
    }
}

/// The schedule from the settings for the number of tries (default 5, at
/// most 20) and the pause in milliseconds (default 400, at most 5000).
pub fn retry_schedule(retries: &Option<String>, delay_ms: &Option<String>) -> (r: RetrySchedule)
    ensures
        r.max_attempts == min_u64(setting_u64(opt_view(*retries), 5), 20),
        r.delay_ms == min_u64(setting_u64(opt_view(*delay_ms), 400), 5000),
        1 <= r.max_attempts <= 20,
        1 <= r.delay_ms <= 5000,
{
    let tries = env_u64(retries, 5);
    let tries = if tries <= 20 {
        tries
    } else {
        20
    };
    let pause = env_u64(delay_ms, 400);
    let pause = if pause <= 5000 {
        pause
    } else {
        5000
    };
    RetrySchedule { max_attempts: tries as usize, delay_ms: pause }
}

/// What one try yields: the DevTools information, or the error message.
pub open spec fn attempt_outcome(port: u16, exchange: Result<Vec<u8>, ExchangeFailure>) -> Result<
    DevToolsVersionInfoView,
    Seq<char>,
> {
    match fetch_outcome(port, exchange) {
        Ok(doc) => devtools_info_from(doc.1),
        Err(e) => Err(e),
    }
}

pub open spec fn unknown_failure_message() -> Seq<char> {
    "解析 CDP WebSocket 失败（未知原因）"@
}

/// The verdict of a run of tries: the first success, or else the error of
/// the last try (a fixed message when there was no try at all).
pub open spec fn retry_verdict(outcomes: Seq<Result<DevToolsVersionInfoView, Seq<char>>>) -> Result<
    DevToolsVersionInfoView,
    Seq<char>,
>
    decreases outcomes.len(),
{
    if outcomes.len() == 0 {
        Err(unknown_failure_message())
    } else if outcomes[0] is Ok || outcomes.len() == 1 {
        outcomes[0]
    } else {
        retry_verdict(outcomes.drop_first())
    }
}

/// A run of tries against `/json/version` on one port.
pub struct RetryRun {
    pub port: u16,
    pub schedule: RetrySchedule,
    /// Tries made so far.
    pub attempts: usize,
    /// Whether the run has come to its verdict.
    pub finished: bool,
    /// What each try made so far yielded.
    pub outcomes: Ghost<Seq<Result<DevToolsVersionInfoView, Seq<char>>>>,
}

/// What the caller does next in a run.
#[derive(Debug, PartialEq, Eq)]
pub enum RetryStep {
    /// Try at once.
    Fetch,
    /// The last try failed with `error`: wait `delay_ms` milliseconds, then
    /// try again.
    PauseThenFetch { delay_ms: u64, error: String },
    /// The run is over, with this verdict.
    Done(Result<DevToolsVersionInfo, String>),
}

impl RetryRun {
    /// A run is consistent: one outcome per try, never more tries than the
    /// schedule allows, every try but a finishing one failed, and an
    /// unfinished run has a try left.
    pub open spec fn wf(&self) -> bool {
        &&& self.attempts == self.outcomes@.len()
        &&& self.attempts <= self.schedule.max_attempts
        &&& forall|i: int|
            0 <= i < self.outcomes@.len() && (!self.finished || i + 1 < self.outcomes@.len())
                ==> #[trigger] self.outcomes@[i] is Err
        &&& !self.finished ==> self.attempts < self.schedule.max_attempts
    }

    /// Starts a run; the first step is a try, unless the schedule allows none.
    pub fn start(port: u16, schedule: RetrySchedule) -> (r: (RetryRun, RetryStep))
        ensures
            r.0.wf(),
            r.0.port == port,
            r.0.schedule == schedule,
            r.0.attempts == 0,
            r.0.outcomes@ == Seq::<Result<DevToolsVersionInfoView, Seq<char>>>::empty(),
            schedule.max_attempts > 0 ==> !r.0.finished && r.1 is Fetch,
            schedule.max_attempts == 0 ==> r.0.finished && (r.1 matches RetryStep::Done(v)
                && info_result_view(v) == retry_verdict(r.0.outcomes@)),
    {
        let none_allowed = schedule.max_attempts == 0;
        let run = RetryRun {
            port,
            schedule,
            attempts: 0,
            finished: none_allowed,
            outcomes: Ghost(Seq::empty()),
        };
        if none_allowed {
            (run, RetryStep::Done(Err("解析 CDP WebSocket 失败（未知原因）".to_owned())))
        } else {
            (run, RetryStep::Fetch)
        }
    }
}

/// When every try but the last failed, the verdict of the run is what the
/// last try yielded: its success, or its error.
pub proof fn lemma_verdict_after_failures(outcomes: Seq<Result<DevToolsVersionInfoView, Seq<char>>>)
    requires
        outcomes.len() > 0,
        forall|i: int| 0 <= i < outcomes.len() - 1 ==> #[trigger] outcomes[i] is Err,
    ensures
        retry_verdict(outcomes) == outcomes.last(),
    decreases outcomes.len(),
{
    if outcomes.len() > 1 {
        assert(outcomes[0] is Err);
        let rest = outcomes.drop_first();
        assert forall|i: int| 0 <= i < rest.len() - 1 implies #[trigger] rest[i] is Err by {
            assert(rest[i] == outcomes[i + 1]);
        }
        lemma_verdict_after_failures(rest);
    }
}

/// Takes in what one try on the run's port gave back and says what to do
/// next: stop at the first success, pause and try again after a failure
/// while tries are left, and otherwise stop with the last error.
pub fn fetch_devtools_version_with_retry(
    run: &mut RetryRun,
    exchange: Result<Vec<u8>, ExchangeFailure>,
) -> (step: RetryStep)
    requires
        old(run).wf(),
        !old(run).finished,
    ensures
        final(run).wf(),
        final(run).port == old(run).port,
        final(run).schedule == old(run).schedule,
        final(run).attempts == old(run).attempts + 1,
        final(run).outcomes@ == old(run).outcomes@.push(attempt_outcome(old(run).port, exchange)),
        step !is Fetch,
        step is PauseThenFetch <==> !final(run).finished,
        step matches RetryStep::PauseThenFetch { delay_ms, error } ==> delay_ms
            == old(run).schedule.delay_ms && attempt_outcome(old(run).port, exchange) == Err::<
            DevToolsVersionInfoView,
            Seq<char>,
        >(error@),
        step is Done <==> (attempt_outcome(old(run).port, exchange) is Ok
            || final(run).attempts == old(run).schedule.max_attempts),
        step matches RetryStep::Done(v) ==> info_result_view(v) == retry_verdict(
            final(run).outcomes@,
        ),
        attempt_outcome(old(run).port, exchange) is Ok ==> (step matches RetryStep::Done(v)
            && info_result_view(v) == attempt_outcome(old(run).port, exchange)),
{
    let ghost outcome = attempt_outcome(run.port, exchange);
    let result = match fetch_json_version_once(run.port, exchange) {
        Ok(json) => parse_devtools_version(&json),
        Err(e) => Err(e),
    };
    assert(info_result_view(result) == outcome);
    run.attempts = run.attempts + 1;
    run.outcomes = Ghost(run.outcomes@.push(outcome));
    proof {
        lemma_verdict_after_failures(run.outcomes@);
    }
    match result {
        Ok(info) => {
            run.finished = true;
            RetryStep::Done(Ok(info))
        },
        Err(e) => {
            if run.attempts < run.schedule.max_attempts {
                RetryStep::PauseThenFetch { delay_ms: run.schedule.delay_ms, error: e }
            } else {
                run.finished = true;
                RetryStep::Done(Err(e))
            }
        },
    }
}


// ---------------------------------------------------------------------------
// The endpoint cache
// ---------------------------------------------------------------------------

/// Where a cached endpoint came from: the `WSGW_CDP_WS_URL` setting, or the
/// local port's `/json/version`.
#[derive(PartialEq, Eq, Structural, Clone, Copy, Debug)]
pub enum EndpointSource {
    Env,
    Http,
}

pub open spec fn source_label(source: EndpointSource) -> Seq<char> {
    match source {
        EndpointSource::Env => "env"@,
        EndpointSource::Http => "http"@,
    }
}

impl EndpointSource {
    /// `"env"` or `"http"`.
    pub fn as_str(&self) -> (r: &'static str)
        ensures
            r@ == source_label(*self),
    {
        match self {
            EndpointSource::Env => "env",
            EndpointSource::Http => "http",
        }
    }
}

struct CachedEndpoint {
    web_socket_debugger_url: String,
    source: EndpointSource,
}

/// The endpoint found last, kept for the next probe.
pub struct CdpSessionCache {
    inner: Option<CachedEndpoint>,
}

/// What a cache holds: the WebSocket address and where it came from.
pub type CachedView = Option<(Seq<char>, EndpointSource)>;

impl View for CdpSessionCache {
    type V = Option<(Seq<char>, EndpointSource)>;

    closed spec fn view(&self) -> Option<(Seq<char>, EndpointSource)> {
        match self.inner {
            Some(c) => Some((c.web_socket_debugger_url@, c.source)),
            None => None,
        }
    }
}

/// A resolved endpoint: the address, where it came from, and whether it was
/// just looked up (rather than taken from the cache).
pub type Endpoint = (String, EndpointSource, bool);

/// The view of a resolved endpoint.
pub type EndpointView = (Seq<char>, EndpointSource, bool);

pub open spec fn endpoint_result_view(r: Result<(String, EndpointSource, bool), String>) -> Result<
    (Seq<char>, EndpointSource, bool),
    Seq<char>,
> {
    match r {
        Ok(e) => Ok((e.0@, e.1, e.2)),
        Err(m) => Err(m@),
    }
}

/// The answer of `resolve_endpoint`: ready, or to be looked up on a port.
#[derive(Debug, PartialEq, Eq)]
pub enum EndpointLookup {
    Ready(Result<(String, EndpointSource, bool), String>),
    /// Run the `/json/version` tries on this port, then hand the verdict to
    /// `record_fetched_endpoint`.
    FetchFromPort(u16),
}

pub enum EndpointLookupView {
    Ready(Result<(Seq<char>, EndpointSource, bool), Seq<char>>),
    FetchFromPort(u16),
}

impl View for EndpointLookup {
    type V = EndpointLookupView;

    open spec fn view(&self) -> EndpointLookupView {
        match self {
            EndpointLookup::Ready(r) => EndpointLookupView::Ready(endpoint_result_view(*r)),
            EndpointLookup::FetchFromPort(p) => EndpointLookupView::FetchFromPort(*p),
        }
    }
}

/// The port setting as read: `WSGW_DEBUG_PORT` trimmed, `"9222"` when unset.
pub open spec fn debug_port_setting(raw: Option<Seq<char>>) -> Seq<char> {
    trim(
        match raw {
            Some(s) => s,
            None => "9222"@,
        },
    )
}

pub open spec fn invalid_port_message(shown: Seq<char>) -> Seq<char> {
    "WSGW_DEBUG_PORT 无效："@ + shown + "。"@
}

pub open spec fn zero_port_message() -> Seq<char> {
    "WSGW_DEBUG_PORT 不能为 0"@
}

/// The trimmed `WSGW_CDP_WS_URL` setting (empty when unset).
pub open spec fn ws_url_setting(raw: Option<Seq<char>>) -> Seq<char> {
    trim(
        match raw {
            Some(s) => s,
            None => Seq::empty(),
        },
    )
}

/// How the cache answers a resolve, and what it holds afterwards.  A forced
/// refresh first forgets the cache.  A `WSGW_CDP_WS_URL` that is not blank
/// wins and is cached; otherwise a cached endpoint is reused; otherwise the
/// port setting decides: an error, or a lookup on that port.
pub open spec fn resolve_spec(
    cache: Option<(Seq<char>, EndpointSource)>,
    force_refresh: bool,
    env_ws_url: Option<Seq<char>>,
    env_debug_port: Option<Seq<char>>,
) -> (EndpointLookupView, Option<(Seq<char>, EndpointSource)>) {
    let kept = if force_refresh {
        None
    } else {
        cache
    };
    let ws = ws_url_setting(env_ws_url);
    if ws.len() > 0 {
        (
            EndpointLookupView::Ready(Ok((ws, EndpointSource::Env, force_refresh))),
            Some((ws, EndpointSource::Env)),
        )
    } else {
        match kept {
            Some(c) => (EndpointLookupView::Ready(Ok((c.0, c.1, false))), kept),
            None => {
                let p = debug_port_setting(env_debug_port);
                match parse_u16(p) {
                    None => (EndpointLookupView::Ready(Err(invalid_port_message(p))), None),
                    Some(n) => if n == 0 {
                        (EndpointLookupView::Ready(Err(zero_port_message())), None)
                    } else {
                        (EndpointLookupView::FetchFromPort(n), None)
                    },
                }
            },
        }
    }
}

/// How the cache takes the verdict of a lookup: a found endpoint is cached
/// as coming from HTTP and returned as just looked up; an error leaves the
/// cache as it was.
pub open spec fn record_spec(
    cache: Option<(Seq<char>, EndpointSource)>,
    fetched: Result<DevToolsVersionInfoView, Seq<char>>,
) -> (Result<(Seq<char>, EndpointSource, bool), Seq<char>>, Option<(Seq<char>, EndpointSource)>) {
    match fetched {
        Ok(info) => (
            Ok((info.web_socket_debugger_url, EndpointSource::Http, true)),
            Some((info.web_socket_debugger_url, EndpointSource::Http)),
        ),
        Err(e) => (Err(e), cache),
    }
}

/// Reads the port setting: `Err` with the message, or the port.
fn read_debug_port(env_debug_port: &Option<String>) -> (r: Result<u16, String>)
    ensures
        match r {
            Ok(n) => n != 0 && parse_u16(debug_port_setting(opt_view(*env_debug_port))) == Some(n),
            Err(m) => {
                let p = debug_port_setting(opt_view(*env_debug_port));
                ||| parse_u16(p) is None && m@ == invalid_port_message(p)
                ||| parse_u16(p) == Some(0u16) && m@ == zero_port_message()
            },
        },
{
    let p = match env_debug_port {
        Some(s) => trim_white_space(s.as_str()),
        None => trim_white_space("9222"),
    };
    match parse_u16_text(p.as_str()) {
        None => {
            let mut m = String::new();
            m.append("WSGW_DEBUG_PORT 无效：");
            m.append(p.as_str());
            m.append("。");
            assert(m@ =~= invalid_port_message(p@));
            Err(m)
        },
        Some(n) => if n == 0 {
            Err("WSGW_DEBUG_PORT 不能为 0".to_owned())
        } else {
            Ok(n)
        },
    }
}

impl CdpSessionCache {
    /// An empty cache.
    pub fn new() -> (r: Self)
        ensures
            r@ == None::<(Seq<char>, EndpointSource)>,
    {
        CdpSessionCache { inner: None }
    }

    /// Forgets the cached endpoint.
    pub fn clear(&mut self)
        ensures
            final(self)@ == None::<(Seq<char>, EndpointSource)>,
    {
        self.inner = None;
    }

    /// Resolves the CDP endpoint from the `WSGW_CDP_WS_URL` and
    /// `WSGW_DEBUG_PORT` settings (`None` when unset) and the cache;
    /// `force_refresh` ignores the cache.  When the endpoint has to be looked
    /// up, the answer says on which port.
    pub fn resolve_endpoint(
        &mut self,
        force_refresh: bool,
        env_ws_url: &Option<String>,
        env_debug_port: &Option<String>,
    ) -> (r: EndpointLookup)
        ensures
            (r@, final(self)@) == resolve_spec(
                old(self)@,
                force_refresh,
                opt_view(*env_ws_url),
                opt_view(*env_debug_port),
            ),
    {
        if force_refresh {
            self.clear();
        }
        let ws = match env_ws_url {
            Some(s) => trim_white_space(s.as_str()),
            None => String::new(),
        };
        assert(ws@ == ws_url_setting(opt_view(*env_ws_url))) by {
            if env_ws_url.is_none() {
                assert(trim(Seq::<char>::empty()) =~= Seq::<char>::empty());
            }
        }
        if ws.as_str().unicode_len() > 0 {
            self.inner = Some(
                CachedEndpoint { web_socket_debugger_url: ws.clone(), source: EndpointSource::Env },
            );
            return EndpointLookup::Ready(Ok((ws, EndpointSource::Env, force_refresh)));
        }
        match &self.inner {
            Some(c) => {
                return EndpointLookup::Ready(Ok((c.web_socket_debugger_url.clone(), c.source, false)));
            },
            None => {},
        }
        match read_debug_port(env_debug_port) {
            Err(m) => EndpointLookup::Ready(Err(m)),
            Ok(n) => EndpointLookup::FetchFromPort(n),
        }
    }

    /// Takes the verdict of a lookup that `resolve_endpoint` asked for.
    pub fn record_fetched_endpoint(&mut self, fetched: Result<DevToolsVersionInfo, String>) -> (r:
        Result<(String, EndpointSource, bool), String>)
        ensures
            (endpoint_result_view(r), final(self)@) == record_spec(
                old(self)@,
                info_result_view(fetched),
            ),
    {
        match fetched {
            Ok(info) => {
                let ws = info.web_socket_debugger_url;
                self.inner = Some(
                    CachedEndpoint { web_socket_debugger_url: ws.clone(), source: EndpointSource::Http },
                );
                Ok((ws, EndpointSource::Http, true))
            },
            Err(e) => Err(e),
        }
    }

    /// Whether an endpoint is cached.
    pub fn has_cached_endpoint(&self) -> (r: bool)
        ensures
            r == self@.is_some(),
    {
        self.inner.is_some()
    }
}

/// What the front end is told of the CDP session.
#[derive(Debug, Clone, Copy, PartialEq, Eq)]
pub struct CdpSessionStatus {
    pub has_cached_ws: bool,
    pub prefers_env_ws_url: bool,
}

/// A snapshot of the session: whether an endpoint is cached, and whether
/// `WSGW_CDP_WS_URL` (given as `env_ws_url`) is set to something not blank.
pub fn session_status_snapshot(cache: &CdpSessionCache, env_ws_url: &Option<String>) -> (r:
    CdpSessionStatus)
    ensures
        r.has_cached_ws == cache@.is_some(),
        r.prefers_env_ws_url == !is_unset(opt_view(*env_ws_url)),
{
    CdpSessionStatus {
        has_cached_ws: cache.has_cached_endpoint(),
        prefers_env_ws_url: !unset(env_ws_url),
    }
}


// ---------------------------------------------------------------------------
// Laws of the endpoint cache
// ---------------------------------------------------------------------------

/// A `WSGW_CDP_WS_URL` that is not blank takes precedence over everything
/// else: over the cache and over the port setting, forced or not.  It is
/// answered (trimmed) and cached as coming from the setting.
pub proof fn lemma_env_url_takes_precedence(
    cache: Option<(Seq<char>, EndpointSource)>,
    force_refresh: bool,
    env_ws_url: Seq<char>,
    env_debug_port: Option<Seq<char>>,
)
    requires
        !is_unset(Some(env_ws_url)),
    ensures
        resolve_spec(cache, force_refresh, Some(env_ws_url), env_debug_port) == (
            EndpointLookupView::Ready(Ok((trim(env_ws_url), EndpointSource::Env, force_refresh))),
            Some((trim(env_ws_url), EndpointSource::Env)),
        ),
{
}

/// An endpoint that a lookup found is what the next resolve gives back, from
/// the cache and without a new lookup, while `WSGW_CDP_WS_URL` stays blank.
pub proof fn lemma_fetched_endpoint_is_reused(
    cache: Option<(Seq<char>, EndpointSource)>,
    info: DevToolsVersionInfoView,
    env_ws_url: Option<Seq<char>>,
    env_debug_port: Option<Seq<char>>,
)
    requires
        is_unset(env_ws_url),
    ensures
        ({
            let stored = record_spec(cache, Ok(info)).1;
            resolve_spec(stored, false, env_ws_url, env_debug_port) == (
                EndpointLookupView::Ready(
                    Ok((info.web_socket_debugger_url, EndpointSource::Http, false)),
                ),
                stored,
            )
        }),
{
}

/// A forced refresh never answers from the cache: it resolves exactly as an
/// empty cache would, and leaves the cache empty unless the setting fills it.
pub proof fn lemma_forced_refresh_ignores_cache(
    cache: Option<(Seq<char>, EndpointSource)>,
    env_ws_url: Option<Seq<char>>,
    env_debug_port: Option<Seq<char>>,
)
    requires
        is_unset(env_ws_url),
    ensures
        resolve_spec(cache, true, env_ws_url, env_debug_port) == resolve_spec(
            None,
            false,
            env_ws_url,
            env_debug_port,
        ),
        resolve_spec(cache, true, env_ws_url, env_debug_port).1 == None::<
            (Seq<char>, EndpointSource),
        >,
{
    assert(trim(Seq::<char>::empty()) =~= Seq::<char>::empty());
}

/// After `clear`, and with `WSGW_CDP_WS_URL` blank, a resolve never finds an
/// endpoint without a lookup: it asks for one or reports the port setting.
pub proof fn lemma_cleared_cache_needs_lookup(
    env_ws_url: Option<Seq<char>>,
    env_debug_port: Option<Seq<char>>,
)
    requires
        is_unset(env_ws_url),
    ensures
        !(resolve_spec(None, false, env_ws_url, env_debug_port).0 matches EndpointLookupView::Ready(
            Ok(_),
        )),
{
}

/// An endpoint, once found, is found again: resolving a second time with the
/// same settings and no forced refresh gives the same address and source,
/// not as a fresh lookup, and leaves the cache unchanged.
pub proof fn lemma_resolve_is_repeatable(
    cache: Option<(Seq<char>, EndpointSource)>,
    force_refresh: bool,
    env_ws_url: Option<Seq<char>>,
    env_debug_port: Option<Seq<char>>,
    found: (Seq<char>, EndpointSource, bool),
)
    requires
        resolve_spec(cache, force_refresh, env_ws_url, env_debug_port).0
            == EndpointLookupView::Ready(Ok(found)),
    ensures
        ({
            let after = resolve_spec(cache, force_refresh, env_ws_url, env_debug_port).1;
            resolve_spec(after, false, env_ws_url, env_debug_port) == (
                EndpointLookupView::Ready(Ok((found.0, found.1, false))),
                after,
            )
        }),
{
}


// ---------------------------------------------------------------------------
// The WebSocket handshake address
// ---------------------------------------------------------------------------

/// What `url::Url::parse` makes of a text: the URL's scheme (`Url::scheme`)
/// and its serialization (`Url::as_str`), or the `Display` text of the
/// `url::ParseError`.
pub uninterp spec fn url_parse_outcome(text: Seq<char>) -> Result<(Seq<char>, Seq<char>), Seq<char>>;

/// Parses `text` with `url::Url::parse` and reads the scheme and the
/// serialization of the parsed URL.  Trusted: the pair, or the error text,
/// is named by `url_parse_outcome`, and not stated further.
#[verifier::external_body]
fn parse_url(text: &str) -> (r: Result<(String, String), String>)
    ensures
        match r {
            Ok(p) => url_parse_outcome(text@) == Ok::<(Seq<char>, Seq<char>), Seq<char>>(
                (p.0@, p.1@),
            ),
            Err(m) => url_parse_outcome(text@) == Err::<(Seq<char>, Seq<char>), Seq<char>>(m@),
        },
{
    match url::Url::parse(text) {
        Ok(u) => Ok((u.scheme().to_string(), u.as_str().to_string())),
        Err(e) => Err(e.to_string()),
    }
}

pub open spec fn unparsable_ws_url_message(error: Seq<char>) -> Seq<char> {
    "WebSocket URL 无法解析："@ + error
}

pub open spec fn not_ws_scheme_message() -> Seq<char> {
    "CDP WebSocket 地址须为 ws:// 或 wss://"@
}

pub open spec fn wss_unsupported_message() -> Seq<char> {
    "当前版本仅校验本机 ws:// CDP；若你使用 wss，请确认证书与网络策略后再扩展实现。"@
}

/// Whether a WebSocket address may be used for the handshake: it must parse
/// as a URL with scheme `ws` (`wss` is refused for now).  On success, the
/// address to shake hands with: the serialization of the URL parsed from
/// `ws_url`.
pub open spec fn handshake_check(ws_url: Seq<char>) -> Result<Seq<char>, Seq<char>> {
    match url_parse_outcome(ws_url) {
        Err(e) => Err(unparsable_ws_url_message(e)),
        Ok((scheme, serialized)) => if scheme != "ws"@ && scheme != "wss"@ {
            Err(not_ws_scheme_message())
        } else if scheme == "wss"@ {
            Err(wss_unsupported_message())
        } else {
            Ok(serialized)
        },
    }
}

/// Checks a CDP WebSocket address before the handshake; on success gives the
/// URL to connect to: the one parsed from `ws_url`, as `Url::as_str`
/// serializes it.
pub fn try_cdp_websocket_handshake(ws_url: &str) -> (r: Result<String, String>)
    ensures
        crate::env_bootstrap::text_result_view(r) == handshake_check(ws_url@),
{
    let (scheme, serialized) = match parse_url(ws_url) {
        Ok(p) => p,
        Err(e) => {
            let mut m = String::new();
            m.append("WebSocket URL 无法解析：");
            m.append(e.as_str());
            assert(m@ =~= unparsable_ws_url_message(e@));
            return Err(m);
        },
    };
    let is_ws = same_text(scheme.as_str(), "ws");
    let is_wss = same_text(scheme.as_str(), "wss");
    if !is_ws && !is_wss {
        return Err("CDP WebSocket 地址须为 ws:// 或 wss://".to_owned());
    }
    if is_wss {
        return Err(
            "当前版本仅校验本机 ws:// CDP；若你使用 wss，请确认证书与网络策略后再扩展实现。".to_owned(),
        );
    }
    Ok(serialized)
}

pub open spec fn handshake_failure_message(error: Seq<char>) -> Seq<char> {
    "WebSocket 握手失败："@ + error
        + "。请确认 Chrome 仍以远程调试模式运行，且 webSocketDebuggerUrl 未过期。"@
}

/// The message for a failed WebSocket handshake, given the error's text.
pub fn websocket_handshake_failure(error: &str) -> (r: String)
    ensures
        r@ == handshake_failure_message(error@),
{
    let mut m = String::new();
    m.append("WebSocket 握手失败：");
    m.append(error);
    m.append("。请确认 Chrome 仍以远程调试模式运行，且 webSocketDebuggerUrl 未过期。");
    assert(m@ =~= handshake_failure_message(error@));
    m
}

// ---------------------------------------------------------------------------
// Laws of reading `/json/version`
// ---------------------------------------------------------------------------

/// The blank line that ends an HTTP header block.
pub open spec fn blank_line() -> Seq<char> {
    seq!['\r', '\n', '\r', '\n']
}

proof fn lemma_header_block_ends_after(head: Seq<char>, body: Seq<char>, i: int)
    requires
        0 <= i <= head.len(),
        forall|k: int|
            0 <= k < head.len() ==> #[trigger] (head + blank_line() + body).subrange(k, k + 4)
                != blank_line(),
    ensures
        header_end_from(head + blank_line() + body, i) == Some(head.len() as int + 4),
    decreases head.len() - i,
{
    let text = head + blank_line() + body;
    if i < head.len() {
        if blank_line_at(text, i) {
            assert(text.subrange(i, i + 4) =~= blank_line());
        }
        lemma_header_block_ends_after(head, body, i + 1);
    } else {
        assert(text[i] == '\r' && text[i + 1] == '\n' && text[i + 2] == '\r' && text[i + 3] == '\n');
    }
}

/// A 2xx response is read whole: when the header block `head` (whose status
/// line's second word is a code from 200 to 299) is followed by the blank
/// line and then `body`, the document is exactly what `serde_json` parses
/// from the whole of `body`, trimmed, wherever its line breaks are; a body
/// that does not parse is reported with that error and an excerpt.
pub proof fn lemma_response_reads_whole_body(
    port: u16,
    head: Seq<char>,
    body: Seq<char>,
    code: u16,
)
    requires
        forall|k: int|
            0 <= k < head.len() ==> #[trigger] (head + blank_line() + body).subrange(k, k + 4)
                != blank_line(),
        nth_word(trim(first_line(head)), 1) == Some(decimal(code as nat)),
        200 <= code < 300,
    ensures
        match json_parse_outcome(trim(body)) {
            Ok(doc) => response_outcome(port, head + blank_line() + body) == Ok::<
                JsonDoc,
                Seq<char>,
            >(doc),
            Err(e) => response_outcome(port, head + blank_line() + body) == Err::<
                JsonDoc,
                Seq<char>,
            >(bad_json_message(port, e, trim(body))),
        },
{
    let text = head + blank_line() + body;
    lemma_header_block_ends_after(head, body, 0);
    let k: int = head.len() as int + 4;
    assert(text.subrange(0, k) =~= head + blank_line());
    lemma_first_line_before_blank_line(head);
    lemma_port_text_round_trip(code);
    assert(text.skip(k) =~= body);
}

/// A response whose status code is not from 200 to 299 is refused, whatever
/// its body, with the trimmed status line in the message.
pub proof fn lemma_non_success_status_is_refused(
    port: u16,
    head: Seq<char>,
    body: Seq<char>,
    code: u16,
)
    requires
        forall|k: int|
            0 <= k < head.len() ==> #[trigger] (head + blank_line() + body).subrange(k, k + 4)
                != blank_line(),
        nth_word(trim(first_line(head)), 1) == Some(decimal(code as nat)),
        !(200 <= code < 300),
    ensures
        response_outcome(port, head + blank_line() + body) == Err::<JsonDoc, Seq<char>>(
            bad_status_message(port, trim(first_line(head))),
        ),
{
    let text = head + blank_line() + body;
    lemma_header_block_ends_after(head, body, 0);
    let k: int = head.len() as int + 4;
    assert(text.subrange(0, k) =~= head + blank_line());
    lemma_first_line_before_blank_line(head);
    lemma_port_text_round_trip(code);
}

/// The WebSocket address is read as given: whenever the document's
/// `webSocketDebuggerUrl` member is a string whose trimmed text `t` is not
/// empty, the reading succeeds with exactly `t`, whatever its length.  The
/// browser name is the `Browser` string when that member is a string, and
/// the `browser` string when there is no `Browser` member and that one is.
pub proof fn lemma_websocket_url_member_is_read(
    members: JsonMembers,
    url: Seq<char>,
    name: Seq<char>,
)
    requires
        members.dom().contains("webSocketDebuggerUrl"@),
        members["webSocketDebuggerUrl"@] == JsonMemberView::Text(url),
        trim(url).len() > 0,
    ensures
        devtools_info_from(members) matches Ok(info) && info.web_socket_debugger_url == trim(url),
        members.dom().contains("Browser"@) && members["Browser"@] == JsonMemberView::Text(name)
            ==> (devtools_info_from(members) matches Ok(info) && info.browser == Some(name)),
        !members.dom().contains("Browser"@) && members.dom().contains("browser"@)
            && members["browser"@] == JsonMemberView::Text(name) ==> (devtools_info_from(
            members,
        ) matches Ok(info) && info.browser == Some(name)),
        !members.dom().contains("Browser"@) && !members.dom().contains("browser"@)
            ==> (devtools_info_from(members) matches Ok(info) && info.browser == None::<
            Seq<char>,
        >),
{
}

/// Without a `webSocketDebuggerUrl` string that has something but white space
/// in it, the document is refused with the fixed message.
pub proof fn lemma_missing_websocket_url_is_refused(members: JsonMembers)
    requires
        !(exists|url: Seq<char>|
            members.dom().contains("webSocketDebuggerUrl"@) && members["webSocketDebuggerUrl"@]
                == JsonMemberView::Text(url) && #[trigger] trim(url).len() > 0),
    ensures
        devtools_info_from(members) == Err::<DevToolsVersionInfoView, Seq<char>>(
            missing_ws_url_message(),
        ),
{
    if members.dom().contains("webSocketDebuggerUrl"@) {
        match members["webSocketDebuggerUrl"@] {
            JsonMemberView::Text(url) => {
                assert(trim(url).len() == 0);
            },
            JsonMemberView::Other => {
                assert(trim(Seq::<char>::empty()) =~= Seq::<char>::empty());
            },
        }
    } else {
        assert(trim(Seq::<char>::empty()) =~= Seq::<char>::empty());
    }
}

/// One try reads the fetched document as `parse_devtools_version` does: when
/// the exchange on a non-zero port gives a document, the try's outcome is
/// the DevTools information read from that document, browser name included.
pub proof fn lemma_try_reads_fetched_document(
    port: u16,
    raw: Vec<u8>,
    url: Seq<char>,
    name: Seq<char>,
)
    requires
        port != 0,
        response_outcome(port, utf8_lossy(raw@)) is Ok,
    ensures
        attempt_outcome(port, Ok(raw)) == devtools_info_from(
            response_outcome(port, utf8_lossy(raw@))->Ok_0.1,
        ),
        ({
            let members = response_outcome(port, utf8_lossy(raw@))->Ok_0.1;
            members.dom().contains("webSocketDebuggerUrl"@) && members["webSocketDebuggerUrl"@]
                == JsonMemberView::Text(url) && trim(url).len() > 0 && members.dom().contains(
                "Browser"@,
            ) && members["Browser"@] == JsonMemberView::Text(name) ==> attempt_outcome(
                port,
                Ok(raw),
            ) == Ok::<DevToolsVersionInfoView, Seq<char>>(
                DevToolsVersionInfoView { browser: Some(name), web_socket_debugger_url: trim(url) },
            )
        }),
{
    let members = response_outcome(port, utf8_lossy(raw@))->Ok_0.1;
    if members.dom().contains("webSocketDebuggerUrl"@) && members["webSocketDebuggerUrl"@]
        == JsonMemberView::Text(url) && trim(url).len() > 0 {
        lemma_websocket_url_member_is_read(members, url, name);
    }
}

/// A WebSocket address is judged by its scheme alone: an address that parses
/// with scheme `ws` is handed on to the handshake as the parsed URL's
/// serialization, whatever its length or path; `wss` and every other scheme
/// are refused with their messages, and an unparsable address with the
/// parse error.
pub proof fn lemma_handshake_check_by_scheme(
    ws_url: Seq<char>,
    scheme: Seq<char>,
    serialized: Seq<char>,
    error: Seq<char>,
)
    ensures
        url_parse_outcome(ws_url) == Ok::<(Seq<char>, Seq<char>), Seq<char>>(("ws"@, serialized))
            ==> handshake_check(ws_url) == Ok::<Seq<char>, Seq<char>>(serialized),
        url_parse_outcome(ws_url) == Ok::<(Seq<char>, Seq<char>), Seq<char>>(("wss"@, serialized))
            ==> handshake_check(ws_url) == Err::<Seq<char>, Seq<char>>(wss_unsupported_message()),
        url_parse_outcome(ws_url) == Ok::<(Seq<char>, Seq<char>), Seq<char>>((scheme, serialized))
            && scheme != "ws"@ && scheme != "wss"@ ==> handshake_check(ws_url) == Err::<
            Seq<char>,
            Seq<char>,
        >(not_ws_scheme_message()),
        url_parse_outcome(ws_url) == Err::<(Seq<char>, Seq<char>), Seq<char>>(error)
            ==> handshake_check(ws_url) == Err::<Seq<char>, Seq<char>>(
            unparsable_ws_url_message(error),
        ),
{
    reveal_strlit("ws");
    reveal_strlit("wss");
    assert("ws"@ != "wss"@) by {
        assert("ws"@.len() != "wss"@.len());
    }
}

} // verus!
