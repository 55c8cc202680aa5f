//! Start-up settings: which `.env` file to load, the default debug port, and
//! the checks of the CDP settings that the front end asks for.
use vstd::prelude::*;
use vstd::string::*;

use crate::cdp_session::{
    debug_port_setting, format_http_check_ok, http_check_ok_message, info_result_view,
    loopback_addr, loopback_addr_text, version_url, version_url_text, zero_port_message,
    DevToolsVersionInfo, DevToolsVersionInfoView,
};
use crate::cdp_session::{resolve_spec, EndpointLookupView};
use crate::text::{decimal, is_unset, lemma_port_text_round_trip, opt_view, parse_u16, push_decimal, trim, trim_white_space, unset};

verus! {

broadcast use vstd::string::group_string_axioms;

// ---------------------------------------------------------------------------
// Which `.env` file to load
// ---------------------------------------------------------------------------

/// Which `.env` file to load at start-up.
#[derive(PartialEq, Eq, Structural, Clone, Copy, Debug)]
pub enum DotenvChoice {
    /// The file named by `WSGW_ENV_FILE`, overriding variables already set.
    OverrideFile,
    /// The candidate at this position, not overriding variables already set.
    Candidate(usize),
    /// No file.
    NoFile,
}

/// The path that `WSGW_ENV_FILE` names: the setting, trimmed.
pub fn env_file_override_path(raw: &Option<String>) -> (r: Option<String>)
    ensures
        opt_view(r) == match opt_view(*raw) {
            Some(s) => Some(trim(s)),
            None => None::<Seq<char>>,
        },
{
    match raw {
        Some(s) => Some(trim_white_space(s.as_str())),
        None => None,
    }
}

/// Chooses the `.env` file: the `WSGW_ENV_FILE` path when it is a file, else
/// the first candidate (working directory, executable's directory, source
/// tree) that is a file, else none.
pub fn load_dotenv_files(override_is_file: bool, candidates_are_files: &Vec<bool>) -> (r:
    DotenvChoice)
    ensures
        override_is_file ==> r == DotenvChoice::OverrideFile,
        !override_is_file ==> match r {
            DotenvChoice::OverrideFile => false,
            DotenvChoice::Candidate(i) => i < candidates_are_files@.len()
                && candidates_are_files@[i as int] && forall|j: int|
                0 <= j < i ==> !#[trigger] candidates_are_files@[j],
            DotenvChoice::NoFile => forall|j: int|
                0 <= j < candidates_are_files@.len() ==> !#[trigger] candidates_are_files@[j],
        },
{
    if override_is_file {
        return DotenvChoice::OverrideFile;
    }
    let mut i: usize = 0;
    while i < candidates_are_files.len()
        invariant
            !override_is_file,
            i <= candidates_are_files@.len(),
            forall|j: int| 0 <= j < i ==> !#[trigger] candidates_are_files@[j],
        decreases candidates_are_files@.len() - i,
    {
        if candidates_are_files[i] {
            return DotenvChoice::Candidate(i);
        }
        i = i + 1;
    }
    DotenvChoice::NoFile
}

// ---------------------------------------------------------------------------
// The default debug port
// ---------------------------------------------------------------------------

pub open spec fn default_debug_port() -> Seq<char> {
    "9222"@
}

/// The value to give `WSGW_DEBUG_PORT` at start-up: `"9222"` when neither
/// `WSGW_CDP_WS_URL` nor `WSGW_DEBUG_PORT` is set to anything but blanks,
/// else nothing.
pub fn apply_default_debug_port(env_ws_url: &Option<String>, env_debug_port: &Option<String>) -> (r:
    Option<String>)
    ensures
        r is Some <==> is_unset(opt_view(*env_ws_url)) && is_unset(opt_view(*env_debug_port)),
        r matches Some(v) ==> v@ == default_debug_port(),
{
    if unset(env_ws_url) && unset(env_debug_port) {
        Some("9222".to_owned())
    } else {
        None
    }
}

// ---------------------------------------------------------------------------
// Checking the settings for the Node child
// ---------------------------------------------------------------------------

pub open spec fn no_cdp_setting_message() -> Seq<char> {
    "未配置 CDP：请设置 WSGW_CDP_WS_URL，或设置 WSGW_DEBUG_PORT（1–65535）。"@
}

pub open spec fn child_invalid_port_message(shown: Seq<char>) -> Seq<char> {
    "WSGW_DEBUG_PORT 无效："@ + shown + "（须为 1–65535 的整数）"@
}

/// Whether the settings let the Node child reach CDP: a `WSGW_CDP_WS_URL`
/// that is not blank will do; otherwise `WSGW_DEBUG_PORT` (`"9222"` when
/// unset) must, trimmed, be a port from 1 to 65535.
pub open spec fn child_settings_check(
    env_ws_url: Option<Seq<char>>,
    env_debug_port: Option<Seq<char>>,
) -> Result<(), Seq<char>> {
    if !is_unset(env_ws_url) {
        Ok(())
    } else {
        let p = debug_port_setting(env_debug_port);
        if p.len() == 0 {
            Err(no_cdp_setting_message())
        } else {
            match parse_u16(p) {
                None => Err(child_invalid_port_message(p)),
                Some(n) => if n == 0 {
                    Err(zero_port_message())
                } else {
                    Ok(())
                },
            }
        }
    }
}

pub open spec fn unit_result_view(r: Result<(), String>) -> Result<(), Seq<char>> {
    match r {
        Ok(()) => Ok(()),
        Err(m) => Err(m@),
    }
}

/// The trimmed port setting, `"9222"` when unset.
fn debug_port_text(env_debug_port: &Option<String>) -> (r: String)
    ensures
        r@ == debug_port_setting(opt_view(*env_debug_port)),
{
    match env_debug_port {
        Some(s) => trim_white_space(s.as_str()),
        None => trim_white_space("9222"),
    }
}

/// Checks the settings before the Node child is started.
pub fn validate_cdp_settings_for_child(
    env_ws_url: &Option<String>,
    env_debug_port: &Option<String>,
) -> (r: Result<(), String>)
    ensures
        unit_result_view(r) == child_settings_check(opt_view(*env_ws_url), opt_view(*env_debug_port)),
{
    if !unset(env_ws_url) {
        return Ok(());
    }
    let p = debug_port_text(env_debug_port);
    if p.as_str().unicode_len() == 0 {
        return Err(
            "未配置 CDP：请设置 WSGW_CDP_WS_URL，或设置 WSGW_DEBUG_PORT（1–65535）。".to_owned(),
        );
    }
    match crate::text::parse_u16_text(p.as_str()) {
        None => {
            let mut m = String::new();
            m.append("WSGW_DEBUG_PORT 无效：");
            m.append(p.as_str());
            m.append("（须为 1–65535 的整数）");
            assert(m@ =~= child_invalid_port_message(p@));
            Err(m)
        },
        Some(n) => if n == 0 {
            Err("WSGW_DEBUG_PORT 不能为 0".to_owned())
        } else {
            Ok(())
        },
    }
}

// ---------------------------------------------------------------------------
// The TCP and HTTP/JSON checks
// ---------------------------------------------------------------------------

/// What a check of the debug port does first.
#[derive(Debug, PartialEq, Eq)]
pub enum ProbePlan {
    /// `WSGW_CDP_WS_URL` is set: the check passes at once with this message.
    Skip(String),
    /// The port setting is unusable: the check fails with this message.
    Refuse(String),
    /// Probe this port.
    Probe(u16),
}

pub enum ProbePlanView {
    Skip(Seq<char>),
    Refuse(Seq<char>),
    Probe(u16),
}

impl View for ProbePlan {
    type V = ProbePlanView;

    open spec fn view(&self) -> ProbePlanView {
        match self {
            ProbePlan::Skip(m) => ProbePlanView::Skip(m@),
            ProbePlan::Refuse(m) => ProbePlanView::Refuse(m@),
            ProbePlan::Probe(p) => ProbePlanView::Probe(*p),
        }
    }
}

pub open spec fn probe_invalid_port_message(shown: Seq<char>) -> Seq<char> {
    "WSGW_DEBUG_PORT 无效："@ + shown + "。请在 .env 或系统环境中设置为整数端口。"@
}

pub open spec fn tcp_skip_message() -> Seq<char> {
    "已配置 WSGW_CDP_WS_URL：将直接使用该 WebSocket 连接 CDP，未做本机 TCP 端口探测。"@
}

pub open spec fn http_skip_message() -> Seq<char> {
    "已配置 WSGW_CDP_WS_URL：将直接使用该 WebSocket 连接 CDP，未请求 /json/version。"@
}

/// The plan of a port check: skip (with `skip_message`) when `WSGW_CDP_WS_URL`
/// is not blank; else probe the port setting (`"9222"` when unset), or refuse
/// it when it is not a number from 1 to 65535.
pub open spec fn probe_plan(
    skip_message: Seq<char>,
    env_ws_url: Option<Seq<char>>,
    env_debug_port: Option<Seq<char>>,
) -> ProbePlanView {
    if !is_unset(env_ws_url) {
        ProbePlanView::Skip(skip_message)
    } else {
        let p = debug_port_setting(env_debug_port);
        match parse_u16(p) {
            None => ProbePlanView::Refuse(probe_invalid_port_message(p)),
            Some(n) => if n == 0 {
                ProbePlanView::Refuse(zero_port_message())
            } else {
                ProbePlanView::Probe(n)
            },
        }
    }
}

fn plan_probe(skip: &str, env_ws_url: &Option<String>, env_debug_port: &Option<String>) -> (r:
    ProbePlan)
    ensures
        r@ == probe_plan(skip@, opt_view(*env_ws_url), opt_view(*env_debug_port)),
{
    if !unset(env_ws_url) {
        return ProbePlan::Skip(skip.to_owned());
    }
    let p = debug_port_text(env_debug_port);
    match crate::text::parse_u16_text(p.as_str()) {
        None => {
            let mut m = String::new();
            m.append("WSGW_DEBUG_PORT 无效：");
            m.append(p.as_str());
            m.append("。请在 .env 或系统环境中设置为整数端口。");
            assert(m@ =~= probe_invalid_port_message(p@));
            ProbePlan::Refuse(m)
        },
        Some(n) => if n == 0 {
            ProbePlan::Refuse("WSGW_DEBUG_PORT 不能为 0".to_owned())
        } else {
            ProbePlan::Probe(n)
        },
    }
}

/// First step of the TCP check of the debug port.
pub fn check_debug_port_tcp(env_ws_url: &Option<String>, env_debug_port: &Option<String>) -> (r:
    ProbePlan)
    ensures
        r@ == probe_plan(tcp_skip_message(), opt_view(*env_ws_url), opt_view(*env_debug_port)),
{
    plan_probe(
        "已配置 WSGW_CDP_WS_URL：将直接使用该 WebSocket 连接 CDP，未做本机 TCP 端口探测。",
        env_ws_url,
        env_debug_port,
    )
}

/// First step of the HTTP/JSON check of the debug port.
pub fn check_debug_port_http_json(
    env_ws_url: &Option<String>,
    env_debug_port: &Option<String>,
) -> (r: ProbePlan)
    ensures
        r@ == probe_plan(http_skip_message(), opt_view(*env_ws_url), opt_view(*env_debug_port)),
{
    plan_probe(
        "已配置 WSGW_CDP_WS_URL：将直接使用该 WebSocket 连接 CDP，未请求 /json/version。",
        env_ws_url,
        env_debug_port,
    )
}

/// How a TCP connection to the debug port failed, with the error's text.
#[derive(Debug, Clone, PartialEq, Eq)]
pub enum TcpProbeFailure {
    /// `127.0.0.1:<port>` did not parse as a socket address.
    Address(String),
    /// Nothing answered within the timeout.
    Connect(String),
}

pub open spec fn tcp_report(port: u16, probe: Result<(), TcpProbeFailure>) -> Result<
    Seq<char>,
    Seq<char>,
> {
    match probe {
        Ok(()) => Ok("本机调试端口 "@ + decimal(port as nat) + " 可建立 TCP 连接（Chrome 远程调试可能已开启）。"@),
        Err(TcpProbeFailure::Address(e)) => Err(
            "内部错误：无法解析地址 "@ + loopback_addr(port) + "："@ + e@,
        ),
        Err(TcpProbeFailure::Connect(e)) => Err(
            "本机 "@ + loopback_addr(port) + " 无响应（"@ + e@ + "）。请确认已用带 --remote-debugging-port="@
                + decimal(port as nat)
                + " 的快捷方式启动 Chrome，或检查防火墙/端口是否被占用。"@,
        ),
    }
}

pub open spec fn text_result_view(r: Result<String, String>) -> Result<Seq<char>, Seq<char>> {
    match r {
        Ok(m) => Ok(m@),
        Err(m) => Err(m@),
    }
}

/// The outcome of the TCP check, given how connecting to `port` went.
pub fn tcp_probe_report(port: u16, probe: Result<(), TcpProbeFailure>) -> (r: Result<
    String,
    String,
>)
    ensures
        text_result_view(r) == tcp_report(port, probe),
{
    let mut m = String::new();
    match probe {
        Ok(()) => {
            m.append("本机调试端口 ");
            push_decimal(&mut m, port as u64);
            m.append(" 可建立 TCP 连接（Chrome 远程调试可能已开启）。");
            assert(m@ =~= "本机调试端口 "@ + decimal(port as nat) + " 可建立 TCP 连接（Chrome 远程调试可能已开启）。"@);
            Ok(m)
        },
        Err(TcpProbeFailure::Address(e)) => {
            m.append("内部错误：无法解析地址 ");
            m.append(loopback_addr_text(port).as_str());
            m.append("：");
            m.append(e.as_str());
            assert(m@ =~= "内部错误：无法解析地址 "@ + loopback_addr(port) + "："@ + e@);
            Err(m)
        },
        Err(TcpProbeFailure::Connect(e)) => {
            m.append("本机 ");
            m.append(loopback_addr_text(port).as_str());
            m.append(" 无响应（");
            m.append(e.as_str());
            m.append("）。请确认已用带 --remote-debugging-port=");
            push_decimal(&mut m, port as u64);
            m.append(" 的快捷方式启动 Chrome，或检查防火墙/端口是否被占用。");
            assert(m@ =~= "本机 "@ + loopback_addr(port) + " 无响应（"@ + e@ + "）。请确认已用带 --remote-debugging-port="@
                + decimal(port as nat)
                + " 的快捷方式启动 Chrome，或检查防火墙/端口是否被占用。"@);
            Err(m)
        },
    }
}

pub open spec fn http_json_report_spec(
    port: u16,
    verdict: Result<DevToolsVersionInfoView, Seq<char>>,
) -> Result<Seq<char>, Seq<char>> {
    match verdict {
        Ok(info) => Ok(http_check_ok_message(port, info)),
        Err(e) => Err(version_url(port) + "："@ + e),
    }
}

/// The outcome of the HTTP/JSON check, given the verdict of the
/// `/json/version` tries on `port`.
pub fn http_json_report(port: u16, verdict: Result<DevToolsVersionInfo, String>) -> (r: Result<
    String,
    String,
>)
    ensures
        text_result_view(r) == http_json_report_spec(port, info_result_view(verdict)),
{
    match verdict {
        Ok(info) => Ok(format_http_check_ok(port, &info)),
        Err(e) => {
            let mut m = version_url_text(port);
            m.append("：");
            m.append(e.as_str());
            Err(m)
        },
    }
}


// ---------------------------------------------------------------------------
// Laws of the settings
// ---------------------------------------------------------------------------

proof fn lemma_default_port_text()
    ensures
        trim(default_debug_port()) == default_debug_port(),
        parse_u16(default_debug_port()) == Some(9222u16),
{
    reveal_strlit("9222");
    let s = default_debug_port();
    assert(s.len() == 4);
    assert(crate::text::trim_start(s) == s);
    assert(crate::text::trim_end(s) == s);
    assert(decimal(9222) =~= s) by {
        assert(decimal(9) =~= seq!['9']);
        assert(decimal(92) =~= seq!['9', '2']);
        assert(decimal(922) =~= seq!['9', '2', '2']);
        assert(decimal(9222) =~= seq!['9', '2', '2', '2']);
    }
    lemma_port_text_round_trip(9222);
}

/// With neither `WSGW_CDP_WS_URL` nor `WSGW_DEBUG_PORT` set, the default
/// port 9222 is what everything uses: the port to put in place is `"9222"`,
/// and with it (or with the port still unset) the settings pass the child
/// check, both probes go to port 9222, and an empty cache looks the endpoint
/// up on port 9222.
pub proof fn lemma_default_port_is_9222(
    env_ws_url: Option<Seq<char>>,
    env_debug_port: Option<Seq<char>>,
    skip_message: Seq<char>,
)
    requires
        is_unset(env_ws_url),
        env_debug_port == Some(default_debug_port()) || env_debug_port is None,
    ensures
        child_settings_check(env_ws_url, env_debug_port) == Ok::<(), Seq<char>>(()),
        probe_plan(skip_message, env_ws_url, env_debug_port) == ProbePlanView::Probe(9222),
        resolve_spec(None, false, env_ws_url, env_debug_port).0
            == EndpointLookupView::FetchFromPort(9222),
{
    lemma_default_port_text();
    assert(debug_port_setting(env_debug_port) == default_debug_port());
    assert(crate::cdp_session::ws_url_setting(env_ws_url).len() == 0);
}

/// A `WSGW_CDP_WS_URL` that is not blank takes precedence over the port
/// setting, whatever that holds: the child check passes, and both probes
/// are skipped with their own message.
pub proof fn lemma_ws_url_setting_wins(
    env_ws_url: Option<Seq<char>>,
    env_debug_port: Option<Seq<char>>,
)
    requires
        !is_unset(env_ws_url),
    ensures
        child_settings_check(env_ws_url, env_debug_port) == Ok::<(), Seq<char>>(()),
        probe_plan(tcp_skip_message(), env_ws_url, env_debug_port) == ProbePlanView::Skip(
            tcp_skip_message(),
        ),
        probe_plan(http_skip_message(), env_ws_url, env_debug_port) == ProbePlanView::Skip(
            http_skip_message(),
        ),
{
}

/// The TCP check, the HTTP/JSON check and the endpoint lookup of an empty
/// cache agree on the port: when one of them goes to a port, all go to
/// that port.
pub proof fn lemma_checks_agree_on_port(
    env_ws_url: Option<Seq<char>>,
    env_debug_port: Option<Seq<char>>,
    port: u16,
)
    requires
        probe_plan(tcp_skip_message(), env_ws_url, env_debug_port) == ProbePlanView::Probe(port)
            || probe_plan(http_skip_message(), env_ws_url, env_debug_port) == ProbePlanView::Probe(
            port,
        ) || resolve_spec(None, false, env_ws_url, env_debug_port).0
            == EndpointLookupView::FetchFromPort(port),
    ensures
        probe_plan(tcp_skip_message(), env_ws_url, env_debug_port) == ProbePlanView::Probe(port),
        probe_plan(http_skip_message(), env_ws_url, env_debug_port) == ProbePlanView::Probe(port),
        resolve_spec(None, false, env_ws_url, env_debug_port).0
            == EndpointLookupView::FetchFromPort(port),
{
    assert(is_unset(env_ws_url) <==> crate::cdp_session::ws_url_setting(env_ws_url).len() == 0) by {
        if env_ws_url is None {
            assert(trim(Seq::<char>::empty()) =~= Seq::<char>::empty());
        }
    }
}

/// The settings pass the child check exactly when the port checks would not
/// refuse them: either they are skipped for `WSGW_CDP_WS_URL`, or they
/// probe a port.
pub proof fn lemma_child_check_matches_probe(
    env_ws_url: Option<Seq<char>>,
    env_debug_port: Option<Seq<char>>,
)
    ensures
        child_settings_check(env_ws_url, env_debug_port) is Ok <==> !(probe_plan(
            tcp_skip_message(),
            env_ws_url,
            env_debug_port,
        ) is Refuse),
{
    let p = debug_port_setting(env_debug_port);
    if p.len() == 0 {
        assert(crate::text::unsigned_digits(p) =~= p);
    }
}

} // verus!
