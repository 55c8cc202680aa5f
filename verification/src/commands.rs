//! The decisions behind the front end's commands: the configuration summary,
//! which Midscene script to run, and what the Node child's run came to.
use vstd::prelude::*;
use vstd::string::*;

use crate::cdp_session::debug_port_setting;
use crate::text::{
    is_blank, is_unset, opt_view, push_signed_decimal, signed_decimal, trim, trim_white_space,
    unset,
};

verus! {

broadcast use vstd::string::group_string_axioms;

// ---------------------------------------------------------------------------
// Configuration summary
// ---------------------------------------------------------------------------

/// The configuration in effect, as the front end shows it (no secrets: only
/// flags and the port text).
#[derive(Debug, Clone, PartialEq, Eq)]
pub struct RuntimeConfigSummary {
    pub wsgw_debug_port: String,
    pub wsgw_cdp_ws_url_configured: bool,
    pub wsgw_demo_url_configured: bool,
}

/// Summarises the `WSGW_CDP_WS_URL`, `WSGW_DEBUG_PORT` and `WSGW_DEMO_URL`
/// settings (`None` when unset): the trimmed port text (`"9222"` when unset)
/// and whether each address is set to something not blank.
pub fn get_runtime_config_summary(
    env_ws_url: &Option<String>,
    env_debug_port: &Option<String>,
    env_demo_url: &Option<String>,
) -> (r: RuntimeConfigSummary)
    ensures
        r.wsgw_debug_port@ == debug_port_setting(opt_view(*env_debug_port)),
        r.wsgw_cdp_ws_url_configured == !is_unset(opt_view(*env_ws_url)),
        r.wsgw_demo_url_configured == !is_unset(opt_view(*env_demo_url)),
{
    let port = match env_debug_port {
        Some(s) => trim_white_space(s.as_str()),
        None => trim_white_space("9222"),
    };
    RuntimeConfigSummary {
        wsgw_debug_port: port,
        wsgw_cdp_ws_url_configured: !unset(env_ws_url),
        wsgw_demo_url_configured: !unset(env_demo_url),
    }
}

// ---------------------------------------------------------------------------
// The Midscene script
// ---------------------------------------------------------------------------

/// The name of the Node executable.
pub fn find_node_binary(is_windows: bool) -> (r: &'static str)
    ensures
        is_windows ==> r@ == "node.exe"@,
        !is_windows ==> r@ == "node"@,
{
    if is_windows {
        "node.exe"
    } else {
        "node"
    }
}

/// A path to look at for the script: how it is shown, and whether it is a file.
#[derive(Debug, Clone, PartialEq, Eq)]
pub struct ScriptCandidate {
    pub shown: String,
    pub is_file: bool,
}

/// Which script to run.
#[derive(PartialEq, Eq, Structural, Clone, Copy, Debug)]
pub enum ScriptSource {
    /// The path named by `WSGW_MIDSCENE_SCRIPT`.
    Override,
    /// The script in the source tree (debug builds).
    SourceTree,
    /// The script bundled with the application's resources.
    Bundled,
}

pub open spec fn missing_override_message(shown: Seq<char>) -> Seq<char> {
    "WSGW_MIDSCENE_SCRIPT 已设置但文件不存在："@ + shown
}

pub open spec fn unresolvable_resource_message(error: Seq<char>) -> Seq<char> {
    "无法解析内置脚本路径："@ + error
}

pub open spec fn script_not_found_message() -> Seq<char> {
    "未找到 midscene-minimal.mjs。开发环境请先执行 npm run bundle:midscene-worker；发布包请确认 tauri.conf.json 的 bundle.resources 已包含该文件。"@
}

/// Which script to run: the `WSGW_MIDSCENE_SCRIPT` path when that setting is
/// there (an error when it is not a file); else, in a debug build, the
/// source tree's script when it is a file; else the bundled script when its
/// path resolves to a file.
pub open spec fn script_choice(
    override_path: Option<ScriptCandidate>,
    source_tree_is_file: Option<bool>,
    bundled: Result<bool, String>,
) -> Result<ScriptSource, Seq<char>> {
    match override_path {
        Some(c) => if c.is_file {
            Ok(ScriptSource::Override)
        } else {
            Err(missing_override_message(c.shown@))
        },
        None => if source_tree_is_file == Some(true) {
            Ok(ScriptSource::SourceTree)
        } else {
            match bundled {
                Err(e) => Err(unresolvable_resource_message(e@)),
                Ok(true) => Ok(ScriptSource::Bundled),
                Ok(false) => Err(script_not_found_message()),
            }
        },
    }
}

/// Chooses the Midscene script.  `override_path` describes the
/// `WSGW_MIDSCENE_SCRIPT` path (`None` when unset); `source_tree_is_file`
/// is `None` outside debug builds; `bundled` is whether the bundled
/// resource's path is a file, or why it did not resolve.
pub fn resolve_midscene_script_path(
    override_path: Option<ScriptCandidate>,
    source_tree_is_file: Option<bool>,
    bundled: Result<bool, String>,
) -> (r: Result<ScriptSource, String>)
    ensures
        match r {
            Ok(s) => script_choice(override_path, source_tree_is_file, bundled) == Ok::<
                ScriptSource,
                Seq<char>,
            >(s),
            Err(m) => script_choice(override_path, source_tree_is_file, bundled) == Err::<
                ScriptSource,
                Seq<char>,
            >(m@),
        },
{
    match override_path {
        Some(c) => {
            if c.is_file {
                Ok(ScriptSource::Override)
            } else {
                let mut m = String::new();
                m.append("WSGW_MIDSCENE_SCRIPT 已设置但文件不存在：");
                m.append(c.shown.as_str());
                assert(m@ =~= missing_override_message(c.shown@));
                Err(m)
            }
        },
        None => {
            if source_tree_is_file == Some(true) {
                return Ok(ScriptSource::SourceTree);
            }
            match bundled {
                Err(e) => {
                    let mut m = String::new();
                    m.append("无法解析内置脚本路径：");
                    m.append(e.as_str());
                    assert(m@ =~= unresolvable_resource_message(e@));
                    Err(m)
                },
                Ok(true) => Ok(ScriptSource::Bundled),
                Ok(false) => Err(
                    "未找到 midscene-minimal.mjs。开发环境请先执行 npm run bundle:midscene-worker；发布包请确认 tauri.conf.json 的 bundle.resources 已包含该文件。".to_owned(),
                ),
            }
        },
    }
}

/// A setting handed on to the Node child: kept as it is when it is not
/// blank, dropped otherwise.
pub fn child_setting(raw: &Option<String>) -> (r: Option<String>)
    ensures
        opt_view(r) == (if is_unset(opt_view(*raw)) {
            None
        } else {
            opt_view(*raw)
        }),
{
    match raw {
        Some(s) => if crate::text::blank(s.as_str()) {
            None
        } else {
            Some(s.clone())
        },
        None => None,
    }
}

// ---------------------------------------------------------------------------
// The Node child's run
// ---------------------------------------------------------------------------

/// The line of output that carries the result: the last line that, trimmed,
/// starts with `{`; it is kept trimmed.
pub open spec fn result_line_after(last: Option<Seq<char>>, line: Seq<char>) -> Option<Seq<char>> {
    let t = trim(line);
    if t.len() > 0 && t[0] == '{' {
        Some(t)
    } else {
        last
    }
}

/// Takes in one line of the child's standard output.
pub fn note_output_line(last: Option<String>, line: &str) -> (r: Option<String>)
    ensures
        opt_view(r) == result_line_after(opt_view(last), line@),
{
    let t = trim_white_space(line);
    if t.as_str().unicode_len() > 0 && t.as_str().get_char(0) == '{' {
        Some(t)
    } else {
        last
    }
}

/// How the child's run failed before its result could be read, with the
/// error's text where there is one.
#[derive(Debug, Clone, PartialEq, Eq)]
pub enum ChildRunFailure {
    /// The child could not be started.
    Spawn { node: String, error: String },
    /// The child gave no standard output.
    NoStdout,
    /// Reading the child's output failed.
    ReadOutput(String),
    /// Waiting for the child to end failed.
    Wait(String),
    /// The background task that ran the child could not be joined.
    Join(String),
}

pub open spec fn child_failure_message(f: ChildRunFailure) -> Seq<char> {
    match f {
        ChildRunFailure::Spawn { node, error } => "无法启动 Node 子进程（"@ + node@ + "）："@ + error@
            + "。请确认已安装 Node.js 且已加入 PATH。"@,
        ChildRunFailure::NoStdout => "子进程未提供 stdout"@,
        ChildRunFailure::ReadOutput(e) => "读取子进程输出失败："@ + e@,
        ChildRunFailure::Wait(e) => "等待子进程结束失败："@ + e@,
        ChildRunFailure::Join(e) => "后台任务 Join 失败："@ + e@,
    }
}

/// The message for a failed child run.
pub fn child_run_failure(f: ChildRunFailure) -> (r: String)
    ensures
        r@ == child_failure_message(f),
{
    let mut m = String::new();
    match f {
        ChildRunFailure::Spawn { node, error } => {
            m.append("无法启动 Node 子进程（");
            m.append(node.as_str());
            m.append("）：");
            m.append(error.as_str());
            m.append("。请确认已安装 Node.js 且已加入 PATH。");
        },
        ChildRunFailure::NoStdout => {
            m.append("子进程未提供 stdout");
        },
        ChildRunFailure::ReadOutput(e) => {
            m.append("读取子进程输出失败：");
            m.append(e.as_str());
        },
        ChildRunFailure::Wait(e) => {
            m.append("等待子进程结束失败：");
            m.append(e.as_str());
        },
        ChildRunFailure::Join(e) => {
            m.append("后台任务 Join 失败：");
            m.append(e.as_str());
        },
    }
    assert(m@ =~= child_failure_message(f));
    m
}

/// `{:?}` of an exit code: `Some(<n>)` or `None`.
pub open spec fn exit_code_debug(code: Option<i32>) -> Seq<char> {
    match code {
        Some(n) => "Some("@ + signed_decimal(n as int) + ")"@,
        None => "None"@,
    }
}

pub open spec fn exit_failure_message(
    code: Option<i32>,
    stderr: Seq<char>,
    last: Option<Seq<char>>,
) -> Seq<char> {
    "Midscene 子进程退出码 "@ + exit_code_debug(code) + "。stderr："@ + trim(stderr)
        + "。最后一行 JSON："@ + match last {
        Some(l) => l,
        None => Seq::empty(),
    }
}

pub open spec fn no_result_message(stderr: Seq<char>) -> Seq<char> {
    "子进程未输出结果 JSON。stderr："@ + trim(stderr)
}

/// What an ended child run comes to before its result line is read: a
/// failure when the child did not exit successfully or printed no result
/// line, else the result line to read.
pub open spec fn run_end(
    exit_success: bool,
    exit_code: Option<i32>,
    stderr: Seq<char>,
    last: Option<Seq<char>>,
) -> Result<Seq<char>, Seq<char>> {
    if !exit_success {
        Err(exit_failure_message(exit_code, stderr, last))
    } else {
        match last {
            None => Err(no_result_message(stderr)),
            Some(l) => Ok(l),
        }
    }
}

fn push_exit_code(m: &mut String, code: Option<i32>)
    ensures
        final(m)@ == old(m)@ + exit_code_debug(code),
{
    match code {
        Some(n) => {
            m.append("Some(");
            push_signed_decimal(m, n as i64);
            m.append(")");
            assert(final(m)@ =~= old(m)@ + exit_code_debug(code));
        },
        None => {
            m.append("None");
        },
    }
}

/// Judges how the child ended: its exit status and code, its standard
/// error, and the result line seen on its standard output.
pub fn finish_midscene_run(
    exit_success: bool,
    exit_code: Option<i32>,
    stderr: &str,
    last_json_line: Option<String>,
) -> (r: Result<String, String>)
    ensures
        crate::env_bootstrap::text_result_view(r) == run_end(
            exit_success,
            exit_code,
            stderr@,
            opt_view(last_json_line),
        ),
{
    let err = trim_white_space(stderr);
    if !exit_success {
        let mut m = String::new();
        m.append("Midscene 子进程退出码 ");
        push_exit_code(&mut m, exit_code);
        m.append("。stderr：");
        m.append(err.as_str());
        m.append("。最后一行 JSON：");
        match &last_json_line {
            Some(l) => m.append(l.as_str()),
            None => {},
        }
        assert(m@ =~= exit_failure_message(exit_code, stderr@, opt_view(last_json_line)));
        return Err(m);
    }
    match last_json_line {
        None => {
            let mut m = String::new();
            m.append("子进程未输出结果 JSON。stderr：");
            m.append(err.as_str());
            assert(m@ =~= no_result_message(stderr@));
            Err(m)
        },
        Some(l) => Ok(l),
    }
}

/// The result that the Midscene script prints as its last JSON line.
#[derive(Debug, Clone, PartialEq, Eq)]
pub struct MidsceneMinimalOk {
    pub ok: bool,
    pub url: Option<String>,
    pub cdp_source: Option<String>,
    pub error: Option<String>,
}

pub open spec fn unreadable_result_message(error: Seq<char>, line: Seq<char>) -> Seq<char> {
    "解析子进程结果失败（"@ + error + "）："@ + line
}

/// What the run reports, given the result line and what reading it as a
/// `MidsceneMinimalOk` gave: success names the page's URL and the CDP source
/// (`"unknown"` when not given); failure gives the script's error
/// (`"未知错误"` when not given).
pub open spec fn midscene_report_spec(
    line: Seq<char>,
    parsed: Result<MidsceneMinimalOk, String>,
) -> Result<Seq<char>, Seq<char>> {
    match parsed {
        Err(e) => Err(unreadable_result_message(e@, line)),
        Ok(p) => if p.ok {
            let url = match p.url {
                Some(u) => u@,
                None => Seq::empty(),
            };
            let src = match p.cdp_source {
                Some(s) => s@,
                None => "unknown"@,
            };
            Ok("Midscene 探活成功：当前页 URL = "@ + url + "（CDP 来源："@ + src + "）"@)
        } else {
            Err(
                match p.error {
                    Some(e) => e@,
                    None => "未知错误"@,
                },
            )
        },
    }
}

/// Reports the run from its result line; `parsed` is that line read as JSON
/// into a `MidsceneMinimalOk`, or the text of the reading error.
pub fn midscene_report(line: &str, parsed: Result<MidsceneMinimalOk, String>) -> (r: Result<
    String,
    String,
>)
    ensures
        crate::env_bootstrap::text_result_view(r) == midscene_report_spec(line@, parsed),
{
    match parsed {
        Err(e) => {
            let mut m = String::new();
            m.append("解析子进程结果失败（");
            m.append(e.as_str());
            m.append("）：");
            m.append(line);
            assert(m@ =~= unreadable_result_message(e@, line@));
            Err(m)
        },
        Ok(p) => {
            if p.ok {
                let mut m = String::new();
                m.append("Midscene 探活成功：当前页 URL = ");
                match &p.url {
                    Some(u) => m.append(u.as_str()),
                    None => {},
                }
                m.append("（CDP 来源：");
                match &p.cdp_source {
                    Some(s) => m.append(s.as_str()),
                    None => m.append("unknown"),
                }
                m.append("）");
                assert(m@ =~= midscene_report_spec(line@, Ok(p))->Ok_0);
                Ok(m)
            } else {
                match p.error {
                    Some(e) => Err(e),
                    None => Err("未知错误".to_owned()),
                }
            }
        },
    }
}

/// A run is judged by its exit status and its result line, not by what it
/// wrote to standard error: a child that exited successfully and printed a
/// result line hands that line on, whatever its standard error holds; a
/// child that did not exit successfully, or printed no result line, fails.
pub proof fn lemma_successful_run_hands_on_result_line(
    exit_code: Option<i32>,
    stderr: Seq<char>,
    line: Seq<char>,
    last: Option<Seq<char>>,
)
    ensures
        run_end(true, exit_code, stderr, Some(line)) == Ok::<Seq<char>, Seq<char>>(line),
        run_end(false, exit_code, stderr, last) is Err,
        run_end(true, exit_code, stderr, None) is Err,
{
}

} // verus!
