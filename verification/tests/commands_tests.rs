use wsgw_cdp::commands::{
    child_run_failure, child_setting, find_node_binary, finish_midscene_run,
    get_runtime_config_summary, midscene_report, note_output_line, resolve_midscene_script_path,
    ChildRunFailure, MidsceneMinimalOk, RuntimeConfigSummary, ScriptCandidate, ScriptSource,
};

fn s(v: &str) -> Option<String> {
    Some(v.to_string())
}

#[test]
fn config_summary() {
    assert_eq!(
        get_runtime_config_summary(&s("ws://a"), &None, &s("  ")),
        RuntimeConfigSummary {
            wsgw_debug_port: "9222".into(),
            wsgw_cdp_ws_url_configured: true,
            wsgw_demo_url_configured: false,
        }
    );
    assert_eq!(
        get_runtime_config_summary(&None, &s(" 9333\n"), &s("https://example.com")),
        RuntimeConfigSummary {
            wsgw_debug_port: "9333".into(),
            wsgw_cdp_ws_url_configured: false,
            wsgw_demo_url_configured: true,
        }
    );
}

#[test]
fn node_binary_name() {
    assert_eq!(find_node_binary(true), "node.exe");
    assert_eq!(find_node_binary(false), "node");
}

fn candidate(shown: &str, is_file: bool) -> Option<ScriptCandidate> {
    Some(ScriptCandidate { shown: shown.into(), is_file })
}

#[test]
fn script_choice_order() {
    assert_eq!(resolve_midscene_script_path(candidate("/x.mjs", true), Some(true), Ok(true)), Ok(ScriptSource::Override));
    assert_eq!(
        resolve_midscene_script_path(candidate("/x.mjs", false), Some(true), Ok(true)),
        Err("WSGW_MIDSCENE_SCRIPT 已设置但文件不存在：/x.mjs".into())
    );
    assert_eq!(resolve_midscene_script_path(None, Some(true), Ok(false)), Ok(ScriptSource::SourceTree));
    assert_eq!(resolve_midscene_script_path(None, Some(false), Ok(true)), Ok(ScriptSource::Bundled));
    assert_eq!(resolve_midscene_script_path(None, None, Ok(true)), Ok(ScriptSource::Bundled));
    assert_eq!(
        resolve_midscene_script_path(None, None, Err("no resource dir".into())),
        Err("无法解析内置脚本路径：no resource dir".into())
    );
    assert_eq!(
        resolve_midscene_script_path(None, Some(false), Ok(false)),
        Err("未找到 midscene-minimal.mjs。开发环境请先执行 npm run bundle:midscene-worker；发布包请确认 tauri.conf.json 的 bundle.resources 已包含该文件。".into())
    );
}

#[test]
fn child_settings_keep_non_blank_values_as_they_are() {
    assert_eq!(child_setting(&s(" 9222 ")), s(" 9222 "));
    assert_eq!(child_setting(&s(" ")), None);
    assert_eq!(child_setting(&None), None);
}

#[test]
fn result_line_is_the_last_json_line() {
    let mut last = None;
    for line in ["starting", "  {\"ok\":false}  ", "noise", "{\"ok\":true}", "[1]", ""] {
        last = note_output_line(last, line);
    }
    assert_eq!(last, s("{\"ok\":true}"));
    assert_eq!(note_output_line(None, " x {"), None);
}

#[test]
fn child_failures() {
    assert_eq!(
        child_run_failure(ChildRunFailure::Spawn { node: "node".into(), error: "not found".into() }),
        "无法启动 Node 子进程（node）：not found。请确认已安装 Node.js 且已加入 PATH。"
    );
    assert_eq!(child_run_failure(ChildRunFailure::NoStdout), "子进程未提供 stdout");
    assert_eq!(child_run_failure(ChildRunFailure::ReadOutput("e".into())), "读取子进程输出失败：e");
    assert_eq!(child_run_failure(ChildRunFailure::Wait("e".into())), "等待子进程结束失败：e");
    assert_eq!(child_run_failure(ChildRunFailure::Join("e".into())), "后台任务 Join 失败：e");
}

#[test]
fn run_end_judgement() {
    assert_eq!(
        finish_midscene_run(false, Some(1), " boom\n", s("{\"ok\":false}")),
        Err("Midscene 子进程退出码 Some(1)。stderr：boom。最后一行 JSON：{\"ok\":false}".into())
    );
    assert_eq!(
        finish_midscene_run(false, Some(-2), "", None),
        Err("Midscene 子进程退出码 Some(-2)。stderr：。最后一行 JSON：".into())
    );
    assert_eq!(
        finish_midscene_run(false, None, "x", None),
        Err(format!("Midscene 子进程退出码 {:?}。stderr：x。最后一行 JSON：", None::<i32>))
    );
    assert_eq!(
        finish_midscene_run(false, Some(i32::MIN), "", None),
        Err(format!("Midscene 子进程退出码 {:?}。stderr：。最后一行 JSON：", Some(i32::MIN)))
    );
    assert_eq!(
        finish_midscene_run(true, Some(0), " warn ", None),
        Err("子进程未输出结果 JSON。stderr：warn".into())
    );
    assert_eq!(finish_midscene_run(true, Some(0), "", s("{}")), Ok("{}".into()));
}

#[test]
fn reports_of_the_result_line() {
    let ok = MidsceneMinimalOk { ok: true, url: s("https://a/"), cdp_source: s("env"), error: None };
    assert_eq!(
        midscene_report("{}", Ok(ok)),
        Ok("Midscene 探活成功：当前页 URL = https://a/（CDP 来源：env）".into())
    );
    let ok = MidsceneMinimalOk { ok: true, url: None, cdp_source: None, error: None };
    assert_eq!(
        midscene_report("{}", Ok(ok)),
        Ok("Midscene 探活成功：当前页 URL = （CDP 来源：unknown）".into())
    );
    let bad = MidsceneMinimalOk { ok: false, url: None, cdp_source: None, error: s("timeout") };
    assert_eq!(midscene_report("{}", Ok(bad)), Err("timeout".into()));
    let bad = MidsceneMinimalOk { ok: false, url: None, cdp_source: None, error: None };
    assert_eq!(midscene_report("{}", Ok(bad)), Err("未知错误".into()));
    assert_eq!(
        midscene_report("{oops", Err("key must be a string".into())),
        Err("解析子进程结果失败（key must be a string）：{oops".into())
    );
}
