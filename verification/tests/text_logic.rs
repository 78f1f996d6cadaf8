use llama_rgui::error::AppError;
use llama_rgui::logs::{log_entry, parse_level, push_log, LogEntry, MAX_LOGS};
use llama_rgui::meta::ModelInfo;
use llama_rgui::models::{
    dedup_model_files, is_irrelevant_dir, is_mmproj_file, is_model_file, is_pruned, select_mmproj, sort_models,
};
use llama_rgui::status::{
    after_check, filter_label, model_display_name, ready_status, server_status_of, ServerRuntime, ServerState,
    ServerStatus, StartCheck,
};
use llama_rgui::version::{
    extract_number, parse_server_version, tags_release, version_check_result, version_from_text,
};

#[test]
fn version_line_forms() {
    assert_eq!(version_from_text("version: 4400 (abcd1234)\nbuilt with cc"), "4400");
    assert_eq!(version_from_text("ggml_cuda_init: found 1 device\n  version:   b5123 extra\r\n"), "b5123");
    assert_eq!(version_from_text("llama version : 77 x"), "77");
    assert_eq!(version_from_text("version:\nmore"), "version:\nmore");
    assert_eq!(version_from_text("   \n \t"), "unknown");
    assert_eq!(version_from_text(""), "unknown");
}

#[test]
fn version_fallback_takes_200_chars() {
    let long = "x".repeat(300);
    assert_eq!(version_from_text(&long), "x".repeat(200));
}

#[test]
fn version_from_both_streams() {
    assert_eq!(parse_server_version(b"", b"version: 5000 (deadbeef)\n"), "5000");
    assert_eq!(parse_server_version(b"hello", b""), "hello");
    assert_eq!(parse_server_version(&[0xff, b'a'], b""), "\u{fffd}a");
}

#[test]
fn extract_number_cases() {
    assert_eq!(extract_number("b4500"), Some(4500));
    assert_eq!(extract_number("4400 (abc)"), Some(4400));
    assert_eq!(extract_number("v1.2"), Some(1));
    assert_eq!(extract_number("abc"), None);
    assert_eq!(extract_number(""), None);
    assert_eq!(extract_number("b4294967295"), Some(4294967295));
    assert_eq!(extract_number("b4294967296"), None);
    assert_eq!(extract_number("b0007"), Some(7));
}

#[test]
fn version_check_has_update() {
    let r = version_check_result(
        Some("4400".into()),
        Ok(("b4500".into(), "https://x/r".into(), Some("2025-01-01".into()))),
    );
    assert_eq!(r.current_number, Some(4400));
    assert_eq!(r.latest_number, Some(4500));
    assert!(r.has_update);
    assert_eq!(r.release_url, "https://x/r");
    assert!(r.error.is_none());
    let same = version_check_result(Some("b4500".into()), Ok(("b4500".into(), String::new(), None)));
    assert!(!same.has_update);
    let none = version_check_result(None, Ok(("b4500".into(), String::new(), None)));
    assert!(!none.has_update);
}

#[test]
fn version_check_error() {
    let r = version_check_result(Some("x1".into()), Err("timeout".into()));
    assert_eq!(r.current_number, Some(1));
    assert_eq!(r.latest_tag, "");
    assert!(!r.has_update);
    assert_eq!(r.error.as_deref(), Some("timeout"));
}

#[test]
fn tags_release_cases() {
    match tags_release("b1234".into()) {
        Ok((t, u, p)) => {
            assert_eq!(t, "b1234");
            assert_eq!(u, "https://github.com/ggml-org/llama.cpp/releases/tag/b1234");
            assert!(p.is_none());
        }
        Err(_) => panic!("expected a release"),
    }
    assert_eq!(tags_release(String::new()).err().as_deref(), Some("未找到任何版本标签"));
}

#[test]
fn log_levels() {
    assert_eq!(parse_level("E0930 12:00:00 boom"), "error");
    assert_eq!(parse_level("  [E] bad"), "error");
    assert_eq!(parse_level("WARN low memory"), "warn");
    assert_eq!(parse_level("[D] detail"), "debug");
    assert_eq!(parse_level("DEBUG x"), "debug");
    assert_eq!(parse_level("main: loading"), "info");
    assert_eq!(parse_level(""), "info");
    assert_eq!(log_entry(5, "W tokens".into()).level, "warn");
}

#[test]
fn log_buffer_drops_oldest() {
    let mut logs: Vec<LogEntry> = Vec::new();
    for i in 0..(MAX_LOGS as i64 + 3) {
        push_log(&mut logs, LogEntry { ts: i, level: "info".into(), line: i.to_string() });
    }
    assert_eq!(logs.len(), MAX_LOGS);
    assert_eq!(logs[0].ts, 3);
    assert_eq!(logs[MAX_LOGS - 1].ts, MAX_LOGS as i64 + 2);
}

#[test]
fn mmproj_and_irrelevant_names() {
    assert!(is_mmproj_file("Qwen2-VL-MMPROJ-f16.gguf"));
    assert!(!is_mmproj_file("llama-3-8b.gguf"));
    assert!(is_irrelevant_dir(Some("node_modules")));
    assert!(is_irrelevant_dir(Some("System Volume Information")));
    assert!(!is_irrelevant_dir(Some("models")));
    assert!(!is_irrelevant_dir(Some(".GIT")));
    assert!(!is_irrelevant_dir(None));
}

#[test]
fn model_file_filter() {
    assert!(is_model_file(true, Some("gguf"), "a.gguf"));
    assert!(is_model_file(true, Some("GGUF"), "A.GGUF"));
    assert!(!is_model_file(false, Some("gguf"), "dir.gguf"));
    assert!(!is_model_file(true, Some("ggml"), "a.ggml"));
    assert!(!is_model_file(true, None, "gguf"));
    assert!(!is_model_file(true, Some("gguf"), "mmproj-model.gguf"));
}

#[test]
fn dedup_keeps_longest_folder() {
    let files = vec![
        ("/AI/models/a.gguf".to_string(), "/AI".to_string()),
        ("/AI/models/b.gguf".to_string(), "/AI".to_string()),
        ("/ai/MODELS/a.gguf".to_string(), "/AI/models".to_string()),
        ("/AI/models/b.gguf".to_string(), "/AI/m".to_string()),
    ];
    let out = dedup_model_files(files);
    assert_eq!(
        out,
        vec![
            ("/AI/models/a.gguf".to_string(), "/AI/models".to_string()),
            ("/AI/models/b.gguf".to_string(), "/AI/m".to_string()),
        ]
    );
}

fn info(name: &str, path: &str) -> ModelInfo {
    ModelInfo {
        path: path.into(),
        file_name: name.into(),
        folder: "/m".into(),
        file_size_bytes: 0,
        meta: None,
        parse_error: None,
    }
}

#[test]
fn sort_is_case_insensitive_and_stable() {
    let models = vec![info("b.gguf", "1"), info("A.gguf", "2"), info("a.gguf", "3"), info("C.gguf", "4")];
    let out = sort_models(models);
    let paths: Vec<&str> = out.iter().map(|m| m.path.as_str()).collect();
    assert_eq!(paths, vec!["2", "3", "1", "4"]);
}

#[test]
fn mmproj_selection() {
    let one = vec![
        ("model.gguf".to_string(), "/d/model.gguf".to_string()),
        ("mmproj-F16.GGUF".to_string(), "/d/mmproj-F16.GGUF".to_string()),
        ("mmproj.txt".to_string(), "/d/mmproj.txt".to_string()),
    ];
    assert_eq!(select_mmproj(&one).as_deref(), Some("/d/mmproj-F16.GGUF"));
    let two = vec![
        ("mmproj-a.gguf".to_string(), "/d/a".to_string()),
        ("b-mmproj.gguf".to_string(), "/d/b".to_string()),
    ];
    assert_eq!(select_mmproj(&two), None);
    assert_eq!(select_mmproj(&Vec::new()), None);
}

#[test]
fn error_messages() {
    assert_eq!(AppError::PortInUse { port: 8080 }.message(), "端口 8080 已被占用");
    assert_eq!(AppError::NotRunning.message(), "服务未运行");
    assert_eq!(AppError::AlreadyRunning.message(), "服务已在运行");
    assert_eq!(AppError::Config("x".into()).message(), "配置错误: x");
    assert_eq!(AppError::Io("failed".into()).message(), "IO 错误: failed");
    assert_eq!(AppError::Other("plain".into()).message(), "plain");
}

#[test]
fn start_checks_in_order() {
    assert!(matches!(after_check(StartCheck::ServerPath, true, "s", "m", 1), Ok(StartCheck::ModelPath)));
    assert!(matches!(after_check(StartCheck::PortFree, true, "s", "m", 1), Ok(StartCheck::Launch)));
    match after_check(StartCheck::ServerPath, false, "/bin/srv", "m", 1) {
        Err(AppError::Config(m)) => assert_eq!(m, "llama-server 路径不存在: /bin/srv"),
        _ => panic!("expected a config error"),
    }
    match after_check(StartCheck::ModelPath, false, "s", "/m.gguf", 1) {
        Err(AppError::Config(m)) => assert_eq!(m, "模型文件不存在: /m.gguf"),
        _ => panic!("expected a config error"),
    }
    assert!(matches!(after_check(StartCheck::NotRunning, false, "s", "m", 1), Err(AppError::AlreadyRunning)));
    assert!(matches!(after_check(StartCheck::PortFree, false, "s", "m", 9), Err(AppError::PortInUse { port: 9 })));
}

#[test]
fn statuses() {
    let stopped = server_status_of(&None);
    assert!(stopped.state == ServerState::Stopped && stopped.pid.is_none());
    let rt = ServerRuntime { pid: 42, port: 8080, host: "h".into(), model: "m".into(), started_at: 7 };
    let running = server_status_of(&Some(rt));
    assert!(running.state == ServerState::Running);
    assert_eq!(running.pid, Some(42));
    assert_eq!(running.model.as_deref(), Some("m"));
    let ready = ready_status(1, 2, "h".into(), "n".into(), 3);
    assert_eq!(ready.message.as_deref(), Some("服务已就绪"));
    let notice = ServerStatus::notice(ServerState::Crashed, Some("进程已退出".into()));
    assert!(notice.state == ServerState::Crashed && notice.port.is_none());
}

#[test]
fn names_and_labels() {
    assert_eq!(model_display_name(Some("chat".into()), Some("file".into())), "chat");
    assert_eq!(model_display_name(None, Some("file".into())), "file");
    assert_eq!(model_display_name(None, None), "model");
    assert_eq!(filter_label(&vec!["gguf".into(), "bin".into()]).as_deref(), Some("gguf, bin"));
    assert_eq!(filter_label(&Vec::new()), None);
}

#[test]
fn scanned_folder_itself_is_never_pruned() {
    assert!(!is_pruned(0, Some("build")));
    assert!(!is_pruned(0, Some("Library")));
    assert!(is_pruned(1, Some("build")));
    assert!(is_pruned(3, Some(".git")));
    assert!(!is_pruned(2, Some("models")));
    assert!(!is_pruned(1, None));
}

#[test]
fn log_buffer_over_a_run_keeps_latest_in_order() {
    let mut logs: Vec<LogEntry> = Vec::new();
    for i in 0..5i64 {
        push_log(&mut logs, log_entry(i, format!("I line {}", i)));
    }
    for i in 5..(MAX_LOGS as i64 + 20) {
        push_log(&mut logs, log_entry(i, format!("E line {}", i)));
    }
    assert_eq!(logs.len(), MAX_LOGS);
    for (k, e) in logs.iter().enumerate() {
        assert_eq!(e.ts, 20 + k as i64);
        assert_eq!(e.level, "error");
    }
}
