//! The supervisor state machine, the log ring, the writer slot, and the
//! handlers behind the route table.

use clash_verge_service_ipc::logger::service_writer;
use clash_verge_service_ipc::manager::{
    CoreManager, HookAction, LogLevel, StartOutcome, StreamKind,
};
use clash_verge_service_ipc::ring::{LogRing, LOGS_QUEUE_LEN};
use clash_verge_service_ipc::server::{
    handle_get_clash_logs, handle_get_version, handle_magic, handle_start_clash,
    handle_stop_clash, handle_update_writer, finish_start_clash, finish_update_writer,
    not_found_plan, StartDecision, UpdateDecision,
};
use clash_verge_service_ipc::state::IpcState;
use clash_verge_service_ipc::{ClashConfig, CoreConfig, IpcConfig, WriterConfig, IPC_AUTH_EXPECT};

fn secret() -> Vec<u8> {
    IPC_AUTH_EXPECT.as_bytes().to_vec()
}

fn test_config(core_path: &str) -> ClashConfig {
    ClashConfig {
        core_config: CoreConfig {
            core_path: core_path.to_string(),
            config_path: "./config.yaml".to_string(),
            config_dir: "./configs".to_string(),
        },
        log_config: WriterConfig {
            directory: "./logs".to_string(),
            max_log_size: 10485760,
            max_log_files: 8,
        },
    }
}

fn start(m: &mut CoreManager, config: &ClashConfig, pid: u64) -> Option<u64> {
    let killed = m.stop_core();
    let r = m.start_core(config, StartOutcome::Spawned(pid));
    assert!(r.is_ok());
    killed
}

#[test]
fn stop_is_idempotent() {
    let mut m = CoreManager::new();
    let config = test_config("./clash");
    start(&mut m, &config, 41);
    let first = m.stop_core();
    assert_eq!(first, Some(41));
    assert_eq!(m.running_child, None);
    assert_eq!(m.logger.len(), 0);
    let second = m.stop_core();
    assert_eq!(second, None);
    assert_eq!(m.running_child, None);
    assert_eq!(m.logger.len(), 0);
    // stop on a fresh supervisor succeeds the same way
    let mut idle = CoreManager::new();
    assert_eq!(idle.stop_core(), None);
}

#[test]
fn at_most_one_child_over_any_sequence() {
    let mut m = CoreManager::new();
    let config = test_config("./clash");
    let pids = [10u64, 11, 12, 13];
    for (i, pid) in pids.iter().enumerate() {
        start(&mut m, &config, *pid);
        assert_eq!(m.running_child, Some(*pid));
        if i % 2 == 0 {
            m.stop_core();
            assert_eq!(m.running_child, None);
        }
    }
}

#[test]
fn replacement_delivers_the_old_child_and_keeps_only_the_new() {
    let mut m = CoreManager::new();
    let c1 = test_config("./core-one");
    let c2 = test_config("./core-two");
    assert_eq!(start(&mut m, &c1, 100), None);
    assert_eq!(m.running_child, Some(100));
    let killed = start(&mut m, &c2, 200);
    assert_eq!(killed, Some(100));
    assert_eq!(m.running_child, Some(200));
}

#[test]
fn failed_start_leaves_the_supervisor_idle() {
    let mut m = CoreManager::new();
    let config = test_config("./missing");
    start(&mut m, &config, 7);
    m.stop_core();
    let r = m.start_core(&config, StartOutcome::SpawnFailed("no such file".to_string()));
    assert_eq!(r, Err("no such file".to_string()));
    assert_eq!(m.running_child, None);
    let r = m.start_core(&config, StartOutcome::WriterFailed("cannot create".to_string()));
    assert_eq!(r, Err("cannot create".to_string()));
    assert_eq!(m.running_child, None);
}

#[test]
fn ring_is_bounded_and_cleared_on_stop() {
    let mut m = CoreManager::new();
    let config = test_config("./clash");
    start(&mut m, &config, 9);
    for i in 0..500u32 {
        m.ingest_line(StreamKind::Stdout, format!("line {}", i));
        assert!(m.logger.len() <= LOGS_QUEUE_LEN);
    }
    assert_eq!(m.logger.len(), LOGS_QUEUE_LEN);
    let logs = m.logger.get_logs();
    // the oldest entries were evicted; order inside the window is kept
    assert_eq!(logs[0], "line 400");
    assert_eq!(logs[99], "line 499");
    // the log-tail query returns the same bounded window
    let plan = handle_get_clash_logs(&m, Some(&secret()));
    let v: serde_json::Value = serde_json::from_slice(&plan.body).unwrap();
    assert_eq!(v["data"].as_array().unwrap().len(), LOGS_QUEUE_LEN);
    m.stop_core();
    assert_eq!(m.logger.len(), 0);
}

#[test]
fn ring_keeps_source_order() {
    let mut ring = LogRing::new();
    ring.append_log("a".to_string());
    ring.append_log("b".to_string());
    ring.append_log("c".to_string());
    assert_eq!(ring.get_logs(), vec!["a".to_string(), "b".to_string(), "c".to_string()]);
    ring.clear_logs();
    assert_eq!(ring.get_logs(), Vec::<String>::new());
}

#[test]
fn lines_fan_out_with_the_right_level_and_target() {
    let mut m = CoreManager::new();
    let config = test_config("./clash");
    start(&mut m, &config, 5);
    let rec = m.ingest_line(StreamKind::Stdout, "out".to_string());
    assert_eq!(rec.level, LogLevel::Info);
    assert_eq!(rec.target, "service");
    assert_eq!(rec.message, "out");
    let rec = m.ingest_line(StreamKind::Stderr, "err".to_string());
    assert_eq!(rec.level, LogLevel::Error);
    assert_eq!(rec.message, "err");
}

#[test]
fn writer_hot_swap_governs_the_next_line() {
    let mut m = CoreManager::new();
    let config = test_config("./clash");
    start(&mut m, &config, 5);
    let rec = m.ingest_line(StreamKind::Stdout, "before".to_string());
    assert_eq!(rec.writer.unwrap().directory, "./logs");
    let w2 = WriterConfig {
        directory: "./elsewhere".to_string(),
        max_log_size: 1024,
        max_log_files: 2,
    };
    assert!(m.update_writer(&w2, Ok(())).is_ok());
    let rec = m.ingest_line(StreamKind::Stderr, "after".to_string());
    assert_eq!(rec.writer.unwrap().directory, "./elsewhere");
    // a failed build leaves the slot untouched
    assert!(m.update_writer(
        &WriterConfig { directory: "/dev/null/x".to_string(), max_log_size: 1, max_log_files: 1 },
        Err("cannot create".to_string())
    ).is_err());
    let rec = m.ingest_line(StreamKind::Stdout, "still".to_string());
    assert_eq!(rec.writer.unwrap().directory, "./elsewhere");
}

#[test]
fn writer_plan_follows_the_config() {
    let config = WriterConfig {
        directory: "./logs".to_string(),
        max_log_size: 10485760,
        max_log_files: 8,
    };
    let plan = service_writer(&config);
    assert_eq!(plan.directory, "./logs");
    assert_eq!(plan.basename, "service");
    assert_eq!(plan.current_infix, "latest");
    assert_eq!(plan.timestamp_format, "%Y-%m-%d_%H-%M-%S");
    assert_eq!(plan.rotate_size, 10485760);
    assert_eq!(plan.keep_files, 8);
}

#[test]
fn hooks_name_the_child_control_socket() {
    let m = CoreManager::new();
    let after_start = m.after_start();
    assert_eq!(after_start.target, "/tmp/verge/verge-mihomo.sock");
    assert!(matches!(after_start.action, HookAction::SetMode(0o777)));
    assert_eq!(after_start.delay_ms, 200);
    let after_stop = m.after_stop();
    assert_eq!(after_stop.target, "/tmp/verge/verge-mihomo.sock");
    assert!(matches!(after_stop.action, HookAction::RemoveFile));
}

#[test]
fn unauthenticated_requests_change_nothing() {
    let mut m = CoreManager::new();
    let config = test_config("./clash");
    start(&mut m, &config, 77);
    m.ingest_line(StreamKind::Stdout, "kept".to_string());

    let plan = handle_magic(None);
    assert_eq!(plan.status, 401);
    assert!(plan.body.is_empty());
    let plan = handle_get_version(None);
    assert_eq!(plan.status, 401);
    let plan = handle_get_clash_logs(&m, None);
    assert_eq!(plan.status, 401);

    let wrong = b"nope".to_vec();
    let (killed, plan) = handle_stop_clash(&mut m, Some(&wrong));
    assert_eq!(plan.status, 401);
    assert_eq!(killed, None);
    assert_eq!(m.running_child, Some(77));
    assert_eq!(m.logger.len(), 1);

    let d = handle_start_clash(&mut m, None, Ok(test_config("./other")));
    assert!(matches!(d, StartDecision::Reject(p) if p.status == 401));
    assert_eq!(m.running_child, Some(77));

    let d = handle_update_writer(&mut m, None, Ok(config.log_config.clone()));
    assert!(matches!(d, UpdateDecision::Reject(p) if p.status == 401));
    assert_eq!(m.running_child, Some(77));
    assert_eq!(m.logger.len(), 1);
}

#[test]
fn authorized_handlers_answer_as_specified() {
    let mut m = CoreManager::new();
    let auth = secret();

    let plan = handle_magic(Some(&auth));
    assert_eq!(plan.status, 200);
    assert_eq!(plan.body, b"Tunglies!".to_vec());

    let plan = handle_get_version(Some(&auth));
    assert_eq!(plan.status, 200);
    let v: serde_json::Value = serde_json::from_slice(&plan.body).unwrap();
    assert_eq!(v["code"], 0);
    assert_eq!(v["message"], "Success");
    assert_eq!(v["data"], clash_verge_service_ipc::VERSION);

    // start: reject a malformed body with 400
    let d = handle_start_clash(&mut m, Some(&auth), Err("expected value".to_string()));
    match d {
        StartDecision::Reject(p) => {
            assert_eq!(p.status, 400);
            assert_eq!(p.body, b"Invalid JSON: expected value".to_vec());
        },
        StartDecision::Proceed { .. } => panic!("malformed body must be rejected"),
    }

    // start: proceed, then commit a successful spawn
    let config = test_config("./core");
    let d = handle_start_clash(&mut m, Some(&auth), Ok(config.clone()));
    let config = match d {
        StartDecision::Proceed { kill, config } => {
            assert_eq!(kill, None);
            config
        },
        StartDecision::Reject(_) => panic!("authorized start must proceed"),
    };
    let plan = finish_start_clash(&mut m, &config, StartOutcome::Spawned(321));
    assert_eq!(plan.status, 200);
    let v: serde_json::Value = serde_json::from_slice(&plan.body).unwrap();
    assert_eq!(v["code"], 0);
    assert_eq!(v["message"], "Core started successfully");
    assert_eq!(v["data"], serde_json::Value::Null);
    assert_eq!(m.running_child, Some(321));

    // logs: snapshot of the ring
    m.ingest_line(StreamKind::Stdout, "hello".to_string());
    let plan = handle_get_clash_logs(&m, Some(&auth));
    assert_eq!(plan.status, 200);
    let v: serde_json::Value = serde_json::from_slice(&plan.body).unwrap();
    assert_eq!(v["data"][0], "hello");

    // stop: the child is delivered for killing, the ring is cleared
    let (killed, plan) = handle_stop_clash(&mut m, Some(&auth));
    assert_eq!(killed, Some(321));
    assert_eq!(plan.status, 200);
    let v: serde_json::Value = serde_json::from_slice(&plan.body).unwrap();
    assert_eq!(v["code"], 0);
    assert_eq!(v["message"], "Core stopped successfully");
    assert_eq!(m.logger.len(), 0);

    // a failed spawn answers 503 with code 1
    let d = handle_start_clash(&mut m, Some(&auth), Ok(test_config("./missing")));
    let config = match d {
        StartDecision::Proceed { config, .. } => config,
        StartDecision::Reject(_) => panic!("authorized start must proceed"),
    };
    let plan = finish_start_clash(&mut m, &config, StartOutcome::SpawnFailed("boom".to_string()));
    assert_eq!(plan.status, 503);
    let v: serde_json::Value = serde_json::from_slice(&plan.body).unwrap();
    assert_eq!(v["code"], 1);
    assert_eq!(v["message"], "Failed to start core: boom");
    assert_eq!(m.running_child, None);

    // writer update: success and failure
    let w2 = WriterConfig { directory: "./new".to_string(), max_log_size: 1, max_log_files: 1 };
    let d = handle_update_writer(&mut m, Some(&auth), Ok(w2.clone()));
    let w2 = match d {
        UpdateDecision::Proceed { config } => config,
        UpdateDecision::Reject(_) => panic!("authorized update must proceed"),
    };
    let plan = finish_update_writer(&mut m, &w2, Ok(()));
    assert_eq!(plan.status, 200);
    let plan = finish_update_writer(&mut m, &w2, Err("disk full".to_string()));
    assert_eq!(plan.status, 503);
    let v: serde_json::Value = serde_json::from_slice(&plan.body).unwrap();
    assert_eq!(v["message"], "Failed to update writer: disk full");

    let plan = not_found_plan();
    assert_eq!(plan.status, 404);
    assert!(plan.body.is_empty());
}

#[test]
fn shutdown_cleans_the_endpoint_and_a_rebind_succeeds() {
    let mut s = IpcState::new(true);
    // a stale endpoint from an unorderly exit is removed before the bind
    let cleanup = s.begin_run_ipc_server();
    assert!(cleanup);
    assert!(s.finish_run_ipc_server(true).is_ok());
    assert!(s.serving);
    assert!(s.endpoint_exists);
    // orderly shutdown: listener down, endpoint gone
    let cleanup = s.stop_ipc_server();
    assert!(cleanup);
    assert!(!s.serving);
    assert!(!s.endpoint_exists);
    // stopping again succeeds the same way
    assert!(!s.stop_ipc_server());
    // a subsequent bind on the same path succeeds
    assert!(!s.begin_run_ipc_server());
    assert!(s.finish_run_ipc_server(true).is_ok());
    assert!(s.serving);
    // a failed bind reports the bind-failure exit code
    let mut t = IpcState::new(false);
    t.begin_run_ipc_server();
    assert_eq!(t.finish_run_ipc_server(false), Err(1));
    assert!(!t.serving);
}

#[test]
fn client_defaults() {
    let c = IpcConfig::default();
    assert_eq!(c.default_timeout, 50);
    assert_eq!(c.max_retries, 6);
    assert_eq!(c.retry_delay, 125);
}

#[test]
fn config_defaults() {
    let c = CoreConfig::default();
    assert_eq!(c.core_path, "./clash");
    assert_eq!(c.config_path, "./config.yaml");
    assert_eq!(c.config_dir, "./configs");
    let w = WriterConfig::default();
    assert_eq!(w.directory, "./logs");
    assert_eq!(w.max_log_size, 10 * 1024 * 1024);
    assert_eq!(w.max_log_files, 8);
    let c = ClashConfig::default();
    assert_eq!(c.core_config.core_path, "./clash");
    assert_eq!(c.log_config.max_log_files, 8);
}
