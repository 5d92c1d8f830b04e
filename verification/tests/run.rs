use profugo::logger::flush_if_non_empty;
use profugo::orchestrator::{run, CredentialEvents, Orchestrator};
use profugo::time::Timestamp;
use profugo::types::{ProfugoConfig, ProfugoContainersConfig};

fn ts() -> Timestamp {
    Timestamp::new(2024, 1, 2, 3, 4, 5)
}

fn cred(engine: &str, container: &str, db: &str, user: &str, password: &str) -> ProfugoContainersConfig {
    ProfugoContainersConfig {
        container_name: container.to_string(),
        engine: engine.to_string(),
        db_name: db.to_string(),
        user: user.to_string(),
        password: password.to_string(),
    }
}

fn config(creds: Vec<ProfugoContainersConfig>) -> ProfugoConfig {
    ProfugoConfig {
        credentials: creds,
        output_dir: "out".to_string(),
        log_dir: "log".to_string(),
    }
}

fn ok_events(stdout: &[u8]) -> CredentialEvents {
    CredentialEvents { dump: Ok(stdout.to_vec()), write: Ok(()), ts: ts() }
}

#[test]
fn one_postgres_credential_success() {
    let cfg = config(vec![cred("postgres", "pg1", "app", "u", "pw")]);
    let events = vec![ok_events(b"-- dump")];
    let report = run(&cfg, &events);

    assert_eq!(report.commands.len(), 1);
    assert_eq!(report.commands[0].program, "docker");
    assert_eq!(
        report.commands[0].args,
        vec!["exec", "pg1", "pg_dump", "-U", "u", "app"]
    );
    assert_eq!(report.writes.len(), 1);
    assert_eq!(
        report.writes[0].path,
        "out/dump__postgres__2024-01-02 03h 04m 05s__pg1__app.sql"
    );
    assert_eq!(report.writes[0].content, "-- dump");
    assert!(report.logs.is_empty());
    assert!(flush_if_non_empty(&report.logs, &ts()).is_none());
}

#[test]
fn unknown_engine_is_skipped_and_logged() {
    let cfg = config(vec![cred("oracle", "ora1", "legacy", "u", "pw")]);
    let events = vec![ok_events(b"never used")];
    let report = run(&cfg, &events);

    assert!(report.commands.is_empty());
    assert!(report.writes.is_empty());
    assert_eq!(report.logs.len(), 1);
    assert!(report.logs[0].contains("Unknown database engine: oracle"));

    let flushed = flush_if_non_empty(&report.logs, &ts()).expect("one log file");
    assert_eq!(flushed.0, "logs-2024-01-02 03h 04m 05s.txt");
    assert!(flushed.1.contains("Unknown database engine: oracle"));
}

#[test]
fn first_failure_does_not_stop_second() {
    let cfg = config(vec![
        cred("postgres", "pg1", "app", "u", "pw"),
        cred("mysql", "db1", "shop", "root", "secret"),
    ]);
    let events = vec![
        CredentialEvents { dump: Err("spawn failed".to_string()), write: Ok(()), ts: ts() },
        ok_events(b"-- mysql dump"),
    ];
    let report = run(&cfg, &events);

    assert_eq!(report.commands.len(), 2);
    assert_eq!(report.writes.len(), 1);
    assert_eq!(
        report.writes[0].path,
        "out/dump__mysql__2024-01-02 03h 04m 05s__db1__shop.sql"
    );
    assert_eq!(report.logs.len(), 1);
    assert!(report.logs[0].contains("spawn failed"));

    let flushed = flush_if_non_empty(&report.logs, &ts()).expect("one log file");
    assert_eq!(flushed.1, report.logs[0]);
}

#[test]
fn attempts_one_dump_per_resolvable_credential() {
    let cfg = config(vec![
        cred("postgres", "a", "d1", "u", "p"),
        cred("mysql", "b", "d2", "u", "p"),
        cred("postgres", "c", "d3", "u", "p"),
    ]);
    let events = vec![ok_events(b"1"), ok_events(b"2"), ok_events(b"3")];
    let report = run(&cfg, &events);
    assert_eq!(report.commands.len(), 3);
}

#[test]
fn commands_do_not_depend_on_outcomes() {
    let cfg = config(vec![
        cred("postgres", "a", "d1", "u", "p"),
        cred("mysql", "b", "d2", "u", "p"),
    ]);
    let all_ok = vec![ok_events(b"1"), ok_events(b"2")];
    let first_fails = vec![
        CredentialEvents { dump: Err("boom".to_string()), write: Ok(()), ts: ts() },
        ok_events(b"2"),
    ];
    let report_ok = run(&cfg, &all_ok);
    let report_fail = run(&cfg, &first_fails);

    assert_eq!(report_ok.commands.len(), report_fail.commands.len());
    for (a, b) in report_ok.commands.iter().zip(report_fail.commands.iter()) {
        assert_eq!(a.program, b.program);
        assert_eq!(a.args, b.args);
    }
}

#[test]
fn write_failure_is_logged_and_isolated() {
    let cfg = config(vec![
        cred("postgres", "a", "d1", "u", "p"),
        cred("postgres", "b", "d2", "u", "p"),
    ]);
    let events = vec![
        CredentialEvents {
            dump: Ok(b"content".to_vec()),
            write: Err("disk full".to_string()),
            ts: ts(),
        },
        ok_events(b"fine"),
    ];
    let report = run(&cfg, &events);

    assert_eq!(report.commands.len(), 2);
    assert_eq!(report.writes.len(), 2);
    assert_eq!(report.logs.len(), 1);
    assert!(report.logs[0].contains("disk full"));
    assert!(report.logs[0].contains("Error writing output to"));
}

#[test]
fn invalid_bytes_are_replaced_not_fatal() {
    let cfg = config(vec![cred("postgres", "pg1", "app", "u", "pw")]);
    let events = vec![CredentialEvents {
        dump: Ok(vec![0xff, b'o', b'k']),
        write: Ok(()),
        ts: ts(),
    }];
    let report = run(&cfg, &events);

    assert_eq!(report.writes.len(), 1);
    assert_eq!(report.writes[0].content, "\u{fffd}ok");
    assert!(report.logs.is_empty());
}

#[test]
fn log_entries_flush_in_append_order() {
    let cfg = config(vec![
        cred("oracle", "o1", "d1", "u", "p"),
        cred("sqlite", "o2", "d2", "u", "p"),
    ]);
    let events = vec![ok_events(b""), ok_events(b"")];
    let report = run(&cfg, &events);

    assert_eq!(report.logs.len(), 2);
    assert!(report.logs[0].contains("oracle"));
    assert!(report.logs[1].contains("sqlite"));

    let flushed = flush_if_non_empty(&report.logs, &ts()).expect("one log file");
    let expected = format!("{}{}", report.logs[0], report.logs[1]);
    assert_eq!(flushed.1, expected);
}

#[test]
fn orchestrator_steps_match_run() {
    let credential = cred("mysql", "db1", "shop", "root", "secret");
    let mut orch = Orchestrator::new(1);
    assert_eq!(orch.processed, 0);

    let cmd = orch.begin_credential(&credential, ts()).expect("resolvable engine");
    assert_eq!(orch.processed, 1);
    assert_eq!(cmd.args[5], "-psecret");

    let dumped: Result<Vec<u8>, String> = Ok(b"payload".to_vec());
    let (name, content) = orch.after_dump(&credential, ts(), &dumped).expect("output captured");
    assert_eq!(name, "dump__mysql__2024-01-02 03h 04m 05s__db1__shop.sql");
    assert_eq!(content, "payload");
    assert!(orch.logs.is_empty());

    let write_ok: Result<(), String> = Ok(());
    orch.after_write(&credential, ts(), "out/x.sql", &write_ok);
    assert!(orch.logs.is_empty());
    assert!(orch.finalize(&ts()).is_none());

    let write_err: Result<(), String> = Err("denied".to_string());
    orch.after_write(&credential, ts(), "out/x.sql", &write_err);
    assert_eq!(orch.logs.len(), 1);
    let flushed = orch.finalize(&ts()).expect("one log file");
    assert_eq!(flushed.0, "logs-2024-01-02 03h 04m 05s.txt");
    assert!(flushed.1.contains("denied"));
}

#[test]
fn dump_failure_appends_entry_and_skips_write() {
    let credential = cred("postgres", "pg1", "app", "u", "pw");
    let mut orch = Orchestrator::new(1);
    orch.begin_credential(&credential, ts()).expect("resolvable engine");

    let dumped: Result<Vec<u8>, String> = Err("no such container".to_string());
    assert!(orch.after_dump(&credential, ts(), &dumped).is_none());
    assert_eq!(orch.logs.len(), 1);
    assert!(orch.logs[0].contains("pg1"));
    assert!(orch.logs[0].contains("app"));
    assert!(orch.logs[0].contains("no such container"));
}

#[test]
fn unknown_engine_increments_nothing() {
    let credential = cred("oracle", "o1", "d", "u", "p");
    let mut orch = Orchestrator::new(1);
    assert!(orch.begin_credential(&credential, ts()).is_none());
    assert_eq!(orch.processed, 0);
    assert_eq!(orch.logs.len(), 1);
}
