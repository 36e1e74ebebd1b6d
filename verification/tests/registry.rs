use rs_terminal::config::{
    Config, HttpConfig, ShellConfig, TerminalConfig, TerminalSize, WebSocketConfig,
    WebTransportConfig,
};
use rs_terminal::error::SessionError;
use rs_terminal::pty::WindowSize;
use rs_terminal::registry::{SessionManager, EXPIRY_CHECK_PERIOD_MS};
use rs_terminal::session::{Attachment, SessionProfile, SessionStatus};
use std::collections::HashSet;
use std::sync::Arc;

fn config(timeout: u64) -> Config {
    Config {
        terminal: TerminalConfig {
            default_shell_type: "bash".to_string(),
            default_terminal_size: TerminalSize { columns: 80, rows: 24 },
            default_working_directory: ".".to_string(),
            session_timeout: timeout,
            shells: vec![(
                "bash".to_string(),
                ShellConfig {
                    command: vec!["bash".to_string(), "-l".to_string()],
                    working_directory: Some("${USERPROFILE}".to_string()),
                    environment: vec![("TERM".to_string(), "xterm".to_string())],
                    terminal_size: None,
                },
            )],
        },
        http: HttpConfig { port: 1, use_https: false, cert_path: None, key_path: None },
        websocket: WebSocketConfig { port: 2 },
        webtransport: WebTransportConfig { port: 3 },
    }
}

fn manager(timeout: u64) -> SessionManager {
    SessionManager::new(Arc::new(config(timeout)))
}

fn profile(user: &str) -> SessionProfile {
    SessionProfile {
        user_id: user.to_string(),
        title: Some("work".to_string()),
        working_directory: "/home/u".to_string(),
        shell_type: "zsh".to_string(),
        terminal_size: TerminalSize { columns: 120, rows: 40 },
    }
}

fn with_sessions(timeout: u64, ids: &[(&str, u64)]) -> SessionManager {
    let mut m = manager(timeout);
    for (id, now) in ids {
        assert_eq!(
            m.create_session_with_id(id.to_string(), true, *now, profile("u")),
            Ok(id.to_string())
        );
    }
    m
}

#[test]
fn a_new_registry_is_empty() {
    let m = manager(2_000);
    assert_eq!(m.session_count(), 0);
    assert_eq!(m.issued_count(), 0);
    assert!(m.get_all_session_ids().is_empty());
    assert!(m.get_all_sessions_with_status().is_empty());
    assert!(!m.session_exists("a"));
    assert_eq!(m.config().terminal.session_timeout, 2_000);
}

#[test]
fn a_created_session_has_a_uuid_and_is_active() {
    let mut m = manager(2_000);
    let id = m.create_session(true, 10_000).unwrap();
    let parsed = uuid::Uuid::parse_str(&id).unwrap();
    assert_eq!(parsed.get_version_num(), 4);
    assert_eq!(parsed.to_string(), id);
    assert_eq!(id.len(), 36);
    for (i, c) in id.chars().enumerate() {
        if [8, 13, 18, 23].contains(&i) {
            assert_eq!(c, '-');
        } else {
            assert!(c.is_ascii_digit() || ('a'..='f').contains(&c));
        }
    }
    assert_eq!(id.chars().nth(14), Some('4'));
    assert!(m.session_exists(&id));
    assert_eq!(m.get_session_status(&id), Ok(SessionStatus::Active));
    let session = m.get_session(&id).unwrap();
    assert_eq!(session.created_at(), 10_000);
    assert_eq!(session.expires_at() - session.created_at(), 2_000);
}

#[test]
fn created_ids_are_all_different() {
    let mut m = manager(2_000);
    let mut seen = HashSet::new();
    for k in 0..200 {
        let id = m.create_session(true, k).unwrap();
        assert!(seen.insert(id));
    }
    assert_eq!(m.session_count(), 200);
    assert_eq!(m.issued_count(), 200);
    let first = seen.iter().next().unwrap().clone();
    assert!(m.close_session(&first).is_ok());
    for k in 0..50 {
        let id = m.create_session(true, k).unwrap();
        assert!(seen.insert(id));
    }
    assert_eq!(m.issued_count(), 250);
    seen.remove(&first);
    let listed: HashSet<String> = m.get_all_session_ids().into_iter().collect();
    assert_eq!(listed, seen);
}

#[test]
fn a_failed_spawn_registers_nothing() {
    let mut m = manager(2_000);
    assert_eq!(m.create_session(false, 5), Err(SessionError::SpawnFailed));
    assert_eq!(
        m.create_session_with_id("a".to_string(), false, 5, profile("u")),
        Err(SessionError::SpawnFailed)
    );
    assert_eq!(m.create_session_as(false, 5, profile("u")), Err(SessionError::SpawnFailed));
    assert_eq!(m.session_count(), 0);
    assert!(!m.session_exists("a"));
}

#[test]
fn an_id_is_never_given_twice() {
    let mut m = with_sessions(2_000, &[("a", 1), ("b", 2)]);
    assert!(m.was_issued("a"));
    assert!(!m.was_issued("c"));
    assert_eq!(m.issued_count(), 2);
    assert!(m.close_session("a").is_ok());
    assert!(m.was_issued("a"));
    assert_eq!(
        m.create_session_with_id("a".to_string(), true, 50, profile("v")),
        Err(SessionError::Internal)
    );
    assert!(!m.session_exists("a"));
    assert_eq!(m.session_expiry_checker(1_000_000), vec!["b"]);
    assert_eq!(
        m.create_session_with_id("b".to_string(), true, 60, profile("v")),
        Err(SessionError::Internal)
    );
    assert_eq!(m.session_count(), 0);
    assert_eq!(m.issued_count(), 2);
    assert_eq!(
        m.create_session_with_id("c".to_string(), true, 70, profile("v")),
        Ok("c".to_string())
    );
    assert_eq!(m.issued_count(), 3);
    assert_eq!(
        m.create_session_with_id("d".to_string(), false, 70, profile("v")),
        Err(SessionError::SpawnFailed)
    );
    assert!(!m.was_issued("d"));
}

#[test]
fn an_id_is_not_registered_twice() {
    let mut m = with_sessions(2_000, &[("a", 1)]);
    assert_eq!(
        m.create_session_with_id("a".to_string(), true, 50, profile("v")),
        Err(SessionError::Internal)
    );
    assert_eq!(m.get_session("a").unwrap().profile().user_id, "u");
    assert_eq!(m.session_count(), 1);
    assert_eq!(m.get_session("a").unwrap().created_at(), 1);
}

#[test]
fn sessions_are_listed_in_the_order_of_their_creation() {
    let mut m = with_sessions(2_000, &[("c", 1), ("a", 2), ("b", 3)]);
    assert_eq!(m.get_all_session_ids(), vec!["c", "a", "b"]);
    m.mark_terminated("a");
    assert_eq!(
        m.get_all_sessions_with_status(),
        vec![
            ("c".to_string(), SessionStatus::Active),
            ("a".to_string(), SessionStatus::Terminated),
            ("b".to_string(), SessionStatus::Active),
        ]
    );
    assert!(m.close_session("c").is_ok());
    assert_eq!(m.get_all_session_ids(), vec!["a", "b"]);
}

#[test]
fn status_of_a_missing_session_is_not_found() {
    let m = with_sessions(2_000, &[("a", 1)]);
    assert_eq!(m.get_session_status("b"), Err(SessionError::NotFound));
    assert_eq!(m.get_session_status(""), Err(SessionError::NotFound));
    assert!(m.get_session("b").is_none());
}

#[test]
fn input_is_admitted_and_recorded() {
    let mut m = with_sessions(2_000, &[("a", 100)]);
    assert_eq!(m.write_to_session("a", "echo hello\n", 150), Ok(b"echo hello\n".to_vec()));
    assert_eq!(m.get_session("a").unwrap().get_last_active_time(), 150);
    assert_eq!(m.get_session("a").unwrap().expires_at(), 2_150);
    assert_eq!(m.write_to_session("a", "é", 140), Ok(vec![0xc3, 0xa9]));
    assert_eq!(m.get_session("a").unwrap().get_last_active_time(), 150);
    assert_eq!(m.write_to_session("a", "", 160), Ok(Vec::new()));
    assert_eq!(m.get_session("a").unwrap().get_last_active_time(), 160);
}

#[test]
fn input_for_a_missing_session_is_not_found() {
    let mut m = with_sessions(2_000, &[("a", 100)]);
    assert_eq!(m.write_to_session("b", "x", 150), Err(SessionError::NotFound));
    assert_eq!(m.get_session("a").unwrap().get_last_active_time(), 100);
}

#[test]
fn input_for_a_terminated_session_is_closed() {
    let mut m = with_sessions(2_000, &[("a", 100)]);
    m.mark_terminated("a");
    assert_eq!(m.write_to_session("a", "x", 150), Err(SessionError::Closed));
    assert_eq!(m.resize_session("a", 80, 24, 150), Err(SessionError::Closed));
    assert_eq!(m.add_client_sender("a"), Err(SessionError::Closed));
    assert_eq!(m.get_session("a").unwrap().get_last_active_time(), 100);
    assert_eq!(m.get_session_status("a"), Ok(SessionStatus::Terminated));
}

#[test]
fn resize_gives_the_window_and_does_not_terminate() {
    let mut m = with_sessions(2_000, &[("a", 100)]);
    assert_eq!(
        m.resize_session("a", 132, 50, 300),
        Ok(WindowSize { rows: 50, columns: 132 })
    );
    assert_eq!(m.get_session_status("a"), Ok(SessionStatus::Active));
    assert_eq!(m.get_session("a").unwrap().get_last_active_time(), 300);
    assert_eq!(m.resize_session("b", 132, 50, 300), Err(SessionError::NotFound));
}

#[test]
fn resize_keeps_the_low_sixteen_bits() {
    let mut m = with_sessions(2_000, &[("a", 100)]);
    assert_eq!(
        m.resize_session("a", 65_535, 65_536, 1),
        Ok(WindowSize { rows: 0, columns: 65_535 })
    );
    assert_eq!(
        m.resize_session("a", 65_541, 131_073, 1),
        Ok(WindowSize { rows: 1, columns: 5 })
    );
    assert_eq!(
        m.resize_session("a", u32::MAX, 0, 1),
        Ok(WindowSize { rows: 0, columns: 65_535 })
    );
}

#[test]
fn activity_is_recorded_for_registered_sessions_only() {
    let mut m = with_sessions(2_000, &[("a", 100)]);
    assert_eq!(m.update_session_activity("a", 500), Ok(()));
    assert_eq!(m.get_session("a").unwrap().get_last_active_time(), 500);
    assert_eq!(m.update_session_activity("a", 400), Ok(()));
    assert_eq!(m.get_session("a").unwrap().get_last_active_time(), 500);
    assert_eq!(m.update_session_activity("b", 500), Err(SessionError::NotFound));
}

#[test]
fn closing_twice_finds_nothing_the_second_time() {
    let mut m = with_sessions(2_000, &[("a", 1), ("b", 2)]);
    m.add_client_sender("a").unwrap();
    let closed = m.close_session("a").unwrap();
    assert_eq!(closed.id(), "a");
    assert_eq!(closed.get_status(), SessionStatus::Terminated);
    assert!(closed.client_senders().is_empty());
    assert!(!m.session_exists("a"));
    assert_eq!(m.get_all_session_ids(), vec!["b"]);
    assert_eq!(m.close_session("a").err(), Some(SessionError::NotFound));
    assert_eq!(m.get_all_session_ids(), vec!["b"]);
}

#[test]
fn nothing_is_done_with_a_closed_session() {
    let mut m = with_sessions(2_000, &[("a", 1)]);
    assert!(m.close_session("a").is_ok());
    assert_eq!(m.write_to_session("a", "x", 2), Err(SessionError::NotFound));
    assert_eq!(m.resize_session("a", 1, 1, 2), Err(SessionError::NotFound));
    assert_eq!(m.add_client_sender("a"), Err(SessionError::NotFound));
    assert_eq!(m.get_session_status("a"), Err(SessionError::NotFound));
    assert_eq!(m.update_session_activity("a", 2), Err(SessionError::NotFound));
    assert!(!m.remove_client_sender("a", 0));
    assert!(m.client_senders("a").is_empty());
}

#[test]
fn two_subscribers_are_both_named_and_one_can_go() {
    let mut m = with_sessions(2_000, &[("a", 1), ("b", 1)]);
    assert_eq!(
        m.add_client_sender("a"),
        Ok(Attachment { subscriber: 0, start_listener: true })
    );
    assert_eq!(
        m.add_client_sender("a"),
        Ok(Attachment { subscriber: 1, start_listener: false })
    );
    assert_eq!(m.client_senders("a"), vec![0, 1]);
    assert!(m.client_senders("b").is_empty());
    assert!(m.remove_client_sender("a", 0));
    assert_eq!(m.client_senders("a"), vec![1]);
    assert!(!m.remove_client_sender("a", 0));
    assert!(!m.remove_client_sender("b", 1));
    assert_eq!(m.client_senders("a"), vec![1]);
    assert_eq!(m.add_client_sender("missing"), Err(SessionError::NotFound));
}

#[test]
fn the_expiry_check_closes_idle_sessions_only() {
    let mut m = with_sessions(2_000, &[("a", 1_000), ("b", 1_000), ("c", 3_500)]);
    assert_eq!(m.write_to_session("b", "x", 2_500), Ok(vec![b'x']));
    assert!(m.expired_sessions(3_000).is_empty());
    assert_eq!(m.expired_sessions(3_001), vec!["a"]);
    assert_eq!(m.session_expiry_checker(3_000), Vec::<String>::new());
    assert_eq!(m.session_count(), 3);
    assert_eq!(m.session_expiry_checker(3_001), vec!["a"]);
    assert!(!m.session_exists("a"));
    assert_eq!(m.get_session_status("a"), Err(SessionError::NotFound));
    assert_eq!(m.get_all_session_ids(), vec!["b", "c"]);
    assert_eq!(m.session_expiry_checker(4_500), Vec::<String>::new());
    assert_eq!(m.session_expiry_checker(4_501), vec!["b"]);
    assert_eq!(m.session_expiry_checker(100_000), vec!["c"]);
    assert_eq!(m.session_count(), 0);
    assert_eq!(m.session_expiry_checker(200_000), Vec::<String>::new());
}

#[test]
fn a_session_idle_for_seventy_seconds_is_swept() {
    let mut m = manager(2_000);
    let id = m.create_session(true, 0).unwrap();
    assert_eq!(m.session_expiry_checker(60_000), vec![id.clone()]);
    assert_eq!(m.get_session_status(&id), Err(SessionError::NotFound));
    assert!(!m.session_exists(&id));
}

#[test]
fn the_expiry_check_sweeps_several_at_once_in_order() {
    let mut m = with_sessions(10, &[("a", 1), ("b", 50), ("c", 2), ("d", 3), ("e", 60)]);
    assert_eq!(m.expired_sessions(40), vec!["a", "c", "d"]);
    assert_eq!(m.session_expiry_checker(40), vec!["a", "c", "d"]);
    assert_eq!(m.get_all_session_ids(), vec!["b", "e"]);
}

#[test]
fn the_plan_of_a_session_is_the_default_shell() {
    let m = manager(2_000);
    let plan = m.plan_session(Some("/home/u")).unwrap();
    assert_eq!(plan.program, "bash");
    assert_eq!(plan.arguments, vec!["-l"]);
    assert_eq!(plan.working_directory, Some("/home/u".to_string()));
    assert_eq!(plan.environment, vec![("TERM".to_string(), "xterm".to_string())]);
    assert_eq!(plan.terminal_size, Some(TerminalSize { columns: 80, rows: 24 }));
    let mut sized = config(2_000);
    sized.terminal.shells[0].1.terminal_size = Some(TerminalSize { columns: 132, rows: 50 });
    let plan = SessionManager::new(Arc::new(sized)).plan_session(None).unwrap();
    assert_eq!(plan.terminal_size, Some(TerminalSize { columns: 132, rows: 50 }));
    assert_eq!(plan.working_directory, Some(".".to_string()));
}

#[test]
fn no_plan_without_a_usable_shell() {
    let mut no_shell = config(1);
    no_shell.terminal.shells.clear();
    assert_eq!(
        SessionManager::new(Arc::new(no_shell)).plan_session(None).err(),
        Some(SessionError::SpawnFailed)
    );
    let mut empty_command = config(1);
    empty_command.terminal.shells[0].1.command.clear();
    assert_eq!(
        SessionManager::new(Arc::new(empty_command)).plan_session(None).err(),
        Some(SessionError::SpawnFailed)
    );
}

#[test]
fn the_expiry_check_runs_every_minute() {
    assert_eq!(EXPIRY_CHECK_PERIOD_MS, 60_000);
}

#[test]
fn several_subscribers_are_dropped_at_once() {
    let mut m = with_sessions(2_000, &[("a", 1)]);
    for _ in 0..5 {
        m.add_client_sender("a").unwrap();
    }
    m.remove_client_senders("a", &vec![4, 1, 1, 7]);
    assert_eq!(m.client_senders("a"), vec![0, 2, 3]);
    m.remove_client_senders("a", &Vec::new());
    assert_eq!(m.client_senders("a"), vec![0, 2, 3]);
    m.remove_client_senders("b", &vec![0]);
    assert_eq!(m.client_senders("a"), vec![0, 2, 3]);
}

#[test]
fn a_session_keeps_its_description() {
    let mut m = manager(2_000);
    let id = m.create_session_as(true, 10, profile("alice")).unwrap();
    assert!(uuid::Uuid::parse_str(&id).is_ok());
    assert_eq!(m.get_session(&id).unwrap().profile(), &profile("alice"));
    m.write_to_session(&id, "x", 20).unwrap();
    m.resize_session(&id, 10, 10, 30).unwrap();
    m.add_client_sender(&id).unwrap();
    m.mark_terminated(&id);
    assert_eq!(m.get_session(&id).unwrap().profile(), &profile("alice"));
    assert_eq!(m.session_at(0).id(), &id);
}

#[test]
fn a_session_that_nobody_described_has_the_defaults() {
    let mut m = manager(2_000);
    let id = m.create_session(true, 10).unwrap();
    assert_eq!(
        m.get_session(&id).unwrap().profile(),
        &SessionProfile {
            user_id: "default_user".to_string(),
            title: None,
            working_directory: ".".to_string(),
            shell_type: "bash".to_string(),
            terminal_size: TerminalSize { columns: 80, rows: 24 },
        }
    );
    assert_eq!(SessionProfile::default_for(&config(1)), *m.get_session(&id).unwrap().profile());
}

#[test]
fn two_attaches_keep_the_earlier_subscribers_in_place() {
    let mut m = with_sessions(2_000, &[("a", 1)]);
    for _ in 0..3 {
        m.add_client_sender("a").unwrap();
    }
    assert!(m.remove_client_sender("a", 1));
    let before = m.client_senders("a");
    let first = m.add_client_sender("a").unwrap();
    let second = m.add_client_sender("a").unwrap();
    let mut expected = before.clone();
    expected.push(first.subscriber);
    expected.push(second.subscriber);
    assert_eq!(m.client_senders("a"), expected);
    assert_eq!(m.client_senders("a"), vec![0, 2, 3, 4]);
    assert_eq!(m.client_senders("a").len(), before.len() + 2);
    assert_eq!(m.get_session_status("a"), Ok(SessionStatus::Active));
}
