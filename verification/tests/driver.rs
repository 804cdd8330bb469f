use account_inquiry::{
    replay, result_line, step, Action, Environment, Event, RunError, State, Transition,
};

const FULL: &str = "cano=\"12345678\"\nacnt_prdt_cd=\"01\"\nenvironment=\"virtual\"\napp_key=\"k\"\napp_secret=\"s\"\nhts_id=\"u\"\n";

fn api_error() -> korea_investment_api::Error {
    korea_investment_api::Error::InvalidData
}

fn up_to_connected() -> Vec<Event> {
    vec![
        Event::Launched,
        Event::LoggerReady,
        Event::Arguments(Some("config.toml".to_string())),
        Event::ConfigRead(Ok(FULL.to_string())),
        Event::Connected(Ok(())),
    ]
}

fn inquiries_issued(moves: &[Transition]) -> (usize, usize) {
    let balance = moves.iter().filter(|t| matches!(t.action, Action::InquireBalance(_))).count();
    let buying = moves.iter().filter(|t| matches!(t.action, Action::InquireBuyingPower(_))).count();
    (balance, buying)
}

#[test]
fn happy_path_prints_both_lines_in_order() {
    let mut events = up_to_connected();
    events.push(Event::Balance(Ok("{total: 0}".to_string())));
    events.push(Event::BuyingPower(Ok("{max_qty: 10}".to_string())));
    let (state, moves) = replay(State::Start, events);
    assert_eq!(state, State::Done);
    assert_eq!(moves.len(), 7);
    let lines: Vec<String> = moves.iter().filter_map(|t| t.output.clone()).collect();
    assert_eq!(
        lines,
        vec![
            "주식잔고조회 결과: {total: 0}".to_string(),
            "매수가능조회 결과: {max_qty: 10}".to_string(),
        ]
    );
    assert!(matches!(moves[0].action, Action::InitLogger));
    assert!(matches!(moves[1].action, Action::ParseArguments));
    assert!(matches!(&moves[2].action, Action::ReadConfig(p) if p == "config.toml"));
    assert!(matches!(moves[3].action, Action::Connect(_)));
    assert!(matches!(moves[4].action, Action::InquireBalance(_)));
    assert!(matches!(moves[5].action, Action::InquireBuyingPower(_)));
    assert!(matches!(moves[6].action, Action::Exit));
    assert_eq!(moves[5].output, Some("주식잔고조회 결과: {total: 0}".to_string()));
    assert_eq!(moves[6].output, Some("매수가능조회 결과: {max_qty: 10}".to_string()));
    assert_eq!(inquiries_issued(&moves), (1, 1));
}

#[test]
fn happy_path_connects_with_the_configured_values() {
    let (_, moves) = replay(State::Start, up_to_connected());
    match &moves[3].action {
        Action::Connect(r) => {
            assert_eq!(r.environment, Environment::Virtual);
            assert_eq!(r.app_key, "k");
            assert_eq!(r.app_secret, "s");
            assert_eq!(r.account.cano, "12345678");
            assert_eq!(r.account.acnt_prdt_cd, "01");
            assert_eq!(r.hts_id, "u");
            assert_eq!(r.token, None);
            assert_eq!(r.approval_key, None);
        }
        other => panic!("expected a connect, got {:?}", other),
    }
}

#[test]
fn states_follow_the_sequence() {
    let mut events = up_to_connected();
    events.push(Event::Balance(Ok("b".to_string())));
    events.push(Event::BuyingPower(Ok("p".to_string())));
    let (_, moves) = replay(State::Start, events);
    let states: Vec<State> = moves.iter().map(|t| t.next).collect();
    assert_eq!(
        states,
        vec![
            State::Logging,
            State::Parsing,
            State::Loading,
            State::Connecting,
            State::Balance,
            State::BuyingPower,
            State::Done,
        ]
    );
}

#[test]
fn inquiries_carry_the_documented_parameters() {
    let mut events = up_to_connected();
    events.push(Event::Balance(Ok("b".to_string())));
    let (_, moves) = replay(State::Start, events);
    match &moves[4].action {
        Action::InquireBalance(q) => {
            assert_eq!(q.afhr_flpr_yn, "N");
            assert_eq!(q.inqr_dvsn, "02");
            assert_eq!(q.unpr_dvsn, "01");
            assert_eq!(q.fund_sttl_icld_yn, "N");
            assert_eq!(q.fncg_amt_auto_rdpt_yn, "N");
            assert_eq!(q.prcs_dvsn, "00");
            assert_eq!(q.ctx_area_fk100, None);
            assert_eq!(q.ctx_area_nk100, None);
        }
        other => panic!("expected a balance inquiry, got {:?}", other),
    }
    match &moves[5].action {
        Action::InquireBuyingPower(q) => {
            assert_eq!(q.pdno, "005930");
            assert_eq!(q.ord_unpr, "");
            assert_eq!(q.ord_dvsn, "01");
            assert_eq!(q.cma_evlu_amt_icld_yn, "N");
            assert_eq!(q.ovrs_icld_yn, "N");
        }
        other => panic!("expected a buying-power inquiry, got {:?}", other),
    }
}

#[test]
fn missing_config_file_fails_with_io_error() {
    let events = vec![
        Event::Launched,
        Event::LoggerReady,
        Event::Arguments(Some("/nonexistent/config.toml".to_string())),
        Event::ConfigRead(Err(std::io::Error::new(std::io::ErrorKind::NotFound, "not found"))),
        Event::Connected(Ok(())),
        Event::Balance(Ok("b".to_string())),
    ];
    let (state, moves) = replay(State::Start, events);
    assert_eq!(state, State::Done);
    assert_eq!(moves.len(), 4);
    match &moves[3].action {
        Action::Fail(RunError::IoError(e)) => assert_eq!(e.kind(), std::io::ErrorKind::NotFound),
        other => panic!("expected an I/O failure, got {:?}", other),
    }
    assert_eq!(moves[3].output, None);
    assert_eq!(inquiries_issued(&moves), (0, 0));
}

#[test]
fn malformed_toml_fails_with_parse_error() {
    let events = vec![
        Event::Launched,
        Event::LoggerReady,
        Event::Arguments(Some("config.toml".to_string())),
        Event::ConfigRead(Ok("not = valid = toml".to_string())),
        Event::Connected(Ok(())),
    ];
    let (state, moves) = replay(State::Start, events);
    assert_eq!(state, State::Done);
    assert_eq!(moves.len(), 4);
    assert!(matches!(moves[3].action, Action::Fail(RunError::TomlDeserializeError(_))));
    assert_eq!(inquiries_issued(&moves), (0, 0));
}

#[test]
fn auth_failure_attempts_no_inquiry() {
    let events = vec![
        Event::Launched,
        Event::LoggerReady,
        Event::Arguments(Some("config.toml".to_string())),
        Event::ConfigRead(Ok(FULL.to_string())),
        Event::Connected(Err(api_error())),
        Event::Balance(Ok("b".to_string())),
        Event::BuyingPower(Ok("p".to_string())),
    ];
    let (state, moves) = replay(State::Start, events);
    assert_eq!(state, State::Done);
    assert_eq!(moves.len(), 5);
    assert!(matches!(
        moves[4].action,
        Action::Fail(RunError::ApiError(korea_investment_api::Error::InvalidData))
    ));
    assert_eq!(inquiries_issued(&moves), (0, 0));
    assert!(moves.iter().all(|t| t.output.is_none()));
}

#[test]
fn balance_failure_never_asks_for_buying_power() {
    let mut events = up_to_connected();
    events.push(Event::Balance(Err(api_error())));
    events.push(Event::BuyingPower(Ok("p".to_string())));
    events.push(Event::Balance(Ok("b".to_string())));
    let (state, moves) = replay(State::Start, events);
    assert_eq!(state, State::Done);
    assert_eq!(moves.len(), 6);
    assert!(matches!(moves[5].action, Action::Fail(RunError::ApiError(_))));
    assert_eq!(inquiries_issued(&moves), (1, 0));
    assert!(moves.iter().all(|t| t.output.is_none()));
}

#[test]
fn buying_power_failure_keeps_the_balance_line_only() {
    let mut events = up_to_connected();
    events.push(Event::Balance(Ok("b".to_string())));
    events.push(Event::BuyingPower(Err(api_error())));
    let (state, moves) = replay(State::Start, events);
    assert_eq!(state, State::Done);
    assert!(matches!(moves[6].action, Action::Fail(RunError::ApiError(_))));
    assert_eq!(moves[6].output, None);
    let lines: Vec<String> = moves.iter().filter_map(|t| t.output.clone()).collect();
    assert_eq!(lines, vec!["주식잔고조회 결과: b".to_string()]);
}

#[test]
fn malformed_arguments_print_usage() {
    let events = vec![Event::Launched, Event::LoggerReady, Event::Arguments(None)];
    let (state, moves) = replay(State::Start, events);
    assert_eq!(state, State::Done);
    assert!(matches!(moves[2].action, Action::Usage));
    assert_eq!(moves[2].output, None);
}

#[test]
fn event_that_is_not_awaited_makes_no_move() {
    assert!(step(State::Start, Event::LoggerReady).is_none());
    assert!(step(State::Start, Event::Balance(Ok("b".to_string()))).is_none());
    assert!(step(State::Logging, Event::Launched).is_none());
    assert!(step(State::Loading, Event::Connected(Ok(()))).is_none());
    assert!(step(State::Connecting, Event::BuyingPower(Ok("p".to_string()))).is_none());
    assert!(step(State::Balance, Event::BuyingPower(Ok("p".to_string()))).is_none());
    assert!(step(State::BuyingPower, Event::Balance(Ok("b".to_string()))).is_none());
}

#[test]
fn nothing_is_awaited_once_done() {
    assert!(step(State::Done, Event::Launched).is_none());
    assert!(step(State::Done, Event::LoggerReady).is_none());
    assert!(step(State::Done, Event::Arguments(None)).is_none());
    assert!(step(State::Done, Event::ConfigRead(Ok(FULL.to_string()))).is_none());
    assert!(step(State::Done, Event::Connected(Ok(()))).is_none());
    assert!(step(State::Done, Event::Balance(Ok("b".to_string()))).is_none());
    assert!(step(State::Done, Event::BuyingPower(Ok("p".to_string()))).is_none());
}

#[test]
fn no_run_makes_more_than_seven_moves() {
    let mut events = up_to_connected();
    events.push(Event::Balance(Ok("b".to_string())));
    events.push(Event::BuyingPower(Ok("p".to_string())));
    events.extend(up_to_connected());
    events.push(Event::Balance(Ok("b".to_string())));
    let (_, moves) = replay(State::Start, events);
    assert_eq!(moves.len(), 7);
}

#[test]
fn result_line_is_label_then_rendering() {
    assert_eq!(result_line("주식잔고조회 결과: ", "X { a: 1 }"), "주식잔고조회 결과: X { a: 1 }");
    assert_eq!(result_line("매수가능조회 결과: ", ""), "매수가능조회 결과: ");
}

#[test]
fn replay_from_a_later_state_starts_there() {
    let events = vec![
        Event::Launched,
        Event::Balance(Ok("b".to_string())),
        Event::BuyingPower(Ok("p".to_string())),
    ];
    let (state, moves) = replay(State::Balance, events);
    assert_eq!(state, State::Done);
    assert_eq!(moves.len(), 2);
    assert_eq!(moves[0].output, Some("주식잔고조회 결과: b".to_string()));
    assert_eq!(moves[1].output, Some("매수가능조회 결과: p".to_string()));
}

#[test]
fn replay_of_nothing_stays_put() {
    let (state, moves) = replay(State::Loading, Vec::new());
    assert_eq!(state, State::Loading);
    assert!(moves.is_empty());
}

#[test]
fn replay_agrees_with_single_steps() {
    let (state, moves) = replay(State::Start, vec![Event::Launched, Event::LoggerReady]);
    let first = step(State::Start, Event::Launched).unwrap();
    let second = step(first.next, Event::LoggerReady).unwrap();
    assert_eq!(state, second.next);
    assert_eq!(moves.len(), 2);
    assert_eq!(moves[0].next, first.next);
    assert_eq!(moves[1].next, second.next);
}
