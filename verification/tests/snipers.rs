use buckshot::cli::{Args, ArgsError};
use buckshot::config::{Account, Config, NameQueue, SnipeTask};
use buckshot::logic::{self, SetupAction, SetupCall, SetupStage, TimeLeft};
use buckshot::runner::{self, after_auth_failure, report_no_success, RetryDecision};

fn config(queue: Option<NameQueue>) -> Config {
    let account = Account { email: Some("a".to_string()), password: Some("p".to_string()), sq_ans: None, bearer: None };
    Config { account_entry: vec![account], offset: 9, spread: 0, mode: SnipeTask::Mojang, skin: None, name_queue: queue }
}

#[test]
fn command_line() {
    let a = Args::new(Some("Dream".to_string()), Some(1_640_000_000)).ok().unwrap();
    assert_eq!(a.name.as_deref(), Some("Dream"));
    assert_eq!(a.timestamp, Some(1_640_000_000));
    assert!(Args::new(None, None).is_ok());
    assert_eq!(Args::new(None, Some(5)).err(), Some(ArgsError::TimestampRequiresName));
}

#[test]
fn logic_sniper() {
    let q = NameQueue { queue: vec!["Dream".to_string()], never_stop_sniping: false };
    let mut s = logic::Sniper::new(logic::SnipeTask::Mojang, None, config(Some(q)), Some("GC".to_string()));
    assert_eq!(s.name, "");
    assert_eq!(s.offset, 0);
    assert_eq!(s.names_to_snipe(), Some((vec!["Dream".to_string()], true)));
    s.get_offset(None);
    assert_eq!(s.offset, 9);
    s.get_offset(Some(-3));
    assert_eq!(s.offset, -3);
    let g = logic::Sniper::new(logic::SnipeTask::Giftcode, Some("x".to_string()), config(None), None);
    assert_eq!(g.names_to_snipe(), Some((vec!["x".to_string()], true)));
    let empty = NameQueue { queue: vec![], never_stop_sniping: false };
    let ask = logic::Sniper::new(logic::SnipeTask::Microsoft, None, config(Some(empty)), None);
    assert_eq!(ask.names_to_snipe(), None);
}

#[test]
fn logic_schedule() {
    let s = logic::Sniper::new(logic::SnipeTask::Mojang, None, config(None), None);
    let near = s.snipe_schedule(100_000, 70_500).unwrap();
    assert_eq!(near.time_left, TimeLeft::Seconds(29));
    assert!(!near.setup_again);
    let far = s.snipe_schedule(100_000_000, 0).unwrap();
    assert_eq!(far.time_left, TimeLeft::Minutes(1666));
    assert_eq!(far.snipe_ms, 100_000_000);
    assert_eq!(far.setup_ms, 100_000_000 - 28_800_000);
    assert!(far.setup_again);
    let past = s.snipe_schedule(0, 1500).unwrap();
    assert_eq!(past.time_left, TimeLeft::Seconds(-1));
}

#[test]
fn runner_sniper() {
    let s = runner::Sniper::new(runner::SnipeTask::Giftcode, None, config(None));
    assert_eq!(s.names_to_snipe(), None);
    assert_eq!(s.snipe_times(1_000_000, 40), Some((999_960, 999_960 - 28_800_000)));
    let q = NameQueue { queue: vec!["a".to_string(), "b".to_string()], never_stop_sniping: false };
    let t = runner::Sniper::new(runner::SnipeTask::Mojang, Some("z".to_string()), config(Some(q)));
    assert_eq!(t.names_to_snipe(), Some(vec!["z".to_string()]));
    assert_eq!(after_auth_failure(1), RetryDecision::RetryAfterWait);
    assert_eq!(after_auth_failure(2), RetryDecision::RetryAfterWait);
    assert_eq!(after_auth_failure(3), RetryDecision::GiveUpAfterWait);
    assert!(report_no_success(false, 2));
    assert!(!report_no_success(false, 1));
    assert!(!report_no_success(true, 3));
}

#[test]
fn mojang_setup_sends_answers_only_when_asked() {
    let s = logic::Sniper::new(logic::SnipeTask::Mojang, None, config(None), None);
    let mut setup = s.setup();
    assert_eq!(setup.next(), SetupAction::Call(SetupCall::AuthenticateMojang));
    setup.record(true, false);
    assert_eq!(setup.next(), SetupAction::Call(SetupCall::ListSecurityQuestions));
    setup.record(true, true);
    assert_eq!(setup.next(), SetupAction::Call(SetupCall::SendSecurityAnswers));
    setup.record(true, false);
    assert_eq!(setup.next(), SetupAction::Succeeded);

    let mut setup = s.setup();
    setup.record(true, false);
    setup.record(true, false);
    assert_eq!(setup.next(), SetupAction::Succeeded);
}

#[test]
fn microsoft_setup_is_one_call_and_errors_end_it() {
    let s = logic::Sniper::new(logic::SnipeTask::Giftcode, None, config(None), None);
    let mut setup = s.setup();
    assert_eq!(setup.stage, SetupStage::Start);
    assert_eq!(setup.next(), SetupAction::Call(SetupCall::AuthenticateMicrosoft));
    setup.record(true, false);
    assert_eq!(setup.next(), SetupAction::Succeeded);

    let m = logic::Sniper::new(logic::SnipeTask::Mojang, None, config(None), None);
    let mut setup = m.setup();
    setup.record(true, false);
    setup.record(false, true);
    assert_eq!(setup.next(), SetupAction::Failed);
    setup.record(true, true);
    assert_eq!(setup.next(), SetupAction::Failed);
}
