use buckshot::config::{Account, Config, NameQueue, SnipeTask};
use buckshot::requests::DroptimeData;
use buckshot::session::{
    after_success, droptime_or_skip, pause_before_name, recheck_after_wait, setup_wait, check_account_limits, name_list, skin_model, snipe_and_setup_times, successful_account, unix_to_ms,
    wait_ms, LimitError, SignIn, SignInError, SignInStep,
};
use buckshot::sockets::{Moment, ResData};
use buckshot::text::trimmed;

fn login(email: &str) -> Account {
    Account { email: Some(email.to_string()), password: Some("pw".to_string()), sq_ans: None, bearer: None }
}

fn bearer(token: &str) -> Account {
    Account { email: None, password: None, sq_ans: None, bearer: Some(token.to_string()) }
}

fn config(accounts: Vec<Account>, mode: SnipeTask, queue: Option<NameQueue>) -> Config {
    Config { account_entry: accounts, offset: 0, spread: 0, mode, skin: None, name_queue: queue }
}

#[test]
fn one_account_signs_in() {
    let mut s = SignIn::new(vec![login("a")], SnipeTask::Mojang);
    assert_eq!(s.step(), SignInStep::Authenticate { index: 0, wait_first: false });
    s.succeed("T".to_string());
    assert_eq!(s.step(), SignInStep::Done);
    let (tokens, accounts) = s.finish().ok().unwrap();
    assert_eq!(tokens, vec!["T".to_string()]);
    assert_eq!(accounts.len(), 1);
}

#[test]
fn the_last_account_failing_ends_the_run() {
    let mut s = SignIn::new(vec![login("a")], SnipeTask::Microsoft);
    assert_eq!(s.step(), SignInStep::Authenticate { index: 0, wait_first: false });
    assert_eq!(s.fail(), Err(SignInError::LastAccountFailed));
}

#[test]
fn a_bearer_token_is_used_as_it_is() {
    let mut s = SignIn::new(vec![bearer("B"), login("a")], SnipeTask::Microsoft);
    assert_eq!(s.step(), SignInStep::Done);
    let (tokens, accounts) = s.finish().ok().unwrap();
    assert_eq!(tokens, vec!["B".to_string()]);
    assert_eq!(accounts.len(), 2);
}

#[test]
fn failed_accounts_are_dropped_and_the_rest_kept() {
    let mut s = SignIn::new(vec![login("a"), login("b"), bearer("C"), login("d")], SnipeTask::Giftcode);
    assert_eq!(s.step(), SignInStep::Authenticate { index: 0, wait_first: false });
    assert_eq!(s.fail(), Ok(()));
    assert_eq!(s.step(), SignInStep::Authenticate { index: 0, wait_first: true });
    s.succeed("TB".to_string());
    assert_eq!(s.step(), SignInStep::Authenticate { index: 2, wait_first: true });
    s.succeed("TD".to_string());
    assert_eq!(s.step(), SignInStep::Done);
    let (tokens, accounts) = s.finish().ok().unwrap();
    assert_eq!(tokens, vec!["TB".to_string(), "C".to_string(), "TD".to_string()]);
    let emails: Vec<Option<String>> = accounts.iter().map(|a| a.email.clone()).collect();
    assert_eq!(emails, vec![Some("b".to_string()), None, Some("d".to_string())]);
}

#[test]
fn gift_code_sniping_stops_at_ten_accounts() {
    let accounts: Vec<Account> = (0..12).map(|i| bearer(&format!("T{}", i))).collect();
    let mut s = SignIn::new(accounts, SnipeTask::Giftcode);
    assert_eq!(s.step(), SignInStep::Done);
    let (tokens, accounts) = s.finish().ok().unwrap();
    assert_eq!(tokens.len(), 10);
    assert_eq!(tokens[9], "T9");
    assert_eq!(accounts.len(), 12);
}

#[test]
fn no_token_no_snipe() {
    let mut s = SignIn::new(vec![login("a"), login("b")], SnipeTask::Giftcode);
    assert!(matches!(s.step(), SignInStep::Authenticate { index: 0, .. }));
    assert_eq!(s.fail(), Ok(()));
    assert!(matches!(s.step(), SignInStep::Authenticate { index: 0, .. }));
    assert_eq!(s.fail(), Err(SignInError::LastAccountFailed));
    let empty = SignIn::new(vec![], SnipeTask::Giftcode);
    assert_eq!(empty.finish().err(), Some(SignInError::NoAccountsLeft));
}

#[test]
fn account_limits() {
    let two = || vec![login("a"), login("b")];
    assert_eq!(check_account_limits(&config(two(), SnipeTask::Mojang, None)), Err(LimitError::MoreThanOneNormalAccount));
    assert_eq!(check_account_limits(&config(two(), SnipeTask::Giftcode, None)), Ok(()));
    let eleven: Vec<Account> = (0..11).map(|_| login("x")).collect();
    assert_eq!(
        check_account_limits(&config(eleven, SnipeTask::Giftcode, None)),
        Err(LimitError::MoreThanTenGiftcodeAccounts)
    );
    let q = NameQueue { queue: vec!["a".to_string()], never_stop_sniping: true };
    assert_eq!(check_account_limits(&config(two(), SnipeTask::Microsoft, Some(q))), Ok(()));
    let q = NameQueue { queue: vec!["a".to_string()], never_stop_sniping: false };
    assert_eq!(
        check_account_limits(&config(two(), SnipeTask::Microsoft, Some(q))),
        Err(LimitError::MoreThanOneNormalAccount)
    );
}

#[test]
fn names_come_from_the_command_line_then_the_queue() {
    let q = NameQueue { queue: vec!["Dream".to_string(), "Marc".to_string()], never_stop_sniping: false };
    let c = config(vec![login("a")], SnipeTask::Mojang, Some(q));
    assert_eq!(name_list(Some("x".to_string()), &c), Some(vec!["x".to_string()]));
    assert_eq!(name_list(None, &c), Some(vec!["Dream".to_string(), "Marc".to_string()]));
    assert_eq!(name_list(None, &config(vec![], SnipeTask::Mojang, None)), None);
}

#[test]
fn snipe_times() {
    assert_eq!(unix_to_ms(1_640_000_000), Some(1_640_000_000_000));
    assert_eq!(unix_to_ms(i64::MAX / 999), None);
    assert_eq!(snipe_and_setup_times(1_640_000_000_000, 9), Some((1_639_999_999_991, 1_639_971_199_991)));
    assert_eq!(snipe_and_setup_times(i64::MIN + 5, 9), None);
    assert_eq!(wait_ms(10, 15), 5);
    assert_eq!(wait_ms(15, 10), 0);
}

fn res(status: u16, account_idx: usize) -> ResData {
    ResData { status, timestamp: Moment { secs: 0, nanos: 0 }, account_idx }
}

#[test]
fn the_last_success_names_the_account() {
    assert_eq!(successful_account(&vec![res(403, 0), res(200, 1), res(200, 2), res(429, 0)]), Some(2));
    assert_eq!(successful_account(&vec![res(403, 0), res(429, 1)]), None);
    assert_eq!(successful_account(&vec![]), None);
}

#[test]
fn after_a_success() {
    let mut accounts = vec![login("a"), login("b")];
    let q = Some(NameQueue { queue: vec!["n".to_string()], never_stop_sniping: true });
    assert!(after_success(&mut accounts, 0, &q));
    assert_eq!(accounts[0].email.as_deref(), Some("b"));
    assert!(!after_success(&mut accounts, 0, &q));
    let mut accounts = vec![login("a"), login("b")];
    assert!(!after_success(&mut accounts, 1, &None));
    assert_eq!(accounts.len(), 1);
}

#[test]
fn skin_models() {
    assert_eq!(skin_model(true), "slim");
    assert_eq!(skin_model(false), "classic");
}

#[test]
fn names_are_trimmed() {
    assert_eq!(trimmed("  Dream \t\n"), "Dream");
    assert_eq!(trimmed("\u{3000}Marc\u{a0}"), "Marc");
    assert_eq!(trimmed("   "), "");
    assert_eq!(trimmed("a b"), "a b");
}

#[test]
fn name_round_decisions() {
    assert!(!pause_before_name(0));
    assert!(pause_before_name(1));
    assert_eq!(droptime_or_skip(DroptimeData::Available(42)), Ok(42));
    assert_eq!(droptime_or_skip(DroptimeData::Unavailable("gone".to_string())), Err("gone".to_string()));
    assert_eq!(setup_wait(10, 25), Some(15));
    assert_eq!(setup_wait(25, 25), None);
    assert!(recheck_after_wait(None));
    assert!(!recheck_after_wait(Some(5)));
}
