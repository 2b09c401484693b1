use buckshot::config::{Account, Config, NameQueue, Skin, SnipeTask};
use buckshot::logic::{self, RunAction, RunEvent, RunStage, SetupCall, SnipeAction, SnipeEvent};
use buckshot::msauth::{minecraft_request_body, xbl_request_body, xsts_request_body};
use buckshot::requests::{answers_body, sign_in_body, skin_body, SecurityAnswer};
use buckshot::runner::{self, ExecAction, ExecEvent, RunnerSnipeAction, RunnerSnipeEvent};

fn config(queue: Option<NameQueue>, skin: bool) -> Config {
    let account = Account { email: Some("a".to_string()), password: Some("p".to_string()), sq_ans: None, bearer: None };
    let skin = if skin { Some(Skin { file: false, path: "u".to_string(), slim: true }) } else { None };
    Config { account_entry: vec![account], offset: 9, spread: 0, mode: SnipeTask::Mojang, skin, name_queue: queue }
}

#[test]
fn request_bodies() {
    assert_eq!(sign_in_body("a@x.com", "p\"w"), r#"{"password":"p\"w","username":"a@x.com"}"#);
    let answers = vec![
        SecurityAnswer { id: 1, answer: "Foo".to_string() },
        SecurityAnswer { id: 22, answer: "Bar".to_string() },
        SecurityAnswer { id: 333, answer: "Baz".to_string() },
    ];
    assert_eq!(
        answers_body(&answers),
        r#"[{"answer":"Foo","id":1},{"answer":"Bar","id":22},{"answer":"Baz","id":333}]"#
    );
    assert_eq!(answers_body(&vec![]), "[]");
    assert_eq!(skin_body("https://x/s.png", "slim"), r#"{"url":"https://x/s.png","variant":"slim"}"#);
    assert_eq!(
        xbl_request_body("EwA"),
        r#"{"Properties":{"AuthMethod":"RPS","RpsTicket":"EwA","SiteName":"user.auth.xboxlive.com"},"RelyingParty":"http://auth.xboxlive.com","TokenType":"JWT"}"#
    );
    assert_eq!(
        xsts_request_body("tk"),
        r#"{"Properties":{"SandboxId":"RETAIL","UserTokens":["tk"]},"RelyingParty":"rp://api.minecraftservices.com/","TokenType":"JWT"}"#
    );
    assert_eq!(minecraft_request_body("42", "xs"), r#"{"identityToken":"XBL3.0 x=42;xs"}"#);
}

#[test]
fn bodies_match_serde_json() {
    let v: serde_json::Value = serde_json::from_str(&sign_in_body("e", "p")).unwrap();
    assert_eq!(v["username"], "e");
    assert_eq!(v["password"], "p");
    let v: serde_json::Value = serde_json::from_str(&xbl_request_body("t\n")).unwrap();
    assert_eq!(v["Properties"]["RpsTicket"], "t\n");
}

#[test]
fn a_run_over_three_names() {
    let q = NameQueue { queue: vec!["a".to_string(), "b".to_string(), "c".to_string()], never_stop_sniping: false };
    let s = logic::Sniper::new(logic::SnipeTask::Giftcode, None, config(Some(q), false), Some("GC".to_string()));
    let (st, act) = s.run_start();
    assert_eq!(act, RunAction::ChooseNames);
    let (st, act) = s.run_step(st, RunEvent::NamesChosen { total: 3, check_filter: true });
    assert_eq!(act, RunAction::CheckName { index: 0 });
    let (st, act) = s.run_step(st, RunEvent::NameChecked(true));
    assert_eq!(act, RunAction::FetchDroptime { index: 0 });
    let (st, act) = s.run_step(st, RunEvent::DroptimeFound(true));
    assert_eq!(act, RunAction::Setup);
    let (st, act) = s.run_step(st, RunEvent::Done);
    assert_eq!(act, RunAction::RedeemGiftcode);
    let (st, act) = s.run_step(st, RunEvent::Done);
    assert_eq!(act, RunAction::GetOffset);
    let (st, act) = s.run_step(st, RunEvent::Done);
    assert_eq!(act, RunAction::Snipe { index: 0 });
    let (st, act) = s.run_step(st, RunEvent::Sniped(Some(false)));
    assert_eq!(act, RunAction::CheckName { index: 1 });
    let (st, act) = s.run_step(st, RunEvent::NameChecked(false));
    assert_eq!(act, RunAction::CheckName { index: 2 });
    let (st, act) = s.run_step(st, RunEvent::NameChecked(true));
    assert_eq!(act, RunAction::Pause);
    let (st, act) = s.run_step(st, RunEvent::Paused);
    assert_eq!(act, RunAction::FetchDroptime { index: 2 });
    let (st, act) = s.run_step(st, RunEvent::DroptimeFound(true));
    assert_eq!(act, RunAction::Setup);
    let (st, act) = s.run_step(st, RunEvent::Done);
    assert_eq!(act, RunAction::CheckEligibility);
    let (st, _) = s.run_step(st, RunEvent::Done);
    let (st, act) = s.run_step(st, RunEvent::Done);
    assert_eq!(act, RunAction::Snipe { index: 2 });
    let (st, act) = s.run_step(st, RunEvent::Sniped(Some(true)));
    assert_eq!(act, RunAction::Finish);
    assert_eq!(st.stage, RunStage::Finished);
    let (_, act) = s.run_step(st, RunEvent::Done);
    assert_eq!(act, RunAction::Finish);
}

#[test]
fn a_run_skips_and_aborts() {
    let s = logic::Sniper::new(logic::SnipeTask::Giftcode, None, config(None, false), None);
    let (st, _) = s.run_start();
    let (st, act) = s.run_step(st, RunEvent::NamesChosen { total: 2, check_filter: false });
    assert_eq!(act, RunAction::FetchDroptime { index: 0 });
    let (st, act) = s.run_step(st, RunEvent::DroptimeFound(false));
    assert_eq!(act, RunAction::Pause);
    assert_eq!(st.index, 1);
    let (st, _) = s.run_step(st, RunEvent::Paused);
    let (st, act) = s.run_step(st, RunEvent::DroptimeFound(true));
    assert_eq!(act, RunAction::Setup);
    let (st, act) = s.run_step(st, RunEvent::Done);
    assert_eq!(act, RunAction::CheckEligibility);
    let (_, act) = s.run_step(st, RunEvent::Failed);
    assert_eq!(act, RunAction::Abort);

    let (st, _) = s.run_start();
    let (st, _) = s.run_step(st, RunEvent::NamesChosen { total: 1, check_filter: false });
    let (st, _) = s.run_step(st, RunEvent::DroptimeFound(true));
    let (_, act) = s.run_step(st, RunEvent::Done);
    assert_eq!(act, RunAction::RemindGiftcode);
}

#[test]
fn a_snipe_far_ahead_signs_in_again() {
    let s = logic::Sniper::new(logic::SnipeTask::Mojang, None, config(None, true), None);
    let st = s.snipe_start();
    let (st, act) = s.snipe_step(st, SnipeEvent::Start { droptime_ms: 100_000_000, now_ms: 0 });
    assert_eq!(act, SnipeAction::SleepUntil { ms: 100_000_000 - 28_800_000 });
    let (st, act) = s.snipe_step(st, SnipeEvent::Slept);
    assert_eq!(act, SnipeAction::Setup);
    let (st, act) = s.snipe_step(st, SnipeEvent::Done);
    assert_eq!(act, SnipeAction::RecheckDroptime);
    let (st, act) = s.snipe_step(st, SnipeEvent::DroptimeFound(true));
    assert_eq!(act, SnipeAction::CheckEligibility);
    let (st, act) = s.snipe_step(st, SnipeEvent::Done);
    assert_eq!(act, SnipeAction::Execute { snipe_ms: 100_000_000 });
    let (st, act) = s.snipe_step(st, SnipeEvent::Sniped(true));
    assert_eq!(act, SnipeAction::UploadSkin);
    let (st, act) = s.snipe_step(st, SnipeEvent::Done);
    assert_eq!(act, SnipeAction::Finish(Some(true)));
    let (_, act) = s.snipe_step(st, SnipeEvent::Done);
    assert_eq!(act, SnipeAction::Finish(Some(true)));
}

#[test]
fn a_near_snipe_goes_straight_on() {
    let mut s = logic::Sniper::new(logic::SnipeTask::Giftcode, None, config(None, true), None);
    s.get_offset(Some(40));
    let st = s.snipe_start();
    let (st, act) = s.snipe_step(st, SnipeEvent::Start { droptime_ms: 10_000, now_ms: 0 });
    assert_eq!(act, SnipeAction::RecheckDroptime);
    let (st2, act) = s.snipe_step(st, SnipeEvent::DroptimeFound(false));
    assert_eq!(act, SnipeAction::Finish(None));
    assert_eq!(s.snipe_step(st2, SnipeEvent::Done).1, SnipeAction::Finish(None));
    let (st, act) = s.snipe_step(st, SnipeEvent::DroptimeFound(true));
    assert_eq!(act, SnipeAction::Execute { snipe_ms: 9_960 });
    let (_, act) = s.snipe_step(st, SnipeEvent::Sniped(false));
    assert_eq!(act, SnipeAction::Finish(Some(false)));
}

#[test]
fn runner_execution() {
    let s = runner::Sniper::new(runner::SnipeTask::Giftcode, None, config(None, false));
    let (st, act) = s.execute_start();
    assert_eq!(act, ExecAction::ChooseNames);
    let (st, act) = s.execute_step(st, ExecEvent::NamesChosen { total: 2, auto_offset: true });
    assert_eq!(act, ExecAction::Setup { index: 0, first: true });
    let (st, act) = s.execute_step(st, ExecEvent::Done);
    assert_eq!(act, ExecAction::AskGiftcode);
    let (st, act) = s.execute_step(st, ExecEvent::Giftcode(true));
    assert_eq!(act, ExecAction::Prepare { index: 0, redeem_giftcode: true, check_eligibility: false });
    let (st, act) = s.execute_step(st, ExecEvent::Done);
    assert_eq!(act, ExecAction::MeasureOffset { giftcode: true });
    let (st, act) = s.execute_step(st, ExecEvent::OffsetMeasured(-7));
    assert_eq!(act, ExecAction::Snipe { index: 0, offset: -7 });
    let (st, act) = s.execute_step(st, ExecEvent::Sniped(false));
    assert_eq!(act, ExecAction::Setup { index: 1, first: false });
    let (st, _) = s.execute_step(st, ExecEvent::Done);
    let (st, _) = s.execute_step(st, ExecEvent::Giftcode(false));
    let (st, _) = s.execute_step(st, ExecEvent::Done);
    let (st, _) = s.execute_step(st, ExecEvent::OffsetMeasured(3));
    let (_, act) = s.execute_step(st, ExecEvent::Sniped(false));
    assert_eq!(act, ExecAction::Finish { report: true });

    let m = runner::Sniper::new(runner::SnipeTask::Mojang, Some("x".to_string()), config(None, false));
    let (st, _) = m.execute_start();
    let (st, _) = m.execute_step(st, ExecEvent::NamesChosen { total: 1, auto_offset: false });
    let (st, act) = m.execute_step(st, ExecEvent::Done);
    assert_eq!(act, ExecAction::Prepare { index: 0, redeem_giftcode: false, check_eligibility: true });
    let (st, act) = m.execute_step(st, ExecEvent::Done);
    assert_eq!(act, ExecAction::Snipe { index: 0, offset: 9 });
    let (_, act) = m.execute_step(st, ExecEvent::Sniped(false));
    assert_eq!(act, ExecAction::Finish { report: false });
    let (st, _) = m.execute_start();
    let (st, _) = m.execute_step(st, ExecEvent::NamesChosen { total: 3, auto_offset: false });
    let (st, _) = m.execute_step(st, ExecEvent::Done);
    let (st, _) = m.execute_step(st, ExecEvent::Done);
    let (_, act) = m.execute_step(st, ExecEvent::Sniped(true));
    assert_eq!(act, ExecAction::Finish { report: false });
}

#[test]
fn runner_snipe_and_setup() {
    let s = runner::Sniper::new(runner::SnipeTask::Microsoft, None, config(None, true));
    let mut setup = s.setup();
    assert_eq!(setup.next(), logic::SetupAction::Call(SetupCall::AuthenticateMicrosoft));
    setup.record(true, false);
    assert_eq!(setup.next(), logic::SetupAction::Succeeded);

    let st = s.snipe_start();
    let (st, act) = s.snipe_step(st, RunnerSnipeEvent::Start { droptime_ms: 100_000_000, offset: 0, now_ms: 0 });
    assert_eq!(act, RunnerSnipeAction::SleepUntil { ms: 100_000_000 - 28_800_000 });
    let (st, act) = s.snipe_step(st, RunnerSnipeEvent::Done);
    assert_eq!(act, RunnerSnipeAction::Setup);
    let (st, act) = s.snipe_step(st, RunnerSnipeEvent::Done);
    assert_eq!(act, RunnerSnipeAction::Refresh { check_eligibility: true });
    let (st, act) = s.snipe_step(st, RunnerSnipeEvent::Done);
    assert_eq!(act, RunnerSnipeAction::Execute { snipe_ms: 100_000_000, giftcode: false });
    let (st, act) = s.snipe_step(st, RunnerSnipeEvent::Sniped(true));
    assert_eq!(act, RunnerSnipeAction::RecordSearches);
    let (st, act) = s.snipe_step(st, RunnerSnipeEvent::Done);
    assert_eq!(act, RunnerSnipeAction::UploadSkin);
    let (_, act) = s.snipe_step(st, RunnerSnipeEvent::Done);
    assert_eq!(act, RunnerSnipeAction::Finish(true));

    let g = runner::Sniper::new(runner::SnipeTask::Giftcode, None, config(None, false));
    let st = g.snipe_start();
    let (st, act) = g.snipe_step(st, RunnerSnipeEvent::Start { droptime_ms: 5_000, offset: 100, now_ms: 0 });
    assert_eq!(act, RunnerSnipeAction::Execute { snipe_ms: 4_900, giftcode: true });
    let (_, act) = g.snipe_step(st, RunnerSnipeEvent::Sniped(false));
    assert_eq!(act, RunnerSnipeAction::Finish(false));
}
