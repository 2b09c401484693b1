use vstd::prelude::*;
use crate::config::Config;
use crate::text::copy_strings;

verus! {

/// How names are claimed.
#[derive(Clone, Copy, Debug, PartialEq, Eq, Structural)]
pub enum SnipeTask {
    Mojang,
    Microsoft,
    Giftcode,
}

/// A call made while signing the account in.
#[derive(Clone, Copy, Debug, PartialEq, Eq, Structural)]
pub enum SetupCall {
    /// Sign in with Mojang.
    AuthenticateMojang,
    /// Ask which security questions the account has (the answer says whether
    /// there are any).
    ListSecurityQuestions,
    /// Send the account's three security answers.
    SendSecurityAnswers,
    /// Sign in with Microsoft.
    AuthenticateMicrosoft,
}

/// How far signing in has come.
#[derive(Clone, Copy, Debug, PartialEq, Eq, Structural)]
pub enum SetupStage {
    Start,
    /// Signed in with Mojang; the security questions are next.
    MojangSignedIn,
    /// Security questions are set; the answers are next.
    AnswersDue,
    /// Signed in.
    Finished,
    /// A call failed; its error ends the sign-in.
    Failed,
}

/// What signing in asks for next.
#[derive(Clone, Copy, Debug, PartialEq, Eq, Structural)]
pub enum SetupAction {
    Call(SetupCall),
    /// The account is signed in.
    Succeeded,
    /// A call failed and no other is made.
    Failed,
}

/// Signing the account in: with Mojang for Mojang sniping (then the
/// security questions are listed, and the answers sent only when questions
/// are set), with Microsoft otherwise. The first failed call ends it.
#[derive(Clone, Copy, Debug, PartialEq, Eq, Structural)]
pub struct Setup {
    pub task: SnipeTask,
    pub stage: SetupStage,
}

/// The call that signing in makes at `stage`, or how it ended.
pub open spec fn setup_action(task: SnipeTask, stage: SetupStage) -> SetupAction {
    match stage {
        SetupStage::Start => if task == SnipeTask::Mojang {
            SetupAction::Call(SetupCall::AuthenticateMojang)
        } else {
            SetupAction::Call(SetupCall::AuthenticateMicrosoft)
        },
        SetupStage::MojangSignedIn => SetupAction::Call(SetupCall::ListSecurityQuestions),
        SetupStage::AnswersDue => SetupAction::Call(SetupCall::SendSecurityAnswers),
        SetupStage::Finished => SetupAction::Succeeded,
        SetupStage::Failed => SetupAction::Failed,
    }
}

/// The stage after the call of `stage` returned: `ok` tells whether it
/// succeeded, and `questions_set` (read only after listing the questions)
/// whether the account has security questions.
pub open spec fn setup_after(task: SnipeTask, stage: SetupStage, ok: bool, questions_set: bool) -> SetupStage {
    match stage {
        SetupStage::Finished => SetupStage::Finished,
        SetupStage::Failed => SetupStage::Failed,
        _ => if !ok {
            SetupStage::Failed
        } else {
            match stage {
                SetupStage::Start => if task == SnipeTask::Mojang {
                    SetupStage::MojangSignedIn
                } else {
                    SetupStage::Finished
                },
                SetupStage::MojangSignedIn => if questions_set {
                    SetupStage::AnswersDue
                } else {
                    SetupStage::Finished
                },
                _ => SetupStage::Finished,
            }
        },
    }
}

impl Setup {
    /// What to do next.
    pub fn next(&self) -> (r: SetupAction)
        ensures
            r == setup_action(self.task, self.stage),
    {
        match self.stage {
            SetupStage::Start => if self.task == SnipeTask::Mojang {
                SetupAction::Call(SetupCall::AuthenticateMojang)
            } else {
                SetupAction::Call(SetupCall::AuthenticateMicrosoft)
            },
            SetupStage::MojangSignedIn => SetupAction::Call(SetupCall::ListSecurityQuestions),
            SetupStage::AnswersDue => SetupAction::Call(SetupCall::SendSecurityAnswers),
            SetupStage::Finished => SetupAction::Succeeded,
            SetupStage::Failed => SetupAction::Failed,
        }
    }

    /// Records how the call asked for returned.
    pub fn record(&mut self, ok: bool, questions_set: bool)
        ensures
            final(self).task == old(self).task,
            final(self).stage == setup_after(old(self).task, old(self).stage, ok, questions_set),
    {
        self.stage = match self.stage {
            SetupStage::Finished => SetupStage::Finished,
            SetupStage::Failed => SetupStage::Failed,
            SetupStage::Start => if !ok {
                SetupStage::Failed
            } else if self.task == SnipeTask::Mojang {
                SetupStage::MojangSignedIn
            } else {
                SetupStage::Finished
            },
            SetupStage::MojangSignedIn => if !ok {
                SetupStage::Failed
            } else if questions_set {
                SetupStage::AnswersDue
            } else {
                SetupStage::Finished
            },
            SetupStage::AnswersDue => if !ok {
                SetupStage::Failed
            } else {
                SetupStage::Finished
            },
        };
    }
}

/// How the time left until the drop is told.
#[derive(Clone, Copy, Debug, PartialEq, Eq, Structural)]
pub enum TimeLeft {
    Seconds(i64),
    Minutes(i64),
}

/// The timing of one snipe.
#[derive(Clone, Copy, Debug, PartialEq, Eq, Structural)]
pub struct SnipeSchedule {
    /// The time left until the drop, as it is told.
    pub time_left: TimeLeft,
    /// When the request completes (ms since the Unix epoch).
    pub snipe_ms: i64,
    /// When the account is signed in again (ms since the Unix epoch).
    pub setup_ms: i64,
    /// The sign-in has to be redone before the snipe.
    pub setup_again: bool,
}

/// Minutes between a repeated sign-in and the snipe.
pub const SETUP_LEAD_MINUTES: i64 = 480;

/// A sniper of one account.
pub struct Sniper {
    pub task: SnipeTask,
    pub username_to_snipe: Option<String>,
    pub config: Config,
    pub giftcode: Option<String>,
    /// The name being sniped.
    pub name: String,
    /// The offset in ms.
    pub offset: i64,
}

/// The names a sniper works through, and whether each is checked for
/// validity first.
pub open spec fn names_of(username: Option<String>, config: Config) -> Option<(Seq<String>, bool)> {
    match username {
        Some(u) => Some((seq![u], true)),
        None => match config.name_queue {
            Some(q) => if q.queue@.len() == 0 {
                None
            } else {
                Some((q.queue@, true))
            },
            None => None,
        },
    }
}

impl Sniper {
    /// A sniper for `task`, with no name chosen yet and no offset.
    pub fn new(
        task: SnipeTask,
        username_to_snipe: Option<String>,
        config: Config,
        giftcode: Option<String>,
    ) -> (s: Sniper)
        ensures
            s.task == task,
            s.username_to_snipe == username_to_snipe,
            s.config == config,
            s.giftcode == giftcode,
            s.name@ == Seq::<char>::empty(),
            s.offset == 0,
    {
        Sniper { task, username_to_snipe, config, giftcode, name: String::new(), offset: 0 }
    }

    /// The names to snipe: the given name, else the name queue, each checked
    /// for validity; `None` when the user has to be asked (and the name typed
    /// is then not checked).
    pub fn names_to_snipe(&self) -> (r: Option<(Vec<String>, bool)>)
        ensures
            match names_of(self.username_to_snipe, self.config) {
                None => r is None,
                Some((v, f)) => r matches Some((w, g)) && w@ == v && g == f,
            },
            self.username_to_snipe matches Some(u) ==> (r matches Some((w, g)) && w@ == seq![u] && g),
            (self.username_to_snipe is None && self.config.name_queue is Some
                && self.config.name_queue.unwrap().queue@.len() > 0) ==> (r matches Some((w, g)) && w@
                == self.config.name_queue.unwrap().queue@ && g),
            (self.username_to_snipe is None && !(self.config.name_queue is Some
                && self.config.name_queue.unwrap().queue@.len() > 0)) ==> r is None,
    {
        match &self.username_to_snipe {
            Some(u) => {
                let mut v: Vec<String> = Vec::new();
                v.push(u.clone());
                Some((v, true))
            },
            None => match &self.config.name_queue {
                Some(q) => {
                    if q.queue.len() == 0 {
                        None
                    } else {
                        Some((copy_strings(&q.queue), true))
                    }
                },
                None => None,
            },
        }
    }

    /// Starts signing the account in (see [`Setup`]).
    pub fn setup(&self) -> (r: Setup)
        ensures
            r.task == self.task,
            r.stage == SetupStage::Start,
    {
        Setup { task: self.task, stage: SetupStage::Start }
    }

    /// Sets the offset: the measured one when it was measured, the
    /// configured one otherwise.
    pub fn get_offset(&mut self, measured: Option<i64>)
        ensures
            final(self).offset == (match measured {
                Some(m) => m,
                None => old(self).config.offset as i64,
            }),
            final(self).task == old(self).task,
            final(self).username_to_snipe == old(self).username_to_snipe,
            final(self).config == old(self).config,
            final(self).giftcode == old(self).giftcode,
            final(self).name == old(self).name,
    {
        self.offset = match measured {
            Some(m) => m,
            None => self.config.offset as i64,
        };
    }

    /// The timing of a snipe of a name that drops at `droptime_ms`, seen at
    /// `now_ms`: the time left is told in seconds under a minute and in whole
    /// minutes otherwise; the request completes `offset` ms before the drop,
    /// and the account is signed in again eight hours before the snipe when
    /// that moment is still ahead.
    pub fn snipe_schedule(&self, droptime_ms: i64, now_ms: i64) -> (r: Option<SnipeSchedule>)
        ensures
            ({
                let left = droptime_ms - now_ms;
                let snipe = droptime_ms - self.offset;
                let setup = snipe - SETUP_LEAD_MINUTES * 60000;
                if i64::MIN <= left <= i64::MAX && i64::MIN <= setup && snipe <= i64::MAX {
                    r matches Some(s) && s.snipe_ms == snipe && s.setup_ms == setup && s.setup_again == (now_ms
                        < setup) && s.time_left == (if left < 60000 {
                        TimeLeft::Seconds(trunc_div(left, 1000) as i64)
                    } else {
                        TimeLeft::Minutes(trunc_div(left, 60000) as i64)
                    })
                } else {
                    r is None
                }
            }),
    {
        let left = droptime_ms as i128 - now_ms as i128;
        let snipe = droptime_ms as i128 - self.offset as i128;
        let setup = snipe - 28800000;
        if left < i64::MIN as i128 || left > i64::MAX as i128 || setup < i64::MIN as i128 || snipe
            > i64::MAX as i128 {
            return None;
        }
        let left = left as i64;
        let time_left = if left < 60000 {
            TimeLeft::Seconds(left / 1000)
        } else {
            TimeLeft::Minutes(left / 60000)
        };
        Some(
            SnipeSchedule {
                time_left,
                snipe_ms: snipe as i64,
                setup_ms: setup as i64,
                setup_again: (now_ms as i128) < setup,
            },
        )
    }
}

/// Division rounded towards zero, as Rust's `/` on integers.
pub open spec fn trunc_div(a: int, b: int) -> int {
    if a >= 0 {
        a / b
    } else {
        -((-a) / b)
    }
}


/// Where a run over the names stands: the call it waits for.
#[derive(Clone, Copy, Debug, PartialEq, Eq, Structural)]
pub enum RunStage {
    ChooseNames,
    CheckName,
    Pause,
    FetchDroptime,
    Setup,
    Giftcode,
    Eligibility,
    Offset,
    Snipe,
    Finished,
    Aborted,
}

/// A run of the sniper over its names.
#[derive(Clone, Copy, Debug, PartialEq, Eq, Structural)]
pub struct RunState {
    pub stage: RunStage,
    /// The position of the current name in the list.
    pub index: usize,
    /// How many names there are.
    pub total: usize,
    /// Names are checked for validity first.
    pub check_filter: bool,
}

/// What a run asks for next.
#[derive(Clone, Copy, Debug, PartialEq, Eq, Structural)]
pub enum RunAction {
    /// Take [`Sniper::names_to_snipe`], or ask the user for one name (then
    /// not checked) when it gives none.
    ChooseNames,
    /// Check that the name at `index` is a valid name.
    CheckName { index: usize },
    /// Wait 20 seconds against rate limiting.
    Pause,
    /// Ask when the name at `index` drops.
    FetchDroptime { index: usize },
    /// Sign the account in (see [`Setup`]).
    Setup,
    /// Redeem the configured gift code.
    RedeemGiftcode,
    /// Remind the user to redeem a gift code first.
    RemindGiftcode,
    /// Check that the account may change its name.
    CheckEligibility,
    /// Set the offset ([`Sniper::get_offset`]).
    GetOffset,
    /// Snipe the name at `index` ([`Sniper::snipe_step`]).
    Snipe { index: usize },
    /// The run is over.
    Finish,
    /// A call failed: its error ends the run.
    Abort,
}

/// How the call asked for came back.
#[derive(Clone, Copy, Debug, PartialEq, Eq, Structural)]
pub enum RunEvent {
    /// The names were chosen: how many, and whether they are to be checked.
    NamesChosen { total: usize, check_filter: bool },
    /// The name is (or is not) valid.
    NameChecked(bool),
    /// The pause is over.
    Paused,
    /// The drop time was (or was not) found.
    DroptimeFound(bool),
    /// The call succeeded.
    Done,
    /// The snipe ended: `None` when the name was no longer available, else
    /// whether it was claimed.
    Sniped(Option<bool>),
    /// The call failed.
    Failed,
}

impl RunState {
    pub open spec fn wf(&self) -> bool {
        &&& self.index <= self.total
        &&& (self.stage != RunStage::ChooseNames && self.stage != RunStage::Finished && self.stage
            != RunStage::Aborted) ==> self.index < self.total
        &&& self.stage == RunStage::Giftcode ==> self.index == 0
    }
}

/// A run that has not chosen its names yet.
pub open spec fn run_begin() -> RunState {
    RunState { stage: RunStage::ChooseNames, index: 0, total: 0, check_filter: false }
}

/// Takes up the name at `index`: checked first when names are checked,
/// after a pause unless it is the first; the run ends after the last name.
pub open spec fn run_name(index: int, total: usize, check_filter: bool) -> (RunState, RunAction) {
    if index >= total {
        (RunState { stage: RunStage::Finished, index: total, total, check_filter }, RunAction::Finish)
    } else if check_filter {
        (
            RunState { stage: RunStage::CheckName, index: index as usize, total, check_filter },
            RunAction::CheckName { index: index as usize },
        )
    } else {
        run_checked(index as usize, total, check_filter)
    }
}

/// The name at `index` passed its check.
pub open spec fn run_checked(index: usize, total: usize, check_filter: bool) -> (RunState, RunAction) {
    if index != 0 {
        (RunState { stage: RunStage::Pause, index, total, check_filter }, RunAction::Pause)
    } else {
        (RunState { stage: RunStage::FetchDroptime, index, total, check_filter }, RunAction::FetchDroptime { index })
    }
}

/// The next state and action of a run after `event`.
pub open spec fn run_next(sniper: Sniper, state: RunState, event: RunEvent) -> (RunState, RunAction) {
    let at = |stage: RunStage| RunState { stage, ..state };
    let i = state.index;
    match state.stage {
        RunStage::Finished => (state, RunAction::Finish),
        RunStage::Aborted => (state, RunAction::Abort),
        _ => match event {
            RunEvent::Failed => (at(RunStage::Aborted), RunAction::Abort),
            RunEvent::NamesChosen { total, check_filter } if state.stage == RunStage::ChooseNames => run_name(
                0,
                total,
                check_filter,
            ),
            RunEvent::NameChecked(ok) if state.stage == RunStage::CheckName => if ok {
                run_checked(i, state.total, state.check_filter)
            } else {
                run_name(i + 1, state.total, state.check_filter)
            },
            RunEvent::Paused if state.stage == RunStage::Pause => (
                at(RunStage::FetchDroptime),
                RunAction::FetchDroptime { index: i },
            ),
            RunEvent::DroptimeFound(found) if state.stage == RunStage::FetchDroptime => if found {
                (at(RunStage::Setup), RunAction::Setup)
            } else {
                run_name(i + 1, state.total, state.check_filter)
            },
            RunEvent::Done if state.stage == RunStage::Setup => if sniper.task == SnipeTask::Giftcode && i == 0 {
                if sniper.giftcode is Some {
                    (at(RunStage::Giftcode), RunAction::RedeemGiftcode)
                } else {
                    (at(RunStage::Giftcode), RunAction::RemindGiftcode)
                }
            } else {
                (at(RunStage::Eligibility), RunAction::CheckEligibility)
            },
            RunEvent::Done if state.stage == RunStage::Giftcode || state.stage == RunStage::Eligibility => (
                at(RunStage::Offset),
                RunAction::GetOffset,
            ),
            RunEvent::Done if state.stage == RunStage::Offset => (at(RunStage::Snipe), RunAction::Snipe { index: i }),
            RunEvent::Sniped(outcome) if state.stage == RunStage::Snipe => if outcome == Some(true) {
                (at(RunStage::Finished), RunAction::Finish)
            } else {
                run_name(i + 1, state.total, state.check_filter)
            },
            _ => (state, run_action_of(sniper, state)),
        },
    }
}

/// The action a run waits on at its stage.
pub open spec fn run_action_of(sniper: Sniper, state: RunState) -> RunAction {
    match state.stage {
        RunStage::ChooseNames => RunAction::ChooseNames,
        RunStage::CheckName => RunAction::CheckName { index: state.index },
        RunStage::Pause => RunAction::Pause,
        RunStage::FetchDroptime => RunAction::FetchDroptime { index: state.index },
        RunStage::Setup => RunAction::Setup,
        RunStage::Giftcode => if sniper.giftcode is Some {
            RunAction::RedeemGiftcode
        } else {
            RunAction::RemindGiftcode
        },
        RunStage::Eligibility => RunAction::CheckEligibility,
        RunStage::Offset => RunAction::GetOffset,
        RunStage::Snipe => RunAction::Snipe { index: state.index },
        RunStage::Finished => RunAction::Finish,
        RunStage::Aborted => RunAction::Abort,
    }
}

fn run_name_exec(index: usize, total: usize, check_filter: bool) -> (r: (RunState, RunAction))
    requires
        index <= total,
    ensures
        r == run_name(index as int, total, check_filter),
        r.0.wf(),
{
    if index >= total {
        (RunState { stage: RunStage::Finished, index: total, total, check_filter }, RunAction::Finish)
    } else if check_filter {
        (RunState { stage: RunStage::CheckName, index, total, check_filter }, RunAction::CheckName { index })
    } else {
        run_checked_exec(index, total, check_filter)
    }
}

fn run_checked_exec(index: usize, total: usize, check_filter: bool) -> (r: (RunState, RunAction))
    requires
        index < total,
    ensures
        r == run_checked(index, total, check_filter),
        r.0.wf(),
{
    if index != 0 {
        (RunState { stage: RunStage::Pause, index, total, check_filter }, RunAction::Pause)
    } else {
        (RunState { stage: RunStage::FetchDroptime, index, total, check_filter }, RunAction::FetchDroptime { index })
    }
}

fn run_action_of_exec(sniper: &Sniper, state: RunState) -> (r: RunAction)
    ensures
        r == run_action_of(*sniper, state),
{
    match state.stage {
        RunStage::ChooseNames => RunAction::ChooseNames,
        RunStage::CheckName => RunAction::CheckName { index: state.index },
        RunStage::Pause => RunAction::Pause,
        RunStage::FetchDroptime => RunAction::FetchDroptime { index: state.index },
        RunStage::Setup => RunAction::Setup,
        RunStage::Giftcode => if sniper.giftcode.is_some() {
            RunAction::RedeemGiftcode
        } else {
            RunAction::RemindGiftcode
        },
        RunStage::Eligibility => RunAction::CheckEligibility,
        RunStage::Offset => RunAction::GetOffset,
        RunStage::Snipe => RunAction::Snipe { index: state.index },
        RunStage::Finished => RunAction::Finish,
        RunStage::Aborted => RunAction::Abort,
    }
}

impl Sniper {
    /// A run that has not chosen its names yet, and what it asks for first.
    pub fn run_start(&self) -> (r: (RunState, RunAction))
        ensures
            r == (run_begin(), RunAction::ChooseNames),
            r.0.wf(),
    {
        (RunState { stage: RunStage::ChooseNames, index: 0, total: 0, check_filter: false }, RunAction::ChooseNames)
    }

    /// One step of the run over the names: the names are taken in order;
    /// each is checked (when names are checked), preceded by a pause unless
    /// it is the first, and skipped when its drop time cannot be read; then
    /// the account is signed in, the gift code is redeemed (or a reminder
    /// given) on the first name of a gift-code run and the eligibility
    /// checked otherwise, the offset is set, and the name is sniped. The run
    /// ends after the first success, after the last name, or at the first
    /// failed call.
    pub fn run_step(&self, state: RunState, event: RunEvent) -> (r: (RunState, RunAction))
        requires
            state.wf(),
        ensures
            r == run_next(*self, state, event),
            r.0.wf(),
    {
        let i = state.index;
        match state.stage {
            RunStage::Finished => {
                return (state, RunAction::Finish);
            },
            RunStage::Aborted => {
                return (state, RunAction::Abort);
            },
            _ => {},
        }
        match event {
            RunEvent::Failed => (RunState { stage: RunStage::Aborted, ..state }, RunAction::Abort),
            RunEvent::NamesChosen { total, check_filter } if state.stage == RunStage::ChooseNames => run_name_exec(
                0,
                total,
                check_filter,
            ),
            RunEvent::NameChecked(ok) if state.stage == RunStage::CheckName => if ok {
                run_checked_exec(i, state.total, state.check_filter)
            } else {
                run_name_exec(i + 1, state.total, state.check_filter)
            },
            RunEvent::Paused if state.stage == RunStage::Pause => (
                RunState { stage: RunStage::FetchDroptime, ..state },
                RunAction::FetchDroptime { index: i },
            ),
            RunEvent::DroptimeFound(found) if state.stage == RunStage::FetchDroptime => if found {
                (RunState { stage: RunStage::Setup, ..state }, RunAction::Setup)
            } else {
                run_name_exec(i + 1, state.total, state.check_filter)
            },
            RunEvent::Done if state.stage == RunStage::Setup => if self.task == SnipeTask::Giftcode && i == 0 {
                if self.giftcode.is_some() {
                    (RunState { stage: RunStage::Giftcode, ..state }, RunAction::RedeemGiftcode)
                } else {
                    (RunState { stage: RunStage::Giftcode, ..state }, RunAction::RemindGiftcode)
                }
            } else {
                (RunState { stage: RunStage::Eligibility, ..state }, RunAction::CheckEligibility)
            },
            RunEvent::Done if state.stage == RunStage::Giftcode || state.stage == RunStage::Eligibility => (
                RunState { stage: RunStage::Offset, ..state },
                RunAction::GetOffset,
            ),
            RunEvent::Done if state.stage == RunStage::Offset => (
                RunState { stage: RunStage::Snipe, ..state },
                RunAction::Snipe { index: i },
            ),
            RunEvent::Sniped(outcome) if state.stage == RunStage::Snipe => if outcome == Some(true) {
                (RunState { stage: RunStage::Finished, ..state }, RunAction::Finish)
            } else {
                run_name_exec(i + 1, state.total, state.check_filter)
            },
            _ => (state, run_action_of_exec(self, state)),
        }
    }
}


/// Where a snipe stands: the call it waits for.
#[derive(Clone, Copy, Debug, PartialEq, Eq, Structural)]
pub enum SnipeStage {
    Begin,
    SleepUntilSetup,
    Setup,
    Recheck,
    Eligibility,
    Execute,
    UploadSkin,
    Finished,
    Aborted,
}

/// One snipe of a name.
#[derive(Clone, Copy, Debug, PartialEq, Eq, Structural)]
pub struct SnipeState {
    pub stage: SnipeStage,
    /// When the requests complete (ms since the Unix epoch).
    pub snipe_ms: i64,
    /// When the account is signed in again (ms since the Unix epoch).
    pub setup_ms: i64,
    /// How the snipe ended, once it has.
    pub outcome: Option<bool>,
}

/// What a snipe asks for next.
#[derive(Clone, Copy, Debug, PartialEq, Eq, Structural)]
pub enum SnipeAction {
    /// Sleep until the moment to sign in again.
    SleepUntil { ms: i64 },
    /// Sign the account in again (see [`Setup`]).
    Setup,
    /// Ask again whether the name drops.
    RecheckDroptime,
    /// Check that the account may change its name.
    CheckEligibility,
    /// Send the requests, timed to complete at `snipe_ms`.
    Execute { snipe_ms: i64 },
    /// Upload the configured skin.
    UploadSkin,
    /// The snipe is over: `None` when the name was no longer available,
    /// else whether it was claimed.
    Finish(Option<bool>),
    /// A call failed: its error ends the snipe.
    Abort,
}

/// How the call asked for came back.
#[derive(Clone, Copy, Debug, PartialEq, Eq, Structural)]
pub enum SnipeEvent {
    /// The snipe starts for a name dropping at `droptime_ms`, seen at `now_ms`.
    Start { droptime_ms: i64, now_ms: i64 },
    /// The sleep is over.
    Slept,
    /// The call succeeded.
    Done,
    /// The name still drops (or not).
    DroptimeFound(bool),
    /// The requests went out; whether the name was claimed.
    Sniped(bool),
    /// The call failed.
    Failed,
}

/// The times of a snipe starting at `now_ms` fit the clock.
pub open spec fn schedule_fits(offset: i64, droptime_ms: i64, now_ms: i64) -> bool {
    let left = droptime_ms - now_ms;
    let snipe = droptime_ms - offset;
    let setup = snipe - SETUP_LEAD_MINUTES * 60000;
    i64::MIN <= left <= i64::MAX && i64::MIN <= setup && snipe <= i64::MAX
}

/// A snipe that has not started.
pub open spec fn snipe_begin() -> SnipeState {
    SnipeState { stage: SnipeStage::Begin, snipe_ms: 0, setup_ms: 0, outcome: None }
}

/// The action a snipe waits on at its stage.
pub open spec fn snipe_action_of(state: SnipeState) -> SnipeAction {
    match state.stage {
        SnipeStage::Begin => SnipeAction::Abort,
        SnipeStage::SleepUntilSetup => SnipeAction::SleepUntil { ms: state.setup_ms },
        SnipeStage::Setup => SnipeAction::Setup,
        SnipeStage::Recheck => SnipeAction::RecheckDroptime,
        SnipeStage::Eligibility => SnipeAction::CheckEligibility,
        SnipeStage::Execute => SnipeAction::Execute { snipe_ms: state.snipe_ms },
        SnipeStage::UploadSkin => SnipeAction::UploadSkin,
        SnipeStage::Finished => SnipeAction::Finish(state.outcome),
        SnipeStage::Aborted => SnipeAction::Abort,
    }
}

/// The requests go out next, after the eligibility check unless gift-code
/// sniping.
pub open spec fn snipe_after_recheck(sniper: Sniper, state: SnipeState) -> (SnipeState, SnipeAction) {
    if sniper.task != SnipeTask::Giftcode {
        (SnipeState { stage: SnipeStage::Eligibility, ..state }, SnipeAction::CheckEligibility)
    } else {
        (SnipeState { stage: SnipeStage::Execute, ..state }, SnipeAction::Execute { snipe_ms: state.snipe_ms })
    }
}

/// The next state and action of a snipe after `event`.
pub open spec fn snipe_next(sniper: Sniper, state: SnipeState, event: SnipeEvent) -> (SnipeState, SnipeAction) {
    let at = |stage: SnipeStage| SnipeState { stage, ..state };
    match state.stage {
        SnipeStage::Finished => (state, snipe_action_of(state)),
        SnipeStage::Aborted => (state, SnipeAction::Abort),
        _ => match event {
            SnipeEvent::Failed => (at(SnipeStage::Aborted), SnipeAction::Abort),
            SnipeEvent::Start { droptime_ms, now_ms } if state.stage == SnipeStage::Begin => {
                let snipe = (droptime_ms - sniper.offset) as i64;
                let setup = (droptime_ms - sniper.offset - SETUP_LEAD_MINUTES * 60000) as i64;
                if now_ms < setup {
                    (
                        SnipeState { stage: SnipeStage::SleepUntilSetup, snipe_ms: snipe, setup_ms: setup, outcome: None },
                        SnipeAction::SleepUntil { ms: setup },
                    )
                } else {
                    (
                        SnipeState { stage: SnipeStage::Recheck, snipe_ms: snipe, setup_ms: setup, outcome: None },
                        SnipeAction::RecheckDroptime,
                    )
                }
            },
            SnipeEvent::Slept if state.stage == SnipeStage::SleepUntilSetup => (at(SnipeStage::Setup), SnipeAction::Setup),
            SnipeEvent::Done if state.stage == SnipeStage::Setup => (at(SnipeStage::Recheck), SnipeAction::RecheckDroptime),
            SnipeEvent::DroptimeFound(found) if state.stage == SnipeStage::Recheck => if found {
                snipe_after_recheck(sniper, state)
            } else {
                (SnipeState { stage: SnipeStage::Finished, outcome: None, ..state }, SnipeAction::Finish(None))
            },
            SnipeEvent::Done if state.stage == SnipeStage::Eligibility => (
                at(SnipeStage::Execute),
                SnipeAction::Execute { snipe_ms: state.snipe_ms },
            ),
            SnipeEvent::Sniped(claimed) if state.stage == SnipeStage::Execute => if claimed && sniper.config.skin is Some {
                (at(SnipeStage::UploadSkin), SnipeAction::UploadSkin)
            } else {
                (SnipeState { stage: SnipeStage::Finished, outcome: Some(claimed), ..state }, SnipeAction::Finish(Some(claimed)))
            },
            SnipeEvent::Done if state.stage == SnipeStage::UploadSkin => (
                SnipeState { stage: SnipeStage::Finished, outcome: Some(true), ..state },
                SnipeAction::Finish(Some(true)),
            ),
            _ => (state, snipe_action_of(state)),
        },
    }
}

fn snipe_action_of_exec(state: SnipeState) -> (r: SnipeAction)
    ensures
        r == snipe_action_of(state),
{
    match state.stage {
        SnipeStage::Begin => SnipeAction::Abort,
        SnipeStage::SleepUntilSetup => SnipeAction::SleepUntil { ms: state.setup_ms },
        SnipeStage::Setup => SnipeAction::Setup,
        SnipeStage::Recheck => SnipeAction::RecheckDroptime,
        SnipeStage::Eligibility => SnipeAction::CheckEligibility,
        SnipeStage::Execute => SnipeAction::Execute { snipe_ms: state.snipe_ms },
        SnipeStage::UploadSkin => SnipeAction::UploadSkin,
        SnipeStage::Finished => SnipeAction::Finish(state.outcome),
        SnipeStage::Aborted => SnipeAction::Abort,
    }
}

impl Sniper {
    /// A snipe that has not started.
    pub fn snipe_start(&self) -> (r: SnipeState)
        ensures
            r == snipe_begin(),
    {
        SnipeState { stage: SnipeStage::Begin, snipe_ms: 0, setup_ms: 0, outcome: None }
    }

    /// One step of a snipe: the requests complete `offset` ms before the
    /// drop; when the sign-in time (eight hours before) is still ahead, the
    /// sniper sleeps until then and signs in again; the drop time is then
    /// asked again and the snipe ends with no result when the name no longer
    /// drops; the eligibility is checked unless gift-code sniping; the
    /// requests are sent; and the skin is uploaded exactly when the name was
    /// claimed and a skin is configured. The first failed call ends it.
    pub fn snipe_step(&self, state: SnipeState, event: SnipeEvent) -> (r: (SnipeState, SnipeAction))
        requires
            state.stage == SnipeStage::Begin ==> (event matches SnipeEvent::Start { droptime_ms, now_ms }
                ==> schedule_fits(self.offset, droptime_ms, now_ms)),
        ensures
            r == snipe_next(*self, state, event),
    {
        match state.stage {
            SnipeStage::Finished => {
                return (state, snipe_action_of_exec(state));
            },
            SnipeStage::Aborted => {
                return (state, SnipeAction::Abort);
            },
            _ => {},
        }
        match event {
            SnipeEvent::Failed => (SnipeState { stage: SnipeStage::Aborted, ..state }, SnipeAction::Abort),
            SnipeEvent::Start { droptime_ms, now_ms } if state.stage == SnipeStage::Begin => {
                let sched = self.snipe_schedule(droptime_ms, now_ms).unwrap();
                if now_ms < sched.setup_ms {
                    (
                        SnipeState {
                            stage: SnipeStage::SleepUntilSetup,
                            snipe_ms: sched.snipe_ms,
                            setup_ms: sched.setup_ms,
                            outcome: None,
                        },
                        SnipeAction::SleepUntil { ms: sched.setup_ms },
                    )
                } else {
                    (
                        SnipeState { stage: SnipeStage::Recheck, snipe_ms: sched.snipe_ms, setup_ms: sched.setup_ms, outcome: None },
                        SnipeAction::RecheckDroptime,
                    )
                }
            },
            SnipeEvent::Slept if state.stage == SnipeStage::SleepUntilSetup => (
                SnipeState { stage: SnipeStage::Setup, ..state },
                SnipeAction::Setup,
            ),
            SnipeEvent::Done if state.stage == SnipeStage::Setup => (
                SnipeState { stage: SnipeStage::Recheck, ..state },
                SnipeAction::RecheckDroptime,
            ),
            SnipeEvent::DroptimeFound(found) if state.stage == SnipeStage::Recheck => if found {
                if self.task != SnipeTask::Giftcode {
                    (SnipeState { stage: SnipeStage::Eligibility, ..state }, SnipeAction::CheckEligibility)
                } else {
                    (
                        SnipeState { stage: SnipeStage::Execute, ..state },
                        SnipeAction::Execute { snipe_ms: state.snipe_ms },
                    )
                }
            } else {
                (SnipeState { stage: SnipeStage::Finished, outcome: None, ..state }, SnipeAction::Finish(None))
            },
            SnipeEvent::Done if state.stage == SnipeStage::Eligibility => (
                SnipeState { stage: SnipeStage::Execute, ..state },
                SnipeAction::Execute { snipe_ms: state.snipe_ms },
            ),
            SnipeEvent::Sniped(claimed) if state.stage == SnipeStage::Execute => if claimed
                && self.config.skin.is_some() {
                (SnipeState { stage: SnipeStage::UploadSkin, ..state }, SnipeAction::UploadSkin)
            } else {
                (SnipeState { stage: SnipeStage::Finished, outcome: Some(claimed), ..state }, SnipeAction::Finish(Some(claimed)))
            },
            SnipeEvent::Done if state.stage == SnipeStage::UploadSkin => (
                SnipeState { stage: SnipeStage::Finished, outcome: Some(true), ..state },
                SnipeAction::Finish(Some(true)),
            ),
            _ => (state, snipe_action_of_exec(state)),
        }
    }
}

} // verus!
