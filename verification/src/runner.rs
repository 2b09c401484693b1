use vstd::prelude::*;
use crate::config::Config;
use crate::text::copy_strings;

verus! {

/// How names are claimed.
#[derive(Clone, Copy, Debug, PartialEq, Eq, Structural)]
pub enum SnipeTask {
    Mojang,
    Microsoft,
    Giftcode,
}

/// Sign-in attempts with Microsoft before giving up.
pub const MAX_AUTH_ATTEMPTS: u32 = 3;

/// Minutes between a repeated sign-in and the snipe.
pub const SETUP_LEAD_MINUTES: i64 = 480;

/// What to do after a Microsoft sign-in failed with an error worth retrying.
#[derive(Clone, Copy, Debug, PartialEq, Eq, Structural)]
pub enum RetryDecision {
    /// Wait ten seconds and try again.
    RetryAfterWait,
    /// Wait ten seconds and give up: "Authentication failed."
    GiveUpAfterWait,
}

/// A sniper that works through its names with one account.
pub struct Sniper {
    pub task: SnipeTask,
    pub username_to_snipe: Option<String>,
    pub config: Config,
}

impl Sniper {
    /// A sniper for `task`.
    pub fn new(task: SnipeTask, username_to_snipe: Option<String>, config: Config) -> (s: Sniper)
        ensures
            s.task == task,
            s.username_to_snipe == username_to_snipe,
            s.config == config,
    {
        Sniper { task, username_to_snipe, config }
    }

    /// The names to snipe: the given name, else the (non-empty) name queue;
    /// `None` when the user has to be asked.
    pub fn names_to_snipe(&self) -> (r: Option<Vec<String>>)
        ensures
            self.username_to_snipe matches Some(u) ==> (r matches Some(v) && v@ == seq![u]),
            self.username_to_snipe is None ==> match self.config.name_queue {
                Some(q) => if q.queue@.len() > 0 {
                    r matches Some(v) && v@ == q.queue@
                } else {
                    r is None
                },
                None => r is None,
            },
    {
        match &self.username_to_snipe {
            Some(u) => {
                let mut v: Vec<String> = Vec::new();
                v.push(u.clone());
                Some(v)
            },
            None => match &self.config.name_queue {
                Some(q) => {
                    if q.queue.len() > 0 {
                        Some(copy_strings(&q.queue))
                    } else {
                        None
                    }
                },
                None => None,
            },
        }
    }

    /// When the requests complete (`offset` ms before the drop) and when
    /// the account is signed in again (eight hours before that), in ms
    /// since the Unix epoch; `None` when a time does not fit.
    pub fn snipe_times(&self, droptime_ms: i64, offset: i64) -> (r: Option<(i64, i64)>)
        ensures
            i64::MIN <= droptime_ms - offset - SETUP_LEAD_MINUTES * 60000 && droptime_ms - offset <= i64::MAX
                ==> r == Some(
                ((droptime_ms - offset) as i64, (droptime_ms - offset - SETUP_LEAD_MINUTES * 60000) as i64),
            ),
            !(i64::MIN <= droptime_ms - offset - SETUP_LEAD_MINUTES * 60000 && droptime_ms - offset
                <= i64::MAX) ==> r is None,
    {
        let snipe = droptime_ms as i128 - offset as i128;
        let setup = snipe - 28800000;
        if setup < i64::MIN as i128 || snipe > i64::MAX as i128 {
            None
        } else {
            Some((snipe as i64, setup as i64))
        }
    }
}

/// After the `attempt`-th Microsoft sign-in failed with an error worth
/// retrying: try again, unless that was the third attempt.
pub fn after_auth_failure(attempt: u32) -> (r: RetryDecision)
    ensures
        attempt == MAX_AUTH_ATTEMPTS ==> r == RetryDecision::GiveUpAfterWait,
        attempt != MAX_AUTH_ATTEMPTS ==> r == RetryDecision::RetryAfterWait,
{
    if attempt == MAX_AUTH_ATTEMPTS {
        RetryDecision::GiveUpAfterWait
    } else {
        RetryDecision::RetryAfterWait
    }
}

/// Whether the closing note that no name was sniped is due: nothing was
/// sniped and more than one name was tried.
pub fn report_no_success(is_success: bool, names_tried: usize) -> (r: bool)
    ensures
        r == (!is_success && names_tried > 1),
{
    !is_success && names_tried > 1
}


/// The same mode in the account sign-in's terms.
pub open spec fn logic_task(task: SnipeTask) -> crate::logic::SnipeTask {
    match task {
        SnipeTask::Mojang => crate::logic::SnipeTask::Mojang,
        SnipeTask::Microsoft => crate::logic::SnipeTask::Microsoft,
        SnipeTask::Giftcode => crate::logic::SnipeTask::Giftcode,
    }
}

impl Sniper {
    /// Starts signing the account in: with Mojang for Mojang sniping, with
    /// Microsoft otherwise (see [`crate::logic::Setup`]). A Microsoft sign-in
    /// that fails with an error worth retrying is started again as
    /// [`after_auth_failure`] decides.
    pub fn setup(&self) -> (r: crate::logic::Setup)
        ensures
            r.task == logic_task(self.task),
            r.stage == crate::logic::SetupStage::Start,
    {
        let task = match self.task {
            SnipeTask::Mojang => crate::logic::SnipeTask::Mojang,
            SnipeTask::Microsoft => crate::logic::SnipeTask::Microsoft,
            SnipeTask::Giftcode => crate::logic::SnipeTask::Giftcode,
        };
        crate::logic::Setup { task, stage: crate::logic::SetupStage::Start }
    }
}

/// Where an execution over the names stands: the call it waits for.
#[derive(Clone, Copy, Debug, PartialEq, Eq, Structural)]
pub enum ExecStage {
    ChooseNames,
    Setup,
    AskGiftcode,
    Prepare,
    MeasureOffset,
    Snipe,
    Finished,
}

/// An execution of the sniper over its names.
#[derive(Clone, Copy, Debug, PartialEq, Eq, Structural)]
pub struct ExecState {
    pub stage: ExecStage,
    /// The position of the current name in the list.
    pub index: usize,
    /// How many names there are.
    pub total: usize,
    /// The offset is measured before each snipe.
    pub auto_offset: bool,
    /// A gift code is redeemed while preparing.
    pub redeem: bool,
    /// The offset of the current snipe, in ms.
    pub offset: i64,
    /// The closing note that nothing was sniped is due (once finished).
    pub report: bool,
}

/// What an execution asks for next.
#[derive(Clone, Copy, Debug, PartialEq, Eq, Structural)]
pub enum ExecAction {
    /// Take [`Sniper::names_to_snipe`], or ask the user for one name when it
    /// gives none.
    ChooseNames,
    /// Tell that the name at `index` is taken up ("Initialising..." for the
    /// first, "Moving on to next name..." otherwise) and sign the account in.
    Setup { index: usize, first: bool },
    /// Ask the user for a gift code.
    AskGiftcode,
    /// Ask when the name at `index` drops, and at the same time redeem the
    /// gift code or check the eligibility, as told.
    Prepare { index: usize, redeem_giftcode: bool, check_eligibility: bool },
    /// Measure the offset with a timed request of the mode's kind.
    MeasureOffset { giftcode: bool },
    /// Snipe the name at `index` with this offset ([`Sniper::snipe_step`]).
    Snipe { index: usize, offset: i64 },
    /// The execution is over; `report` asks for the closing note that no
    /// name was sniped.
    Finish { report: bool },
}

/// How the call asked for came back.
#[derive(Clone, Copy, Debug, PartialEq, Eq, Structural)]
pub enum ExecEvent {
    /// The names were chosen: how many, and whether the offset is measured.
    NamesChosen { total: usize, auto_offset: bool },
    /// The call is done.
    Done,
    /// The user gave (or did not give) a gift code.
    Giftcode(bool),
    /// The offset measured.
    OffsetMeasured(i32),
    /// The snipe ended; whether the name was claimed.
    Sniped(bool),
}

impl ExecState {
    pub open spec fn wf(&self) -> bool {
        &&& self.index <= self.total
        &&& (self.stage != ExecStage::ChooseNames && self.stage != ExecStage::Finished) ==> self.index < self.total
        &&& self.report ==> self.total > 1
    }
}

/// Takes up the name at `index`, or ends after the last one.
pub open spec fn exec_name(state: ExecState, index: int) -> (ExecState, ExecAction) {
    if index >= state.total {
        let report = state.total > 1;
        (
            ExecState { stage: ExecStage::Finished, index: state.total, report, ..state },
            ExecAction::Finish { report },
        )
    } else {
        (
            ExecState { stage: ExecStage::Setup, index: index as usize, report: false, ..state },
            ExecAction::Setup { index: index as usize, first: index == 0 },
        )
    }
}

/// The action an execution waits on at its stage.
pub open spec fn exec_action_of(sniper: Sniper, state: ExecState) -> ExecAction {
    match state.stage {
        ExecStage::ChooseNames => ExecAction::ChooseNames,
        ExecStage::Setup => ExecAction::Setup { index: state.index, first: state.index == 0 },
        ExecStage::AskGiftcode => ExecAction::AskGiftcode,
        ExecStage::Prepare => ExecAction::Prepare {
            index: state.index,
            redeem_giftcode: state.redeem,
            check_eligibility: sniper.task != SnipeTask::Giftcode,
        },
        ExecStage::MeasureOffset => ExecAction::MeasureOffset { giftcode: sniper.task == SnipeTask::Giftcode },
        ExecStage::Snipe => ExecAction::Snipe { index: state.index, offset: state.offset },
        ExecStage::Finished => ExecAction::Finish { report: state.report },
    }
}

/// The next state and action of an execution after `event`.
pub open spec fn execute_next(sniper: Sniper, state: ExecState, event: ExecEvent) -> (ExecState, ExecAction) {
    let gc = sniper.task == SnipeTask::Giftcode;
    match state.stage {
        ExecStage::Finished => (state, exec_action_of(sniper, state)),
        _ => match event {
            ExecEvent::NamesChosen { total, auto_offset } if state.stage == ExecStage::ChooseNames => exec_name(
                ExecState { total, auto_offset, ..state },
                0,
            ),
            ExecEvent::Done if state.stage == ExecStage::Setup => if gc {
                (ExecState { stage: ExecStage::AskGiftcode, ..state }, ExecAction::AskGiftcode)
            } else {
                (
                    ExecState { stage: ExecStage::Prepare, redeem: false, ..state },
                    ExecAction::Prepare { index: state.index, redeem_giftcode: false, check_eligibility: true },
                )
            },
            ExecEvent::Giftcode(has) if state.stage == ExecStage::AskGiftcode => (
                ExecState { stage: ExecStage::Prepare, redeem: has, ..state },
                ExecAction::Prepare { index: state.index, redeem_giftcode: has, check_eligibility: false },
            ),
            ExecEvent::Done if state.stage == ExecStage::Prepare => if state.auto_offset {
                (ExecState { stage: ExecStage::MeasureOffset, ..state }, ExecAction::MeasureOffset { giftcode: gc })
            } else {
                (
                    ExecState { stage: ExecStage::Snipe, offset: sniper.config.offset as i64, ..state },
                    ExecAction::Snipe { index: state.index, offset: sniper.config.offset as i64 },
                )
            },
            ExecEvent::OffsetMeasured(o) if state.stage == ExecStage::MeasureOffset => (
                ExecState { stage: ExecStage::Snipe, offset: o as i64, ..state },
                ExecAction::Snipe { index: state.index, offset: o as i64 },
            ),
            ExecEvent::Sniped(claimed) if state.stage == ExecStage::Snipe => if claimed {
                (ExecState { stage: ExecStage::Finished, report: false, ..state }, ExecAction::Finish { report: false })
            } else {
                exec_name(state, state.index + 1)
            },
            _ => (state, exec_action_of(sniper, state)),
        },
    }
}

fn exec_name_exec(state: ExecState, index: usize) -> (r: (ExecState, ExecAction))
    requires
        index <= state.total,
    ensures
        r == exec_name(state, index as int),
        r.0.wf(),
{
    if index >= state.total {
        let report = report_no_success(false, state.total);
        (ExecState { stage: ExecStage::Finished, index: state.total, report, ..state }, ExecAction::Finish { report })
    } else {
        (ExecState { stage: ExecStage::Setup, index, report: false, ..state }, ExecAction::Setup { index, first: index == 0 })
    }
}

fn exec_action_of_exec(sniper: &Sniper, state: ExecState) -> (r: ExecAction)
    ensures
        r == exec_action_of(*sniper, state),
{
    match state.stage {
        ExecStage::ChooseNames => ExecAction::ChooseNames,
        ExecStage::Setup => ExecAction::Setup { index: state.index, first: state.index == 0 },
        ExecStage::AskGiftcode => ExecAction::AskGiftcode,
        ExecStage::Prepare => ExecAction::Prepare {
            index: state.index,
            redeem_giftcode: state.redeem,
            check_eligibility: sniper.task != SnipeTask::Giftcode,
        },
        ExecStage::MeasureOffset => ExecAction::MeasureOffset { giftcode: sniper.task == SnipeTask::Giftcode },
        ExecStage::Snipe => ExecAction::Snipe { index: state.index, offset: state.offset },
        ExecStage::Finished => ExecAction::Finish { report: state.report },
    }
}

impl Sniper {
    /// An execution that has not chosen its names yet, and what it asks for
    /// first.
    pub fn execute_start(&self) -> (r: (ExecState, ExecAction))
        ensures
            r.0 == (ExecState {
                stage: ExecStage::ChooseNames,
                index: 0,
                total: 0,
                auto_offset: false,
                redeem: false,
                offset: 0,
                report: false,
            }),
            r.1 == ExecAction::ChooseNames,
            r.0.wf(),
    {
        (
            ExecState {
                stage: ExecStage::ChooseNames,
                index: 0,
                total: 0,
                auto_offset: false,
                redeem: false,
                offset: 0,
                report: false,
            },
            ExecAction::ChooseNames,
        )
    }

    /// One step of the execution over the names: for each name in order the
    /// account is signed in first; a gift-code run then asks for a gift code
    /// and redeems it (when given) while asking for the drop time, another
    /// run checks the eligibility while asking for it; the offset is the
    /// measured one when auto offset is on and the configured one otherwise;
    /// then the name is sniped. The execution stops after the first success;
    /// the closing note is due exactly when nothing was sniped and more than
    /// one name was tried.
    pub fn execute_step(&self, state: ExecState, event: ExecEvent) -> (r: (ExecState, ExecAction))
        requires
            state.wf(),
        ensures
            r == execute_next(*self, state, event),
            r.0.wf(),
    {
        let gc = self.task == SnipeTask::Giftcode;
        if state.stage == ExecStage::Finished {
            return (state, exec_action_of_exec(self, state));
        }
        match event {
            ExecEvent::NamesChosen { total, auto_offset } if state.stage == ExecStage::ChooseNames => exec_name_exec(
                ExecState { total, auto_offset, ..state },
                0,
            ),
            ExecEvent::Done if state.stage == ExecStage::Setup => if gc {
                (ExecState { stage: ExecStage::AskGiftcode, ..state }, ExecAction::AskGiftcode)
            } else {
                (
                    ExecState { stage: ExecStage::Prepare, redeem: false, ..state },
                    ExecAction::Prepare { index: state.index, redeem_giftcode: false, check_eligibility: true },
                )
            },
            ExecEvent::Giftcode(has) if state.stage == ExecStage::AskGiftcode => (
                ExecState { stage: ExecStage::Prepare, redeem: has, ..state },
                ExecAction::Prepare { index: state.index, redeem_giftcode: has, check_eligibility: false },
            ),
            ExecEvent::Done if state.stage == ExecStage::Prepare => if state.auto_offset {
                (ExecState { stage: ExecStage::MeasureOffset, ..state }, ExecAction::MeasureOffset { giftcode: gc })
            } else {
                let offset = self.config.offset as i64;
                (ExecState { stage: ExecStage::Snipe, offset, ..state }, ExecAction::Snipe { index: state.index, offset })
            },
            ExecEvent::OffsetMeasured(o) if state.stage == ExecStage::MeasureOffset => (
                ExecState { stage: ExecStage::Snipe, offset: o as i64, ..state },
                ExecAction::Snipe { index: state.index, offset: o as i64 },
            ),
            ExecEvent::Sniped(claimed) if state.stage == ExecStage::Snipe => if claimed {
                (ExecState { stage: ExecStage::Finished, report: false, ..state }, ExecAction::Finish { report: false })
            } else {
                exec_name_exec(state, state.index + 1)
            },
            _ => (state, exec_action_of_exec(self, state)),
        }
    }
}


/// Where one snipe of the runner stands: the call it waits for.
#[derive(Clone, Copy, Debug, PartialEq, Eq, Structural)]
pub enum RunnerSnipeStage {
    Begin,
    SleepUntilSetup,
    Setup,
    Refresh,
    Execute,
    Searches,
    UploadSkin,
    Finished,
}

/// One snipe of the runner.
#[derive(Clone, Copy, Debug, PartialEq, Eq, Structural)]
pub struct RunnerSnipeState {
    pub stage: RunnerSnipeStage,
    /// When the requests complete (ms since the Unix epoch).
    pub snipe_ms: i64,
    /// When the account is signed in again (ms since the Unix epoch).
    pub setup_ms: i64,
    /// Whether the name was claimed (once known).
    pub claimed: bool,
}

/// What a snipe of the runner asks for next.
#[derive(Clone, Copy, Debug, PartialEq, Eq, Structural)]
pub enum RunnerSnipeAction {
    /// Sleep until the moment to sign in again.
    SleepUntil { ms: i64 },
    /// Sign the account in again ([`Sniper::setup`]); its new token is used.
    Setup,
    /// Ask again when the name drops, and at the same time check the
    /// eligibility when told.
    Refresh { check_eligibility: bool },
    /// Send the requests (profile creations for gift-code sniping, name
    /// changes otherwise), timed to complete at `snipe_ms`.
    Execute { snipe_ms: i64, giftcode: bool },
    /// Ask how often the claimed name was searched.
    RecordSearches,
    /// Upload the configured skin.
    UploadSkin,
    /// The snipe is over; whether the name was claimed.
    Finish(bool),
}

/// How the call asked for came back.
#[derive(Clone, Copy, Debug, PartialEq, Eq, Structural)]
pub enum RunnerSnipeEvent {
    /// The snipe starts for a name dropping at `droptime_ms`, with `offset`,
    /// seen at `now_ms`.
    Start { droptime_ms: i64, offset: i64, now_ms: i64 },
    /// The call is done.
    Done,
    /// The requests went out; whether the name was claimed.
    Sniped(bool),
}

/// The times of a runner snipe fit the clock.
pub open spec fn runner_times_fit(droptime_ms: i64, offset: i64) -> bool {
    i64::MIN <= droptime_ms - offset - SETUP_LEAD_MINUTES * 60000 && droptime_ms - offset <= i64::MAX
}

/// The action a runner snipe waits on at its stage.
pub open spec fn runner_snipe_action_of(sniper: Sniper, state: RunnerSnipeState) -> RunnerSnipeAction {
    match state.stage {
        RunnerSnipeStage::Begin => RunnerSnipeAction::Finish(false),
        RunnerSnipeStage::SleepUntilSetup => RunnerSnipeAction::SleepUntil { ms: state.setup_ms },
        RunnerSnipeStage::Setup => RunnerSnipeAction::Setup,
        RunnerSnipeStage::Refresh => RunnerSnipeAction::Refresh {
            check_eligibility: sniper.task != SnipeTask::Giftcode,
        },
        RunnerSnipeStage::Execute => RunnerSnipeAction::Execute {
            snipe_ms: state.snipe_ms,
            giftcode: sniper.task == SnipeTask::Giftcode,
        },
        RunnerSnipeStage::Searches => RunnerSnipeAction::RecordSearches,
        RunnerSnipeStage::UploadSkin => RunnerSnipeAction::UploadSkin,
        RunnerSnipeStage::Finished => RunnerSnipeAction::Finish(state.claimed),
    }
}

/// The next state and action of a runner snipe after `event`.
pub open spec fn runner_snipe_next(sniper: Sniper, state: RunnerSnipeState, event: RunnerSnipeEvent) -> (
    RunnerSnipeState,
    RunnerSnipeAction,
) {
    let gc = sniper.task == SnipeTask::Giftcode;
    let at = |stage: RunnerSnipeStage| RunnerSnipeState { stage, ..state };
    match state.stage {
        RunnerSnipeStage::Finished => (state, runner_snipe_action_of(sniper, state)),
        _ => match event {
            RunnerSnipeEvent::Start { droptime_ms, offset, now_ms } if state.stage == RunnerSnipeStage::Begin => {
                let snipe = (droptime_ms - offset) as i64;
                let setup = (droptime_ms - offset - SETUP_LEAD_MINUTES * 60000) as i64;
                if now_ms < setup {
                    (
                        RunnerSnipeState {
                            stage: RunnerSnipeStage::SleepUntilSetup,
                            snipe_ms: snipe,
                            setup_ms: setup,
                            claimed: false,
                        },
                        RunnerSnipeAction::SleepUntil { ms: setup },
                    )
                } else {
                    (
                        RunnerSnipeState { stage: RunnerSnipeStage::Execute, snipe_ms: snipe, setup_ms: setup, claimed: false },
                        RunnerSnipeAction::Execute { snipe_ms: snipe, giftcode: gc },
                    )
                }
            },
            RunnerSnipeEvent::Done if state.stage == RunnerSnipeStage::SleepUntilSetup => (
                at(RunnerSnipeStage::Setup),
                RunnerSnipeAction::Setup,
            ),
            RunnerSnipeEvent::Done if state.stage == RunnerSnipeStage::Setup => (
                at(RunnerSnipeStage::Refresh),
                RunnerSnipeAction::Refresh { check_eligibility: !gc },
            ),
            RunnerSnipeEvent::Done if state.stage == RunnerSnipeStage::Refresh => (
                at(RunnerSnipeStage::Execute),
                RunnerSnipeAction::Execute { snipe_ms: state.snipe_ms, giftcode: gc },
            ),
            RunnerSnipeEvent::Sniped(claimed) if state.stage == RunnerSnipeStage::Execute => if claimed {
                (
                    RunnerSnipeState { stage: RunnerSnipeStage::Searches, claimed: true, ..state },
                    RunnerSnipeAction::RecordSearches,
                )
            } else {
                (
                    RunnerSnipeState { stage: RunnerSnipeStage::Finished, claimed: false, ..state },
                    RunnerSnipeAction::Finish(false),
                )
            },
            RunnerSnipeEvent::Done if state.stage == RunnerSnipeStage::Searches => if sniper.config.skin is Some {
                (at(RunnerSnipeStage::UploadSkin), RunnerSnipeAction::UploadSkin)
            } else {
                (at(RunnerSnipeStage::Finished), RunnerSnipeAction::Finish(state.claimed))
            },
            RunnerSnipeEvent::Done if state.stage == RunnerSnipeStage::UploadSkin => (
                at(RunnerSnipeStage::Finished),
                RunnerSnipeAction::Finish(state.claimed),
            ),
            _ => (state, runner_snipe_action_of(sniper, state)),
        },
    }
}

fn runner_snipe_action_of_exec(sniper: &Sniper, state: RunnerSnipeState) -> (r: RunnerSnipeAction)
    ensures
        r == runner_snipe_action_of(*sniper, state),
{
    match state.stage {
        RunnerSnipeStage::Begin => RunnerSnipeAction::Finish(false),
        RunnerSnipeStage::SleepUntilSetup => RunnerSnipeAction::SleepUntil { ms: state.setup_ms },
        RunnerSnipeStage::Setup => RunnerSnipeAction::Setup,
        RunnerSnipeStage::Refresh => RunnerSnipeAction::Refresh {
            check_eligibility: sniper.task != SnipeTask::Giftcode,
        },
        RunnerSnipeStage::Execute => RunnerSnipeAction::Execute {
            snipe_ms: state.snipe_ms,
            giftcode: sniper.task == SnipeTask::Giftcode,
        },
        RunnerSnipeStage::Searches => RunnerSnipeAction::RecordSearches,
        RunnerSnipeStage::UploadSkin => RunnerSnipeAction::UploadSkin,
        RunnerSnipeStage::Finished => RunnerSnipeAction::Finish(state.claimed),
    }
}

impl Sniper {
    /// A snipe that has not started.
    pub fn snipe_start(&self) -> (r: RunnerSnipeState)
        ensures
            r == (RunnerSnipeState { stage: RunnerSnipeStage::Begin, snipe_ms: 0, setup_ms: 0, claimed: false }),
    {
        RunnerSnipeState { stage: RunnerSnipeStage::Begin, snipe_ms: 0, setup_ms: 0, claimed: false }
    }

    /// One step of a snipe: the requests complete `offset` ms before the
    /// drop; when the sign-in time (eight hours before) is still ahead, the
    /// runner sleeps until then, signs in again and asks for the drop time
    /// again (checking the eligibility too unless gift-code sniping); the
    /// requests are sent at the snipe time; a claimed name has its searches
    /// recorded, and then the skin uploaded exactly when one is configured.
    pub fn snipe_step(&self, state: RunnerSnipeState, event: RunnerSnipeEvent) -> (r: (
        RunnerSnipeState,
        RunnerSnipeAction,
    ))
        requires
            state.stage == RunnerSnipeStage::Begin ==> (event matches RunnerSnipeEvent::Start {
                droptime_ms,
                offset,
                now_ms,
            } ==> runner_times_fit(droptime_ms, offset)),
        ensures
            r == runner_snipe_next(*self, state, event),
    {
        let gc = self.task == SnipeTask::Giftcode;
        if state.stage == RunnerSnipeStage::Finished {
            return (state, runner_snipe_action_of_exec(self, state));
        }
        match event {
            RunnerSnipeEvent::Start { droptime_ms, offset, now_ms } if state.stage == RunnerSnipeStage::Begin => {
                let (snipe, setup) = self.snipe_times(droptime_ms, offset).unwrap();
                if now_ms < setup {
                    (
                        RunnerSnipeState {
                            stage: RunnerSnipeStage::SleepUntilSetup,
                            snipe_ms: snipe,
                            setup_ms: setup,
                            claimed: false,
                        },
                        RunnerSnipeAction::SleepUntil { ms: setup },
                    )
                } else {
                    (
                        RunnerSnipeState { stage: RunnerSnipeStage::Execute, snipe_ms: snipe, setup_ms: setup, claimed: false },
                        RunnerSnipeAction::Execute { snipe_ms: snipe, giftcode: gc },
                    )
                }
            },
            RunnerSnipeEvent::Done if state.stage == RunnerSnipeStage::SleepUntilSetup => (
                RunnerSnipeState { stage: RunnerSnipeStage::Setup, ..state },
                RunnerSnipeAction::Setup,
            ),
            RunnerSnipeEvent::Done if state.stage == RunnerSnipeStage::Setup => (
                RunnerSnipeState { stage: RunnerSnipeStage::Refresh, ..state },
                RunnerSnipeAction::Refresh { check_eligibility: !gc },
            ),
            RunnerSnipeEvent::Done if state.stage == RunnerSnipeStage::Refresh => (
                RunnerSnipeState { stage: RunnerSnipeStage::Execute, ..state },
                RunnerSnipeAction::Execute { snipe_ms: state.snipe_ms, giftcode: gc },
            ),
            RunnerSnipeEvent::Sniped(claimed) if state.stage == RunnerSnipeStage::Execute => if claimed {
                (
                    RunnerSnipeState { stage: RunnerSnipeStage::Searches, claimed: true, ..state },
                    RunnerSnipeAction::RecordSearches,
                )
            } else {
                (
                    RunnerSnipeState { stage: RunnerSnipeStage::Finished, claimed: false, ..state },
                    RunnerSnipeAction::Finish(false),
                )
            },
            RunnerSnipeEvent::Done if state.stage == RunnerSnipeStage::Searches => if self.config.skin.is_some() {
                (RunnerSnipeState { stage: RunnerSnipeStage::UploadSkin, ..state }, RunnerSnipeAction::UploadSkin)
            } else {
                (
                    RunnerSnipeState { stage: RunnerSnipeStage::Finished, ..state },
                    RunnerSnipeAction::Finish(state.claimed),
                )
            },
            RunnerSnipeEvent::Done if state.stage == RunnerSnipeStage::UploadSkin => (
                RunnerSnipeState { stage: RunnerSnipeStage::Finished, ..state },
                RunnerSnipeAction::Finish(state.claimed),
            ),
            _ => (state, runner_snipe_action_of_exec(self, state)),
        }
    }
}

} // verus!
