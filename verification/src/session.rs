use vstd::prelude::*;
use crate::config::{account_wf, Account, Config, NameQueue, SnipeTask};
use crate::requests::DroptimeData;
use crate::sockets::ResData;
use crate::text::copy_strings;

verus! {

/// The most gift-code accounts a snipe uses at once.
pub const MAX_GIFTCODE_ACCOUNTS: usize = 10;

/// What the sign-in loop asks for next.
#[derive(Clone, Copy, Debug, PartialEq, Eq, Structural)]
pub enum SignInStep {
    /// Sign in the account at `index` of the account list (with Mojang for
    /// Mojang sniping, with Microsoft otherwise) and, unless gift-code
    /// sniping, check that it may change its name. `wait_first` asks for the
    /// pause against rate limiting before that.
    Authenticate { index: usize, wait_first: bool },
    /// No more accounts are needed or left.
    Done,
}

/// Why the sign-in loop gives up.
#[derive(Clone, Copy, Debug, PartialEq, Eq, Structural)]
pub enum SignInError {
    /// The account that failed was the only one left: its error ends the run.
    LastAccountFailed,
    /// "No Microsoft accounts left to use"
    NoAccountsLeft,
}

/// Bookkeeping of the sign-in of the configured accounts before one snipe.
///
/// The accounts are walked in order. An account with a bearer token is used
/// as it is; any other is signed in. An account that fails is dropped from
/// the account list, unless it is the last one. The walk stops after the
/// first token unless gift-code sniping, and after ten tokens then.
pub struct SignIn {
    /// The account list, with the accounts that failed taken out.
    pub accounts: Vec<Account>,
    /// One bearer token per account that was signed in, in order.
    pub tokens: Vec<String>,
    pub task: SnipeTask,
    /// How many accounts of the list as it was at the start have been dealt with.
    pub cursor: usize,
    /// The walk has stopped because enough tokens were collected.
    pub done: bool,
    /// The account at `tokens.len()` is being signed in.
    pub pending: bool,
    /// The account list at the start.
    pub snapshot: Ghost<Seq<Account>>,
    /// The accounts that gave the tokens, in order.
    pub kept: Ghost<Seq<Account>>,
}

/// Whether enough tokens have been collected for the mode.
pub open spec fn enough_tokens(task: SnipeTask, n: nat) -> bool {
    task != SnipeTask::Giftcode || n == MAX_GIFTCODE_ACCOUNTS
}

impl SignIn {
    pub open spec fn wf(&self) -> bool {
        let snap = self.snapshot@;
        let kept = self.kept@;
        &&& self.cursor <= snap.len()
        &&& snap.len() <= usize::MAX
        &&& kept.len() == self.tokens@.len()
        &&& kept.len() <= self.cursor
        &&& self.accounts@ == kept + snap.subrange(self.cursor as int, snap.len() as int)
        &&& forall|i: int| 0 <= i < snap.len() ==> account_wf(#[trigger] snap[i])
        &&& forall|i: int| 0 <= i < kept.len() ==> account_wf(#[trigger] kept[i])
        &&& forall|i: int|
            0 <= i < kept.len() ==> ((#[trigger] kept[i]).bearer matches Some(b) ==> self.tokens@[i] == b)
        &&& self.task != SnipeTask::Giftcode ==> self.tokens@.len() <= 1
        &&& self.tokens@.len() <= MAX_GIFTCODE_ACCOUNTS
        &&& !self.done ==> self.tokens@.len() < MAX_GIFTCODE_ACCOUNTS
        &&& !self.done && self.task != SnipeTask::Giftcode ==> self.tokens@.len() == 0
        &&& self.done ==> self.tokens@.len() > 0 && enough_tokens(self.task, self.tokens@.len())
        &&& self.pending ==> {
            &&& !self.done
            &&& self.cursor < snap.len()
            &&& snap[self.cursor as int].bearer is None
        }
    }

    /// The account now being signed in, or next to be dealt with.
    pub open spec fn current(&self) -> Account {
        self.snapshot@[self.cursor as int]
    }

    /// Starts the walk over `accounts` for a snipe in mode `task`.
    pub fn new(accounts: Vec<Account>, task: SnipeTask) -> (s: SignIn)
        requires
            forall|i: int| 0 <= i < accounts@.len() ==> account_wf(#[trigger] accounts@[i]),
        ensures
            s.wf(),
            s.snapshot@ == accounts@,
            s.accounts@ == accounts@,
            s.tokens@.len() == 0,
            s.task == task,
            s.cursor == 0,
            !s.done,
            !s.pending,
    {
        let ghost snap = accounts@;
        assert(snap.len() == accounts.len());
        let s = SignIn {
            accounts,
            tokens: Vec::new(),
            task,
            cursor: 0,
            done: false,
            pending: false,
            snapshot: Ghost(snap),
            kept: Ghost(Seq::empty()),
        };
        assert(s.accounts@ =~= Seq::<Account>::empty() + snap.subrange(0, snap.len() as int));
        assert(s.snapshot@.len() <= usize::MAX);
        assert(forall|i: int| 0 <= i < snap.len() ==> account_wf(#[trigger] snap[i]));
        s
    }

    /// Moves the walk on: accounts that carry a bearer token are taken as
    /// they are, until an account needs signing in (which is asked for) or
    /// the walk is over.
    pub fn step(&mut self) -> (r: SignInStep)
        requires
            old(self).wf(),
            !old(self).pending,
        ensures
            final(self).wf(),
            final(self).snapshot@ == old(self).snapshot@,
            final(self).task == old(self).task,
            old(self).cursor <= final(self).cursor,
            // the accounts passed over all carry a bearer token, which became their token
            final(self).kept@ == old(self).kept@ + old(self).snapshot@.subrange(
                old(self).cursor as int,
                final(self).cursor as int,
            ),
            forall|i: int|
                old(self).cursor <= i < final(self).cursor ==> (#[trigger] old(self).snapshot@[i]).bearer is Some,
            final(self).tokens@.subrange(0, old(self).tokens@.len() as int) == old(self).tokens@,
            match r {
                SignInStep::Authenticate { index, wait_first } => {
                    &&& final(self).pending
                    &&& index == final(self).tokens@.len()
                    &&& index < final(self).accounts@.len()
                    &&& final(self).accounts@[index as int] == final(self).current()
                    &&& wait_first == (final(self).cursor != 0)
                },
                SignInStep::Done => {
                    &&& !final(self).pending
                    &&& final(self).done || final(self).cursor == final(self).snapshot@.len()
                },
            },
    {
        while !self.done && self.tokens.len() < self.accounts.len()
            invariant
                self.wf(),
                !self.pending,
                self.snapshot@ == old(self).snapshot@,
                self.task == old(self).task,
                old(self).cursor <= self.cursor,
                self.kept@ == old(self).kept@ + old(self).snapshot@.subrange(
                    old(self).cursor as int,
                    self.cursor as int,
                ),
                forall|i: int|
                    old(self).cursor <= i < self.cursor ==> (#[trigger] old(self).snapshot@[i]).bearer is Some,
                old(self).tokens@.len() <= self.tokens@.len(),
                self.tokens@.subrange(0, old(self).tokens@.len() as int) == old(self).tokens@,
            decreases self.snapshot@.len() - self.cursor,
        {
            let idx = self.tokens.len();
            let ghost snap = self.snapshot@;
            let ghost c = self.cursor as int;
            assert(self.accounts@[idx as int] == snap[c]);
            let bearer = match &self.accounts[idx].bearer {
                Some(b) => Some(b.clone()),
                None => None,
            };
            match bearer {
                Some(b) => {
                    let ghost old_tokens = self.tokens@;
                    self.tokens.push(b);
                    self.kept = Ghost(self.kept@.push(snap[c]));
                    self.cursor = self.cursor + 1;
                    self.done = self.task != SnipeTask::Giftcode || self.tokens.len() == MAX_GIFTCODE_ACCOUNTS;
                    assert(self.accounts@ =~= self.kept@ + snap.subrange(self.cursor as int, snap.len() as int));
                    assert(snap.subrange(old(self).cursor as int, self.cursor as int) =~= snap.subrange(
                        old(self).cursor as int,
                        c,
                    ).push(snap[c]));
                    assert(self.tokens@.subrange(0, old(self).tokens@.len() as int) =~= old_tokens.subrange(
                        0,
                        old(self).tokens@.len() as int,
                    ));
                },
                None => {
                    self.pending = true;
                    return SignInStep::Authenticate { index: idx, wait_first: self.cursor != 0 };
                },
            }
        }
        SignInStep::Done
    }

    /// The account being signed in gave `token`: it is kept, and the walk
    /// stops when enough tokens are collected.
    pub fn succeed(&mut self, token: String)
        requires
            old(self).wf(),
            old(self).pending,
        ensures
            final(self).wf(),
            !final(self).pending,
            final(self).snapshot@ == old(self).snapshot@,
            final(self).task == old(self).task,
            final(self).tokens@ == old(self).tokens@.push(token),
            final(self).kept@ == old(self).kept@.push(old(self).current()),
            final(self).accounts@ == old(self).accounts@,
            final(self).cursor == old(self).cursor + 1,
            final(self).done == enough_tokens(old(self).task, final(self).tokens@.len()),
    {
        let ghost snap = self.snapshot@;
        let ghost c = self.cursor as int;
        self.tokens.push(token);
        self.kept = Ghost(self.kept@.push(snap[c]));
        self.cursor = self.cursor + 1;
        self.pending = false;
        self.done = self.task != SnipeTask::Giftcode || self.tokens.len() == MAX_GIFTCODE_ACCOUNTS;
        assert(old(self).accounts@[old(self).tokens@.len() as int] == snap[c]);
        assert(self.accounts@ =~= self.kept@ + snap.subrange(self.cursor as int, snap.len() as int));
    }

    /// The account being signed in failed. When it is the only account left
    /// the run ends with its error (`Err`, nothing changed); otherwise it is
    /// taken out of the account list and the walk goes on.
    pub fn fail(&mut self) -> (r: Result<(), SignInError>)
        requires
            old(self).wf(),
            old(self).pending,
        ensures
            old(self).accounts@.len() == 1 ==> r == Err::<(), SignInError>(SignInError::LastAccountFailed)
                && *final(self) == *old(self),
            old(self).accounts@.len() != 1 ==> {
                &&& r is Ok
                &&& final(self).wf()
                &&& !final(self).pending
                &&& final(self).snapshot@ == old(self).snapshot@
                &&& final(self).task == old(self).task
                &&& final(self).tokens@ == old(self).tokens@
                &&& final(self).kept@ == old(self).kept@
                &&& final(self).accounts@ == old(self).accounts@.remove(old(self).tokens@.len() as int)
                &&& final(self).cursor == old(self).cursor + 1
                &&& final(self).done == old(self).done
            },
    {
        if self.accounts.len() == 1 {
            return Err(SignInError::LastAccountFailed);
        }
        let ghost snap = self.snapshot@;
        let idx = self.tokens.len();
        self.accounts.remove(idx);
        self.cursor = self.cursor + 1;
        self.pending = false;
        assert(self.accounts@ =~= self.kept@ + snap.subrange(self.cursor as int, snap.len() as int));
        Ok(())
    }

    /// Ends the walk: the tokens collected and the account list as it now
    /// is, or `NoAccountsLeft` when no token was collected.
    pub fn finish(self) -> (r: Result<(Vec<String>, Vec<Account>), SignInError>)
        requires
            self.wf(),
            !self.pending,
        ensures
            self.tokens@.len() == 0 ==> r == Err::<(Vec<String>, Vec<Account>), SignInError>(
                SignInError::NoAccountsLeft,
            ),
            self.tokens@.len() > 0 ==> (r matches Ok((t, a)) && t@ == self.tokens@ && a@ == self.accounts@),
            r matches Ok((t, a)) ==> forall|i: int| 0 <= i < a@.len() ==> account_wf(#[trigger] a@[i]),
    {
        if self.tokens.len() == 0 {
            return Err(SignInError::NoAccountsLeft);
        }
        let ghost snap = self.snapshot@;
        let ghost kept = self.kept@;
        assert forall|i: int| 0 <= i < self.accounts@.len() implies account_wf(#[trigger] self.accounts@[i]) by {
            if i < kept.len() {
                assert(self.accounts@[i] == kept[i]);
            } else {
                assert(self.accounts@[i] == snap[self.cursor + (i - kept.len())]);
            }
        }
        Ok((self.tokens, self.accounts))
    }
}


/// How long before the snipe the accounts are signed in.
pub const SETUP_LEAD_MS: i64 = 28800000;

/// Why the configured accounts cannot be used together.
#[derive(Clone, Copy, Debug, PartialEq, Eq, Structural)]
pub enum LimitError {
    /// "Unable to use more than one normal account"
    MoreThanOneNormalAccount,
    /// "Unable to use more than 10 prename accounts"
    MoreThanTenGiftcodeAccounts,
}

/// The name queue asks to go on sniping after a success.
pub open spec fn never_stops(q: Option<NameQueue>) -> bool {
    q matches Some(x) && x.never_stop_sniping
}

/// Checks how many accounts the configuration holds: one at most unless
/// gift-code sniping, ten at most then; without limit when the name queue
/// never stops sniping.
pub fn check_account_limits(cfg: &Config) -> (r: Result<(), LimitError>)
    ensures
        never_stops(cfg.name_queue) ==> r is Ok,
        !never_stops(cfg.name_queue) ==> {
            if cfg.mode != SnipeTask::Giftcode && cfg.account_entry@.len() > 1 {
                r == Err::<(), LimitError>(LimitError::MoreThanOneNormalAccount)
            } else if cfg.account_entry@.len() > MAX_GIFTCODE_ACCOUNTS {
                r == Err::<(), LimitError>(LimitError::MoreThanTenGiftcodeAccounts)
            } else {
                r is Ok
            }
        },
{
    let keeps = match &cfg.name_queue {
        Some(q) => q.never_stop_sniping,
        None => false,
    };
    if !keeps {
        if cfg.mode != SnipeTask::Giftcode && cfg.account_entry.len() > 1 {
            return Err(LimitError::MoreThanOneNormalAccount);
        } else if cfg.account_entry.len() > MAX_GIFTCODE_ACCOUNTS {
            return Err(LimitError::MoreThanTenGiftcodeAccounts);
        }
    }
    Ok(())
}

/// The names to snipe: the one given on the command line, else the name
/// queue of the configuration; `None` when the user has to be asked.
pub fn name_list(arg_name: Option<String>, cfg: &Config) -> (r: Option<Vec<String>>)
    ensures
        arg_name matches Some(n) ==> (r matches Some(v) && v@ == seq![n]),
        arg_name is None ==> match cfg.name_queue {
            Some(q) => r matches Some(v) && v@ == q.queue@,
            None => r is None,
        },
{
    match arg_name {
        Some(n) => {
            let mut v: Vec<String> = Vec::new();
            v.push(n);
            Some(v)
        },
        None => match &cfg.name_queue {
            Some(q) => Some(copy_strings(&q.queue)),
            None => None,
        },
    }
}

/// A Unix time in seconds, in milliseconds; `None` when it does not fit.
pub fn unix_to_ms(secs: i64) -> (r: Option<i64>)
    ensures
        i64::MIN <= secs * 1000 <= i64::MAX ==> r == Some((secs * 1000) as i64),
        !(i64::MIN <= secs * 1000 <= i64::MAX) ==> r is None,
{
    if secs > i64::MAX / 1000 || secs < i64::MIN / 1000 {
        None
    } else {
        Some(secs * 1000)
    }
}

/// When the requests complete: `offset` ms before the droptime, and when the
/// accounts are signed in: eight hours before that. `None` when a time does
/// not fit.
pub fn snipe_and_setup_times(droptime_ms: i64, offset: u32) -> (r: Option<(i64, i64)>)
    ensures
        i64::MIN <= droptime_ms - offset - SETUP_LEAD_MS ==> r == Some(
            ((droptime_ms - offset) as i64, (droptime_ms - offset - SETUP_LEAD_MS) as i64),
        ),
        !(i64::MIN <= droptime_ms - offset - SETUP_LEAD_MS) ==> r is None,
{
    if droptime_ms < i64::MIN + offset as i64 + SETUP_LEAD_MS {
        None
    } else {
        let snipe = droptime_ms - offset as i64;
        Some((snipe, snipe - SETUP_LEAD_MS))
    }
}

/// How long to wait from `now_ms` until `target_ms`: nothing once it has passed.
pub fn wait_ms(now_ms: i64, target_ms: i64) -> (r: u64)
    ensures
        now_ms < target_ms ==> r == target_ms - now_ms,
        now_ms >= target_ms ==> r == 0,
{
    if now_ms < target_ms {
        (target_ms as i128 - now_ms as i128) as u64
    } else {
        0
    }
}

/// The account of the last reply, in the order given, with status 200.
pub open spec fn last_success(s: Seq<ResData>) -> Option<usize>
    decreases s.len(),
{
    if s.len() == 0 {
        None
    } else if s.last().status == 200 {
        Some(s.last().account_idx)
    } else {
        last_success(s.drop_last())
    }
}

/// Which account got the name: the account of the last successful reply
/// (replies come in time order), or `None` when every request failed.
pub fn successful_account(res: &Vec<ResData>) -> (r: Option<usize>)
    ensures
        r == last_success(res@),
{
    let mut j: usize = res.len();
    assert(res@.take(j as int) =~= res@);
    while j > 0
        invariant
            j <= res@.len(),
            last_success(res@) == last_success(res@.take(j as int)),
        decreases j,
    {
        assert(res@.take(j as int).drop_last() =~= res@.take(j - 1));
        if res[j - 1].status == 200 {
            return Some(res[j - 1].account_idx);
        }
        j = j - 1;
    }
    None
}

/// The skin model to upload: `slim` or `classic`.
pub fn skin_model(slim: bool) -> (r: String)
    ensures
        slim ==> r@ == "slim"@,
        !slim ==> r@ == "classic"@,
{
    if slim {
        String::from_str("slim")
    } else {
        String::from_str("classic")
    }
}

/// After a successful snipe, the account that got the name leaves the
/// account list; the sniping goes on with the next name only when the queue
/// never stops sniping and accounts are left.
pub fn after_success(accounts: &mut Vec<Account>, account_idx: usize, name_queue: &Option<NameQueue>) -> (go_on: bool)
    requires
        account_idx < old(accounts)@.len(),
    ensures
        final(accounts)@ == old(accounts)@.remove(account_idx as int),
        go_on == (never_stops(*name_queue) && final(accounts)@.len() > 0),
{
    accounts.remove(account_idx);
    match name_queue {
        Some(q) => q.never_stop_sniping && accounts.len() > 0,
        None => false,
    }
}


/// Every name after the first is preceded by a pause against rate limiting.
pub fn pause_before_name(index: usize) -> (r: bool)
    ensures
        r == (index != 0),
{
    index != 0
}

/// What the droptime service's answer means for a name: its drop time
/// (Unix seconds), or the reason to skip the name.
pub fn droptime_or_skip(d: DroptimeData) -> (r: Result<i64, String>)
    ensures
        d matches DroptimeData::Available(t) ==> r == Ok::<i64, String>(t),
        d matches DroptimeData::Unavailable(e) ==> r == Err::<i64, String>(e),
{
    match d {
        DroptimeData::Available(t) => Ok(t),
        DroptimeData::Unavailable(e) => Err(e),
    }
}

/// How long to sleep before signing in, seen at `now_ms`: until `setup_ms`
/// when that is still ahead, not at all otherwise.
pub fn setup_wait(now_ms: i64, setup_ms: i64) -> (r: Option<u64>)
    ensures
        now_ms < setup_ms ==> r == Some((setup_ms - now_ms) as u64),
        now_ms >= setup_ms ==> r is None,
{
    if now_ms < setup_ms {
        Some(wait_ms(now_ms, setup_ms))
    } else {
        None
    }
}

/// After sleeping until the sign-in, the droptime is asked again (and the
/// name skipped when it is no longer available) unless it was given on the
/// command line.
pub fn recheck_after_wait(arg_timestamp: Option<i64>) -> (r: bool)
    ensures
        r == arg_timestamp is None,
{
    arg_timestamp.is_none()
}

} // verus!
