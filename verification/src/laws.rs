use vstd::prelude::*;
use crate::config::{mode_named, SnipeTask};
use crate::fragment::{fragment_token, first_index, last_index, lemma_first_index, lemma_last_index, pair_key, pair_value, last_segment};
use crate::session::{last_success, enough_tokens, SignIn, MAX_GIFTCODE_ACCOUNTS};
use crate::sockets::{planned_request, plan_fits, regular_payload, status_of, ResData, REQUESTS_PER_ACCOUNT, HANDSHAKE_LEAD_MS};
use crate::text::{decimal, digit_char, lower};

verus! {

/// The sniping mode does not depend on the ASCII case of its name: a value
/// and its lower-cased form name the same mode.
pub proof fn mode_ignores_case(s: Seq<char>)
    ensures
        mode_named(lower(lower(s))) == mode_named(lower(s)),
{
    assert(lower(lower(s)) =~= lower(s)) by {
        assert forall|i: int| 0 <= i < s.len() implies lower(lower(s))[i] == lower(s)[i] by {
            let c = s[i];
            if 'A' <= c && c <= 'Z' {
                assert((c as u32) + 32 >= 'a' as u32);
            }
        }
    }
}

/// The sign-in walk never collects more than one token unless gift-code
/// sniping, and never more than ten; each account with a bearer token that
/// was used gave exactly that token; and the account list always holds the
/// accounts that gave tokens, in order, followed by those not yet reached.
pub proof fn sign_in_bounds(s: SignIn)
    requires
        s.wf(),
    ensures
        s.task != SnipeTask::Giftcode ==> s.tokens@.len() <= 1,
        s.tokens@.len() <= MAX_GIFTCODE_ACCOUNTS,
        s.tokens@.len() == s.kept@.len(),
        forall|i: int| 0 <= i < s.kept@.len() ==> ((#[trigger] s.kept@[i]).bearer matches Some(b) ==> s.tokens@[i] == b),
        s.accounts@ == s.kept@ + s.snapshot@.subrange(s.cursor as int, s.snapshot@.len() as int),
        s.done ==> s.tokens@.len() > 0 && enough_tokens(s.task, s.tokens@.len()),
{
}

/// The requests of a snipe go out in order, `spread` ms apart; each account
/// sends two requests in a row, the accounts in their order; every
/// connection opens 32 s before its request completes.
pub proof fn plan_spacing(accounts: nat, snipe_ms: int, spread: int, k: int)
    requires
        plan_fits(accounts, snipe_ms, spread),
        0 <= spread,
        0 <= k,
        k + 1 < accounts * REQUESTS_PER_ACCOUNT,
    ensures
        planned_request(snipe_ms, spread, k + 1).send_ms - planned_request(snipe_ms, spread, k).send_ms == spread,
        planned_request(snipe_ms, spread, k).send_ms - planned_request(snipe_ms, spread, k).handshake_ms
            == HANDSHAKE_LEAD_MS,
        planned_request(snipe_ms, spread, k).account_idx == k / 2,
        k % 2 == 0 ==> planned_request(snipe_ms, spread, k + 1).account_idx == planned_request(
            snipe_ms,
            spread,
            k,
        ).account_idx,
{
    let n = accounts * REQUESTS_PER_ACCOUNT;
    assert(0 <= k * spread && (k + 1) * spread <= n * spread && (k + 1) * spread == k * spread + spread) by (nonlinear_arith)
        requires
            0 <= k,
            k + 1 < n,
            0 <= spread,
    ;
    assert(n * spread == accounts * REQUESTS_PER_ACCOUNT * spread) by (nonlinear_arith)
        requires
            n == accounts * REQUESTS_PER_ACCOUNT,
    ;
}

/// A snipe in which some request got status 200 has a successful account,
/// and that account sent a request that got status 200.
pub proof fn success_found(s: Seq<ResData>)
    ensures
        (exists|i: int| 0 <= i < s.len() && #[trigger] s[i].status == 200) <==> last_success(s) is Some,
        last_success(s) matches Some(a) ==> exists|i: int|
            0 <= i < s.len() && #[trigger] s[i].status == 200 && s[i].account_idx == a,
    decreases s.len(),
{
    if s.len() > 0 {
        success_found(s.drop_last());
        if s.last().status == 200 {
            assert(s[s.len() - 1].status == 200);
        } else {
            assert forall|i: int| 0 <= i < s.len() - 1 implies s.drop_last()[i] == s[i] by {}
            if exists|i: int| 0 <= i < s.len() && #[trigger] s[i].status == 200 {
                let i = choose|i: int| 0 <= i < s.len() && #[trigger] s[i].status == 200;
                assert(s.drop_last()[i].status == 200);
            }
            if last_success(s) is Some {
                let i = choose|i: int|
                    0 <= i < s.drop_last().len() && #[trigger] s.drop_last()[i].status == 200
                        && s.drop_last()[i].account_idx == last_success(s)->0;
                assert(s[i] == s.drop_last()[i]);
            }
        }
    }
}

/// A three-digit status code reads back as itself.
pub proof fn status_reads_back(code: u16)
    requires
        100 <= code <= 999,
    ensures
        status_of(seq![(48 + code / 100) as u8, (48 + (code / 10) % 10) as u8, (48 + code % 10) as u8]) == Some(code),
{
}


/// The token of a fragment is that of its last `access_token` pair: a
/// fragment that ends in `&access_token=<x>` (with `x` free of `&` and `=`)
/// gives `x`, whatever comes before.
pub proof fn last_token_wins(f: Seq<char>, x: Seq<char>)
    requires
        forall|k: int| 0 <= k < x.len() ==> x[k] != '&' && x[k] != '=',
    ensures
        fragment_token(f + seq!['&'] + "access_token="@ + x) == Some(x),
{
    reveal_strlit("access_token=");
    reveal_strlit("access_token");
    let key = "access_token="@;
    let g = f + seq!['&'] + key + x;
    let m = f.len() as int;
    assert(g[m] == '&');
    lemma_last_index(g, '&');
    let li = last_index(g, '&');
    assert(li == m) by {
        if li < m {
            assert(g[m] != '&');
        }
        if li > m {
            assert(g[li] == '&');
            if li <= m + 13 {
                assert(g[li] == key[li - m - 1]);
            } else {
                assert(g[li] == x[li - m - 14]);
            }
        }
    }
    let seg = last_segment(g);
    assert(seg =~= key + x);
    token_pair(x);
}

/// `access_token=<x>` is the pair with key `access_token` and value `x`.
proof fn token_pair(x: Seq<char>)
    requires
        forall|k: int| 0 <= k < x.len() ==> x[k] != '&' && x[k] != '=',
    ensures
        pair_key("access_token="@ + x) == "access_token"@,
        pair_value("access_token="@ + x) == x,
{
    reveal_strlit("access_token=");
    reveal_strlit("access_token");
    let key = "access_token="@;
    let seg = key + x;
    lemma_first_index(seg, '=');
    let e = first_index(seg, '=');
    assert(seg[12] == '=');
    assert(e == 12) by {
        if e < 0 || e > 12 {
            assert(seg[12] != '=');
        }
        if 0 <= e < 12 {
            assert(seg[e] == key[e]);
        }
    }
    assert(pair_key(seg) =~= "access_token"@);
    let rest = seg.skip(13);
    assert(rest =~= x);
    lemma_first_index(rest, '=');
    assert(first_index(rest, '=') < 0) by {
        let e2 = first_index(rest, '=');
        if e2 >= 0 {
            assert(rest[e2] == x[e2]);
        }
    }
    assert(pair_value(seg) =~= x);
}


/// The number that a run of decimal digits spells.
pub open spec fn decimal_value(s: Seq<char>) -> int
    decreases s.len(),
{
    if s.len() == 0 {
        0
    } else {
        decimal_value(s.drop_last()) * 10 + ((s.last() as u32) as int - 48)
    }
}

/// The Content-Length written into a request reads back as the length it
/// was written for.
pub proof fn decimal_reads_back(n: nat)
    ensures
        decimal_value(decimal(n)) == n,
    decreases n,
{
    digit_reads_back(n % 10);
    if n >= 10 {
        decimal_reads_back(n / 10);
        assert(decimal(n).drop_last() =~= decimal(n / 10));
        assert(decimal(n).last() == digit_char(n % 10));
        assert(decimal_value(decimal(n)) == decimal_value(decimal(n / 10)) * 10 + ((digit_char(n % 10) as u32) as int - 48));
        assert(n == (n / 10) * 10 + n % 10);
    } else {
        assert(decimal(n).drop_last() =~= Seq::<char>::empty());
        assert(decimal_value(Seq::<char>::empty()) == 0);
        assert(decimal(n).last() == digit_char(n));
    }
}

proof fn digit_reads_back(d: nat)
    requires
        d < 10,
    ensures
        (digit_char(d) as u32) as int - 48 == d,
{
}

/// A name change request, completed by the line break sent at the snipe
/// time, ends its header block with an empty line.
pub proof fn name_change_completes(name: Seq<char>, token: Seq<char>)
    ensures
        ({
            let full = regular_payload(name, token) + "\r\n"@;
            full.subrange(full.len() - 4, full.len() as int) == "\r\n\r\n"@
        }),
{
    reveal_strlit("\r\n");
    reveal_strlit("\r\n\r\n");
    let full = regular_payload(name, token) + "\r\n"@;
    assert(full.subrange(full.len() - 4, full.len() as int) =~= "\r\n\r\n"@);
}


/// Signing in with Mojang makes the calls: sign in, list the security
/// questions, and send the answers only when questions are set; with
/// Microsoft it makes one call. The first failed call ends it, and once
/// ended no other call is made.
pub proof fn setup_calls(task: crate::logic::SnipeTask, b: bool)
    ensures
        task == crate::logic::SnipeTask::Mojang ==> {
            let s0 = crate::logic::SetupStage::Start;
            let s1 = crate::logic::setup_after(task, s0, true, b);
            let s2 = crate::logic::setup_after(task, s1, true, true);
            let s2n = crate::logic::setup_after(task, s1, true, false);
            let s3 = crate::logic::setup_after(task, s2, true, b);
            &&& crate::logic::setup_action(task, s0) == crate::logic::SetupAction::Call(crate::logic::SetupCall::AuthenticateMojang)
            &&& crate::logic::setup_action(task, s1) == crate::logic::SetupAction::Call(crate::logic::SetupCall::ListSecurityQuestions)
            &&& crate::logic::setup_action(task, s2) == crate::logic::SetupAction::Call(crate::logic::SetupCall::SendSecurityAnswers)
            &&& crate::logic::setup_action(task, s2n) == crate::logic::SetupAction::Succeeded
            &&& crate::logic::setup_action(task, s3) == crate::logic::SetupAction::Succeeded
        },
        task != crate::logic::SnipeTask::Mojang ==> {
            let s0 = crate::logic::SetupStage::Start;
            &&& crate::logic::setup_action(task, s0) == crate::logic::SetupAction::Call(crate::logic::SetupCall::AuthenticateMicrosoft)
            &&& crate::logic::setup_action(task, crate::logic::setup_after(task, s0, true, b)) == crate::logic::SetupAction::Succeeded
        },
        forall|st: crate::logic::SetupStage|
            st != crate::logic::SetupStage::Finished ==> #[trigger] crate::logic::setup_action(
                task,
                crate::logic::setup_after(task, st, false, b),
            ) == crate::logic::SetupAction::Failed,
        forall|st: crate::logic::SetupStage, ok: bool|
            (st == crate::logic::SetupStage::Finished || st == crate::logic::SetupStage::Failed)
                ==> #[trigger] crate::logic::setup_after(task, st, ok, b) == st,
{
}

/// Every single-account and multi-account sniper signs in again eight hours
/// before the snipe.
pub proof fn sign_in_eight_hours_ahead()
    ensures
        crate::session::SETUP_LEAD_MS == 8 * 60 * 60 * 1000,
        crate::logic::SETUP_LEAD_MINUTES * 60000 == 8 * 60 * 60 * 1000,
        crate::runner::SETUP_LEAD_MINUTES * 60000 == 8 * 60 * 60 * 1000,
{
}


proof fn plain_escaped(s: Seq<char>)
    requires
        forall|i: int| 0 <= i < s.len() ==> (#[trigger] s[i]) != '"' && s[i] != '\\' && (s[i] as u32) >= 0x20,
    ensures
        crate::sockets::json_escaped(s) == s,
    decreases s.len(),
{
    if s.len() > 0 {
        let c = s[s.len() - 1];
        assert(s.drop_last().len() < s.len());
        assert forall|i: int| 0 <= i < s.drop_last().len() implies (#[trigger] s.drop_last()[i]) != '"'
            && s.drop_last()[i] != '\\' && (s.drop_last()[i] as u32) >= 0x20 by {
            assert(s.drop_last()[i] == s[i]);
        }
        plain_escaped(s.drop_last());
        assert(crate::sockets::json_escape(c) == seq![c]);
        assert(s.drop_last() + seq![c] =~= s);
    } else {
        assert(crate::sockets::json_escaped(s) =~= s);
    }
}

/// A name with no quote, backslash or control character is written into
/// the JSON body as it is, between quotes.
pub proof fn plain_names_are_quoted(s: Seq<char>)
    requires
        forall|i: int| 0 <= i < s.len() ==> (#[trigger] s[i]) != '"' && s[i] != '\\' && (s[i] as u32) >= 0x20,
    ensures
        crate::sockets::json_string(s) == seq!['"'] + s + seq!['"'],
{
    plain_escaped(s);
}


/// A run over the names takes them in order: a step stays on its name or
/// moves to the next one (or past the last); the gift code is handled only
/// for the first name; a name whose drop time cannot be read is left with
/// no sign-in or snipe; and after the first success the run is over for good.
pub proof fn run_laws(sniper: crate::logic::Sniper, state: crate::logic::RunState, event: crate::logic::RunEvent)
    requires
        state.wf(),
        state.stage != crate::logic::RunStage::ChooseNames,
    ensures
        ({
            let (next, action) = crate::logic::run_next(sniper, state, event);
            &&& next.total == state.total
            &&& next.index == state.index || next.index == state.index + 1
            &&& (action == crate::logic::RunAction::RedeemGiftcode || action == crate::logic::RunAction::RemindGiftcode)
                ==> next.index == 0
            &&& (state.stage == crate::logic::RunStage::FetchDroptime && event == crate::logic::RunEvent::DroptimeFound(
                false,
            )) ==> (next.index == state.index + 1 && action != crate::logic::RunAction::Setup)
            &&& (state.stage == crate::logic::RunStage::Snipe && event == crate::logic::RunEvent::Sniped(Some(true)))
                ==> (next.stage == crate::logic::RunStage::Finished && action == crate::logic::RunAction::Finish)
            &&& state.stage == crate::logic::RunStage::Finished ==> (next == state && action
                == crate::logic::RunAction::Finish)
        }),
{
}

/// A snipe signs in again when the sign-in time is still ahead, and sends
/// its requests at the snipe time (`offset` ms before the drop); a recheck
/// that finds no drop ends it with no result; the eligibility is checked
/// unless gift-code sniping; and the skin is uploaded exactly when the name
/// was claimed and a skin is configured.
pub proof fn snipe_laws(
    sniper: crate::logic::Sniper,
    state: crate::logic::SnipeState,
    droptime_ms: i64,
    now_ms: i64,
    claimed: bool,
)
    ensures
        state.stage == crate::logic::SnipeStage::Begin ==> ({
            let (next, action) = crate::logic::snipe_next(
                sniper,
                state,
                crate::logic::SnipeEvent::Start { droptime_ms, now_ms },
            );
            &&& next.snipe_ms == (droptime_ms - sniper.offset) as i64
            &&& (now_ms < next.setup_ms <==> action == crate::logic::SnipeAction::SleepUntil { ms: next.setup_ms })
            &&& crate::logic::snipe_next(sniper, next, crate::logic::SnipeEvent::Slept).1 == (if now_ms
                < next.setup_ms {
                crate::logic::SnipeAction::Setup
            } else {
                crate::logic::SnipeAction::RecheckDroptime
            })
        }),
        state.stage == crate::logic::SnipeStage::Recheck ==> {
            &&& crate::logic::snipe_next(sniper, state, crate::logic::SnipeEvent::DroptimeFound(false)).1
                == crate::logic::SnipeAction::Finish(None)
            &&& crate::logic::snipe_next(sniper, state, crate::logic::SnipeEvent::DroptimeFound(true)).1 == (
            if sniper.task != crate::logic::SnipeTask::Giftcode {
                crate::logic::SnipeAction::CheckEligibility
            } else {
                crate::logic::SnipeAction::Execute { snipe_ms: state.snipe_ms }
            })
        },
        state.stage == crate::logic::SnipeStage::Execute ==> ((crate::logic::snipe_next(
            sniper,
            state,
            crate::logic::SnipeEvent::Sniped(claimed),
        ).1 == crate::logic::SnipeAction::UploadSkin) <==> (claimed && sniper.config.skin is Some)),
{
}

/// An execution signs in before each name it takes up; its offset is the
/// measured one when auto offset is on and the configured one otherwise; it
/// stops after the first success; and it ends with the closing note exactly
/// when nothing was sniped and more than one name was tried.
pub proof fn execute_laws(
    sniper: crate::runner::Sniper,
    state: crate::runner::ExecState,
    event: crate::runner::ExecEvent,
    measured: i32,
)
    requires
        state.wf(),
    ensures
        ({
            let (next, action) = crate::runner::execute_next(sniper, state, event);
            &&& (next.stage != crate::runner::ExecStage::Finished && (next.index != state.index || state.stage
                == crate::runner::ExecStage::ChooseNames) && next.stage != crate::runner::ExecStage::ChooseNames)
                ==> action == crate::runner::ExecAction::Setup { index: next.index, first: next.index == 0 }
            &&& (state.stage == crate::runner::ExecStage::Snipe && event == crate::runner::ExecEvent::Sniped(true))
                ==> action == crate::runner::ExecAction::Finish { report: false }
            &&& action matches crate::runner::ExecAction::Finish { report } ==> report == next.report && (report
                ==> next.total > 1)
            &&& state.stage == crate::runner::ExecStage::Finished ==> next == state
        }),
        state.stage == crate::runner::ExecStage::Prepare ==> ({
            let (next, action) = crate::runner::execute_next(sniper, state, crate::runner::ExecEvent::Done);
            !state.auto_offset ==> action == crate::runner::ExecAction::Snipe {
                index: state.index,
                offset: sniper.config.offset as i64,
            }
        }),
        state.stage == crate::runner::ExecStage::MeasureOffset ==> crate::runner::execute_next(
            sniper,
            state,
            crate::runner::ExecEvent::OffsetMeasured(measured),
        ).1 == (crate::runner::ExecAction::Snipe { index: state.index, offset: measured as i64 }),
        (state.stage == crate::runner::ExecStage::Snipe && state.index + 1 == state.total) ==> crate::runner::execute_next(
            sniper,
            state,
            crate::runner::ExecEvent::Sniped(false),
        ).1 == (crate::runner::ExecAction::Finish { report: state.total > 1 }),
{
}


/// With no name given and a non-empty name queue, a sniper works through
/// exactly the queued names, in their order, each checked first; a given
/// name is sniped alone; with neither, the user is asked.
pub proof fn queue_is_worked_through(username: Option<String>, config: crate::config::Config)
    ensures
        (username is None && config.name_queue is Some && config.name_queue.unwrap().queue@.len() > 0) ==> ({
            let q = config.name_queue.unwrap();
            crate::logic::names_of(username, config) matches Some((v, f)) && v.len() == q.queue@.len() && f && (
            forall|i: int| 0 <= i < q.queue@.len() ==> v[i] == q.queue@[i])
        }),
        username matches Some(u) ==> crate::logic::names_of(username, config) == Some((seq![u], true)),
        (username is None && !(config.name_queue is Some && config.name_queue.unwrap().queue@.len() > 0))
            ==> crate::logic::names_of(
            username,
            config,
        ) is None,
{
}

/// A snipe of a run that ends with the name no longer dropping is treated
/// like a failed one: the run moves on to the next name (and finishes only
/// after the last); only a claimed name ends the run.
pub proof fn run_goes_on_unless_claimed(
    sniper: crate::logic::Sniper,
    state: crate::logic::RunState,
)
    requires
        state.wf(),
        state.stage == crate::logic::RunStage::Snipe,
    ensures
        crate::logic::run_next(sniper, state, crate::logic::RunEvent::Sniped(None)) == crate::logic::run_next(
            sniper,
            state,
            crate::logic::RunEvent::Sniped(Some(false)),
        ),
        forall|o: Option<bool>| o != Some(true) ==> ({
            let (next, action) = #[trigger] crate::logic::run_next(sniper, state, crate::logic::RunEvent::Sniped(o));
            &&& next.index == state.index + 1
            &&& (action == crate::logic::RunAction::Finish) <==> state.index + 1 == state.total
            &&& state.index + 1 < state.total ==> next.stage != crate::logic::RunStage::Finished
                && next.stage != crate::logic::RunStage::Aborted
            &&& state.index + 1 < state.total ==> (action == crate::logic::RunAction::CheckName {
                index: (state.index + 1) as usize,
            } || action == crate::logic::RunAction::Pause)
        }),
        ({
            let (next, action) = crate::logic::run_next(sniper, state, crate::logic::RunEvent::Sniped(Some(true)));
            next.stage == crate::logic::RunStage::Finished && action == crate::logic::RunAction::Finish
        }),
{
}

/// How a run starts and moves between names: with no names it is over at
/// once; otherwise the first name is checked first (when names are
/// checked) or its drop time asked, with no pause; a name whose check fails
/// or whose drop time cannot be read hands over to the next name; after the
/// pause its drop time is asked and after the offset it is sniped; and any
/// failed call ends the run.
pub proof fn run_moves_between_names(
    sniper: crate::logic::Sniper,
    state: crate::logic::RunState,
    total: usize,
    check_filter: bool,
)
    requires
        state.wf(),
    ensures
        state.stage == crate::logic::RunStage::ChooseNames ==> ({
            let (next, action) = crate::logic::run_next(
                sniper,
                state,
                crate::logic::RunEvent::NamesChosen { total, check_filter },
            );
            &&& next.total == total
            &&& next.check_filter == check_filter
            &&& total == 0 ==> action == crate::logic::RunAction::Finish
            &&& (total > 0 && check_filter) ==> action == crate::logic::RunAction::CheckName { index: 0 }
            &&& (total > 0 && !check_filter) ==> action == crate::logic::RunAction::FetchDroptime { index: 0 }
        }),
        state.stage == crate::logic::RunStage::FetchDroptime ==> ({
            let (next, action) = crate::logic::run_next(sniper, state, crate::logic::RunEvent::DroptimeFound(false));
            &&& next.index == state.index + 1
            &&& action != crate::logic::RunAction::Setup
            &&& (action == crate::logic::RunAction::Finish) <==> state.index + 1 == state.total
        }),
        state.stage == crate::logic::RunStage::FetchDroptime ==> crate::logic::run_next(
            sniper,
            state,
            crate::logic::RunEvent::DroptimeFound(true),
        ).1 == crate::logic::RunAction::Setup,
        state.stage == crate::logic::RunStage::CheckName ==> ({
            let (next, action) = crate::logic::run_next(sniper, state, crate::logic::RunEvent::NameChecked(true));
            &&& next.index == state.index
            &&& (state.index == 0 ==> action == crate::logic::RunAction::FetchDroptime { index: 0 })
            &&& (state.index != 0 ==> action == crate::logic::RunAction::Pause)
        }),
        state.stage == crate::logic::RunStage::CheckName ==> ({
            let (next, action) = crate::logic::run_next(sniper, state, crate::logic::RunEvent::NameChecked(false));
            &&& next.index == state.index + 1
            &&& (action == crate::logic::RunAction::Finish) <==> state.index + 1 == state.total
            &&& (state.index + 1 < state.total && state.check_filter) ==> action == crate::logic::RunAction::CheckName {
                index: (state.index + 1) as usize,
            }
            &&& (state.index + 1 < state.total && !state.check_filter) ==> action == crate::logic::RunAction::Pause
        }),
        state.stage == crate::logic::RunStage::Pause ==> crate::logic::run_next(
            sniper,
            state,
            crate::logic::RunEvent::Paused,
        ).1 == (crate::logic::RunAction::FetchDroptime { index: state.index }),
        state.stage == crate::logic::RunStage::Offset ==> crate::logic::run_next(
            sniper,
            state,
            crate::logic::RunEvent::Done,
        ).1 == (crate::logic::RunAction::Snipe { index: state.index }),
        state.stage == crate::logic::RunStage::Setup ==> crate::logic::run_next(
            sniper,
            state,
            crate::logic::RunEvent::Done,
        ).1 == (if sniper.task == crate::logic::SnipeTask::Giftcode && state.index == 0 {
            if sniper.giftcode is Some {
                crate::logic::RunAction::RedeemGiftcode
            } else {
                crate::logic::RunAction::RemindGiftcode
            }
        } else {
            crate::logic::RunAction::CheckEligibility
        }),
        (state.stage != crate::logic::RunStage::Finished) ==> crate::logic::run_next(
            sniper,
            state,
            crate::logic::RunEvent::Failed,
        ).1 == crate::logic::RunAction::Abort,
{
}

/// A snipe times its requests `offset` ms before the drop and its sign-in
/// eight hours before that: it sleeps exactly when the sign-in time is
/// still ahead, and otherwise asks the drop time again at once; once the
/// eligibility is checked it sends the requests at the snipe time.
pub proof fn snipe_starts(
    sniper: crate::logic::Sniper,
    state: crate::logic::SnipeState,
    droptime_ms: i64,
    now_ms: i64,
)
    requires
        crate::logic::schedule_fits(sniper.offset, droptime_ms, now_ms),
    ensures
        state.stage == crate::logic::SnipeStage::Begin ==> ({
            let (next, action) = crate::logic::snipe_next(
                sniper,
                state,
                crate::logic::SnipeEvent::Start { droptime_ms, now_ms },
            );
            let setup = droptime_ms - sniper.offset - 8 * 60 * 60 * 1000;
            &&& next.snipe_ms == droptime_ms - sniper.offset
            &&& next.setup_ms == setup
            &&& next.outcome is None
            &&& now_ms < setup ==> action == crate::logic::SnipeAction::SleepUntil { ms: setup as i64 }
            &&& now_ms >= setup ==> action == crate::logic::SnipeAction::RecheckDroptime
        }),
        state.stage == crate::logic::SnipeStage::Eligibility ==> crate::logic::snipe_next(
            sniper,
            state,
            crate::logic::SnipeEvent::Done,
        ).1 == (crate::logic::SnipeAction::Execute { snipe_ms: state.snipe_ms }),
{
}

/// What a snipe reports is whether the name was claimed: after the
/// requests, a snipe ends with `Some(claimed)`, right away or once the skin
/// (uploaded only for a claimed name with a skin configured) is up.
pub proof fn snipe_reports_claim(sniper: crate::logic::Sniper, state: crate::logic::SnipeState, claimed: bool)
    requires
        state.stage == crate::logic::SnipeStage::Execute,
    ensures
        ({
            let (s1, a1) = crate::logic::snipe_next(sniper, state, crate::logic::SnipeEvent::Sniped(claimed));
            let (s2, a2) = crate::logic::snipe_next(sniper, s1, crate::logic::SnipeEvent::Done);
            &&& (!claimed || sniper.config.skin is None) ==> (a1 == crate::logic::SnipeAction::Finish(Some(claimed))
                && s1.outcome == Some(claimed) && s1.stage == crate::logic::SnipeStage::Finished)
            &&& (claimed && sniper.config.skin is Some) ==> (a1 == crate::logic::SnipeAction::UploadSkin && a2
                == crate::logic::SnipeAction::Finish(Some(true)) && s2.outcome == Some(true))
            &&& a2 == crate::logic::SnipeAction::Finish(Some(claimed))
            &&& s2.outcome == Some(claimed)
        }),
{
}

/// A gift-code runner redeems a gift code exactly when the user gave one,
/// and does not check the eligibility then.
pub proof fn runner_redeems_only_given_codes(
    sniper: crate::runner::Sniper,
    state: crate::runner::ExecState,
    has: bool,
)
    requires
        state.wf(),
        state.stage == crate::runner::ExecStage::AskGiftcode,
    ensures
        ({
            let (next, action) = crate::runner::execute_next(sniper, state, crate::runner::ExecEvent::Giftcode(has));
            &&& action == crate::runner::ExecAction::Prepare {
                index: state.index,
                redeem_giftcode: has,
                check_eligibility: false,
            }
            &&& next.redeem == has
            &&& next.index == state.index
        }),
{
}

/// An execution takes its names in order: it starts with the first (or is
/// over at once when there is none), signs in before each name, asks for a
/// gift code only in gift-code mode and otherwise checks the eligibility,
/// and after a name that was not sniped takes up the next one, ending after
/// the last.
pub proof fn execution_moves_between_names(
    sniper: crate::runner::Sniper,
    state: crate::runner::ExecState,
    total: usize,
    auto_offset: bool,
)
    requires
        state.wf(),
    ensures
        state.stage == crate::runner::ExecStage::ChooseNames ==> ({
            let (next, action) = crate::runner::execute_next(
                sniper,
                state,
                crate::runner::ExecEvent::NamesChosen { total, auto_offset },
            );
            &&& next.total == total
            &&& next.auto_offset == auto_offset
            &&& total == 0 ==> action == crate::runner::ExecAction::Finish { report: false }
            &&& total > 0 ==> action == crate::runner::ExecAction::Setup { index: 0, first: true }
        }),
        state.stage == crate::runner::ExecStage::Setup ==> crate::runner::execute_next(
            sniper,
            state,
            crate::runner::ExecEvent::Done,
        ).1 == (if sniper.task == crate::runner::SnipeTask::Giftcode {
            crate::runner::ExecAction::AskGiftcode
        } else {
            crate::runner::ExecAction::Prepare { index: state.index, redeem_giftcode: false, check_eligibility: true }
        }),
        state.stage == crate::runner::ExecStage::Snipe ==> ({
            let (next, action) = crate::runner::execute_next(sniper, state, crate::runner::ExecEvent::Sniped(false));
            &&& state.index + 1 < state.total ==> (next.index == state.index + 1 && action
                == crate::runner::ExecAction::Setup { index: (state.index + 1) as usize, first: false })
            &&& state.index + 1 >= state.total ==> next.stage == crate::runner::ExecStage::Finished
        }),
{
}

/// A runner snipe reports whether the name was claimed: after the requests,
/// whatever steps follow (recording searches, uploading the skin), every
/// finish carries that answer, and a claimed name is done within three steps.
pub proof fn runner_snipe_reports_claim(
    sniper: crate::runner::Sniper,
    state: crate::runner::RunnerSnipeState,
    claimed: bool,
)
    requires
        state.stage == crate::runner::RunnerSnipeStage::Execute,
    ensures
        ({
            let (s1, a1) = crate::runner::runner_snipe_next(sniper, state, crate::runner::RunnerSnipeEvent::Sniped(claimed));
            let (s2, a2) = crate::runner::runner_snipe_next(sniper, s1, crate::runner::RunnerSnipeEvent::Done);
            let (s3, a3) = crate::runner::runner_snipe_next(sniper, s2, crate::runner::RunnerSnipeEvent::Done);
            &&& a1 matches crate::runner::RunnerSnipeAction::Finish(x) ==> x == claimed
            &&& a2 matches crate::runner::RunnerSnipeAction::Finish(x) ==> x == claimed
            &&& a3 == crate::runner::RunnerSnipeAction::Finish(claimed)
            &&& !claimed ==> a1 == crate::runner::RunnerSnipeAction::Finish(false)
            &&& claimed ==> a1 == crate::runner::RunnerSnipeAction::RecordSearches
            &&& claimed ==> (a2 == crate::runner::RunnerSnipeAction::UploadSkin <==> sniper.config.skin is Some)
        }),
{
}

/// A runner snipe sleeps and signs in again exactly when the sign-in time is
/// still ahead, and otherwise sends its requests at once, timed `offset` ms
/// before the drop.
pub proof fn runner_snipe_starts(
    sniper: crate::runner::Sniper,
    state: crate::runner::RunnerSnipeState,
    droptime_ms: i64,
    offset: i64,
    now_ms: i64,
)
    requires
        state.stage == crate::runner::RunnerSnipeStage::Begin,
        crate::runner::runner_times_fit(droptime_ms, offset),
    ensures
        ({
            let (next, action) = crate::runner::runner_snipe_next(
                sniper,
                state,
                crate::runner::RunnerSnipeEvent::Start { droptime_ms, offset, now_ms },
            );
            let setup = droptime_ms - offset - 8 * 60 * 60 * 1000;
            &&& next.snipe_ms == droptime_ms - offset
            &&& next.setup_ms == setup
            &&& now_ms < setup ==> action == crate::runner::RunnerSnipeAction::SleepUntil { ms: setup as i64 }
            &&& now_ms >= setup ==> action == crate::runner::RunnerSnipeAction::Execute {
                snipe_ms: (droptime_ms - offset) as i64,
                giftcode: sniper.task == crate::runner::SnipeTask::Giftcode,
            }
        }),
{
}


/// A runner snipe that slept until the sign-in time signs in again, then
/// refreshes (checking the eligibility unless gift-code sniping), then
/// sends its requests at the snipe time it started with.
pub proof fn runner_snipe_signs_in_again(sniper: crate::runner::Sniper, state: crate::runner::RunnerSnipeState)
    ensures
        state.stage == crate::runner::RunnerSnipeStage::SleepUntilSetup ==> crate::runner::runner_snipe_next(
            sniper,
            state,
            crate::runner::RunnerSnipeEvent::Done,
        ).1 == crate::runner::RunnerSnipeAction::Setup,
        state.stage == crate::runner::RunnerSnipeStage::Setup ==> crate::runner::runner_snipe_next(
            sniper,
            state,
            crate::runner::RunnerSnipeEvent::Done,
        ).1 == (crate::runner::RunnerSnipeAction::Refresh {
            check_eligibility: sniper.task != crate::runner::SnipeTask::Giftcode,
        }),
        state.stage == crate::runner::RunnerSnipeStage::Refresh ==> crate::runner::runner_snipe_next(
            sniper,
            state,
            crate::runner::RunnerSnipeEvent::Done,
        ).1 == (crate::runner::RunnerSnipeAction::Execute {
            snipe_ms: state.snipe_ms,
            giftcode: sniper.task == crate::runner::SnipeTask::Giftcode,
        }),
{
}

/// Every documented mode name, in any ASCII case, names its mode, and other
/// words name none.
pub proof fn mode_names()
    ensures
        mode_named("mj"@) == Some(SnipeTask::Mojang),
        mode_named("mja"@) == Some(SnipeTask::Mojang),
        mode_named("ms"@) == Some(SnipeTask::Microsoft),
        mode_named("msa"@) == Some(SnipeTask::Microsoft),
        mode_named("prename"@) == Some(SnipeTask::Giftcode),
        mode_named("msprename"@) == Some(SnipeTask::Giftcode),
        mode_named("msaprename"@) == Some(SnipeTask::Giftcode),
        mode_named("pr"@) == Some(SnipeTask::Giftcode),
        forall|l: Seq<char>| l.len() == 0 ==> mode_named(l) is None,
{
    reveal_strlit("mj");
    reveal_strlit("mja");
    reveal_strlit("ms");
    reveal_strlit("msa");
    reveal_strlit("prename");
    reveal_strlit("msprename");
    reveal_strlit("msaprename");
    reveal_strlit("pr");
    assert("ms"@ != "mj"@) by {
        assert("ms"@[1] != "mj"@[1]);
    }
    assert("ms"@ != "mja"@) by {
        assert("ms"@.len() != "mja"@.len());
    }
    assert("msa"@ != "mj"@) by {
        assert("msa"@.len() != "mj"@.len());
    }
    assert("msa"@ != "mja"@) by {
        assert("msa"@[1] != "mja"@[1]);
    }
    assert("prename"@.len() == 7 && "msprename"@.len() == 9);
    assert("prename"@ != "mj"@ && "prename"@ != "mja"@ && "prename"@ != "ms"@ && "prename"@ != "msa"@);
    assert("msprename"@ != "mj"@ && "msprename"@ != "mja"@ && "msprename"@ != "ms"@ && "msprename"@ != "msa"@);
    assert("msaprename"@.len() == 10);
    assert("msaprename"@ != "mj"@ && "msaprename"@ != "mja"@ && "msaprename"@ != "ms"@ && "msaprename"@ != "msa"@);
    assert("pr"@ != "mj"@) by {
        assert("pr"@[0] != "mj"@[0]);
    }
    assert("pr"@ != "ms"@) by {
        assert("pr"@[0] != "ms"@[0]);
    }
    assert("pr"@ != "mja"@ && "pr"@ != "msa"@) by {
        assert("pr"@.len() != "msa"@.len());
    }
}

/// An account entry keeps what it was given: e-mail and password (and the
/// security answers) for a sign-in entry, the bearer token alone otherwise.
pub proof fn entries_keep_their_credentials(v: crate::config::AccountVariants)
    ensures
        ({
            let a = crate::config::account_of(v);
            match v {
                crate::config::AccountVariants::One(x) => a.email == Some(x.email) && a.password == Some(x.password)
                    && a.sq_ans is None && a.bearer is None,
                crate::config::AccountVariants::Two(x) => a.email == Some(x.email) && a.password == Some(x.password)
                    && a.sq_ans == Some(x.sq_ans) && a.bearer is None,
                crate::config::AccountVariants::Three(x) => a.bearer == Some(x.bearer) && a.email is None
                    && a.password is None && a.sq_ans is None,
            }
        }),
{
}

/// The login page gives its PPFT value and its post address as they were
/// found, the PPFT first; a missing value is reported as missing.
pub proof fn login_values_as_found(p: Seq<char>, u: Seq<char>, other: Option<Option<Seq<char>>>)
    ensures
        crate::msauth::login_result(Some(Some(p)), Some(Some(u))) == Ok::<(Seq<char>, Seq<char>), crate::msauth::AuthError>((p, u)),
        crate::msauth::login_result(Some(None), other) == Err::<(Seq<char>, Seq<char>), crate::msauth::AuthError>(
            crate::msauth::AuthError::NoPpft,
        ),
        crate::msauth::login_result(Some(Some(p)), Some(None)) == Err::<(Seq<char>, Seq<char>), crate::msauth::AuthError>(
            crate::msauth::AuthError::NoUrlPost,
        ),
        crate::msauth::login_result(None, other) == Err::<(Seq<char>, Seq<char>), crate::msauth::AuthError>(
            crate::msauth::AuthError::InvalidPattern,
        ),
{
}

/// Posting the login form succeeds only with status 200; a failed status
/// is reported as such; and a reply that left the form with an
/// `access_token` in its fragment gives that token.
pub proof fn sign_in_outcomes(
    status: u16,
    url: Seq<char>,
    url_post: Seq<char>,
    fragment: Option<Seq<char>>,
    text: Seq<char>,
    x: Seq<char>,
)
    requires
        forall|k: int| 0 <= k < x.len() ==> x[k] != '&' && x[k] != '=',
    ensures
        status != 200 ==> crate::msauth::sign_in_result(status, url, url_post, fragment, text) == Err::<
            Seq<char>,
            crate::msauth::AuthError,
        >(crate::msauth::AuthError::Http(status)),
        crate::msauth::sign_in_result(status, url, url_post, fragment, text) is Ok ==> status == 200
            && fragment is Some,
        url != url_post ==> crate::msauth::sign_in_result(
            200,
            url,
            url_post,
            Some("access_token="@ + x),
            text,
        ) == Ok::<Seq<char>, crate::msauth::AuthError>(x),
{
    reveal_strlit("access_token=");
    if url != url_post {
        let f = "access_token="@ + x;
        token_pair(x);
        lemma_last_index(f, '&');
        assert(last_index(f, '&') == -1) by {
            let li = last_index(f, '&');
            if li >= 0 {
                if li < 13 {
                    assert(f[li] == "access_token="@[li]);
                } else {
                    assert(f[li] == x[li - 13]);
                }
            }
        }
        assert(last_segment(f) =~= f);
    }
}

/// Trimming leaves no whitespace at either end, takes a contiguous part of
/// the text, and leaves a text with no whitespace at its ends as it is.
pub proof fn trim_laws(s: Seq<char>)
    ensures
        crate::text::trim(s).len() > 0 ==> !crate::text::is_whitespace(crate::text::trim(s)[0]) && !crate::text::is_whitespace(
            crate::text::trim(s).last(),
        ),
        exists|i: int, j: int| 0 <= i <= j <= s.len() && crate::text::trim(s) == #[trigger] s.subrange(i, j),
        (s.len() > 0 && !crate::text::is_whitespace(s[0]) && !crate::text::is_whitespace(s.last())) ==> crate::text::trim(
            s,
        ) == s,
{
    trim_start_laws(s);
    let t = crate::text::trim_start(s);
    trim_end_laws(t);
    let i = choose|i: int| 0 <= i <= s.len() && t == #[trigger] s.subrange(i, s.len() as int);
    let j = choose|j: int| 0 <= j <= t.len() && crate::text::trim_end(t) == #[trigger] t.subrange(0, j);
    assert(crate::text::trim(s) =~= s.subrange(i, i + j));
}

proof fn trim_start_laws(s: Seq<char>)
    ensures
        crate::text::trim_start(s).len() > 0 ==> !crate::text::is_whitespace(crate::text::trim_start(s)[0]),
        exists|i: int| 0 <= i <= s.len() && crate::text::trim_start(s) == #[trigger] s.subrange(i, s.len() as int),
        (s.len() > 0 && !crate::text::is_whitespace(s[0])) ==> crate::text::trim_start(s) == s,
        crate::text::trim_start(s).len() > 0 ==> crate::text::trim_start(s).last() == s.last(),
    decreases s.len(),
{
    if s.len() > 0 && crate::text::is_whitespace(s[0]) {
        trim_start_laws(s.drop_first());
        let i = choose|i: int|
            0 <= i <= s.drop_first().len() && crate::text::trim_start(s.drop_first()) == #[trigger] s.drop_first().subrange(
                i,
                s.drop_first().len() as int,
            );
        assert(s.drop_first().subrange(i, s.drop_first().len() as int) =~= s.subrange(i + 1, s.len() as int));
        assert(crate::text::trim_start(s) == s.subrange(i + 1, s.len() as int));
    } else {
        assert(crate::text::trim_start(s) =~= s.subrange(0, s.len() as int));
    }
}

proof fn trim_end_laws(s: Seq<char>)
    ensures
        crate::text::trim_end(s).len() > 0 ==> !crate::text::is_whitespace(crate::text::trim_end(s).last()),
        exists|j: int| 0 <= j <= s.len() && crate::text::trim_end(s) == #[trigger] s.subrange(0, j),
        (s.len() > 0 && !crate::text::is_whitespace(s.last())) ==> crate::text::trim_end(s) == s,
        crate::text::trim_end(s).len() > 0 ==> crate::text::trim_end(s)[0] == s[0],
    decreases s.len(),
{
    if s.len() > 0 && crate::text::is_whitespace(s.last()) {
        trim_end_laws(s.drop_last());
        let j = choose|j: int|
            0 <= j <= s.drop_last().len() && crate::text::trim_end(s.drop_last()) == #[trigger] s.drop_last().subrange(0, j);
        assert(s.drop_last().subrange(0, j) =~= s.subrange(0, j));
    } else {
        assert(crate::text::trim_end(s) =~= s.subrange(0, s.len() as int));
    }
}

} // verus!
