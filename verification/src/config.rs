use vstd::prelude::*;
use crate::text::{ascii_lowercase_chars, chars_of, lower, same_chars};

verus! {

/// How names are claimed: with a Mojang account, a Microsoft account, or a
/// gift-code ("prename") account that has no name yet.
#[derive(Clone, Copy, Debug, PartialEq, Eq, Structural)]
pub enum SnipeTask {
    Mojang,
    Microsoft,
    Giftcode,
}

/// Names to claim one after another.
pub struct NameQueue {
    pub queue: Vec<String>,
    pub never_stop_sniping: bool,
}

/// A skin to put on the account after a successful claim.
pub struct Skin {
    /// `path` names a local file (true) or a URL (false).
    pub file: bool,
    pub path: String,
    /// Slim (alex) model when true, classic (steve) otherwise.
    pub slim: bool,
}

/// Account entry with e-mail and password.
pub struct One {
    pub email: String,
    pub password: String,
}

/// Account entry with e-mail, password and the three security answers.
pub struct Two {
    pub email: String,
    pub password: String,
    pub sq_ans: [String; 3],
}

/// Account entry given by its bearer token alone.
pub struct Three {
    pub bearer: String,
}

/// The three shapes an account entry of the configuration file can take.
pub enum AccountVariants {
    One(One),
    Two(Two),
    Three(Three),
}

/// The configuration as it is written in the file.
pub struct PrivateConfig {
    pub account_entry: Vec<AccountVariants>,
    pub offset: u32,
    /// Milliseconds between consecutive snipe requests.
    pub spread: u32,
    pub mode: SnipeTask,
    pub skin: Option<Skin>,
    pub name_queue: Option<NameQueue>,
}

/// One account to sign in with.
#[derive(Clone)]
pub struct Account {
    pub email: Option<String>,
    pub password: Option<String>,
    pub sq_ans: Option<[String; 3]>,
    pub bearer: Option<String>,
}

/// The configuration the sniper works with.
pub struct Config {
    pub account_entry: Vec<Account>,
    pub offset: u32,
    /// Milliseconds between consecutive snipe requests.
    pub spread: u32,
    pub mode: SnipeTask,
    pub skin: Option<Skin>,
    pub name_queue: Option<NameQueue>,
}

/// Why a configuration is refused.
#[derive(Clone, Copy, Debug, PartialEq, Eq, Structural)]
pub enum ConfigError {
    /// "No accounts provided in config file"
    NoAccounts,
    /// "No name provided in name queue"
    EmptyNameQueue,
}

/// An account can be signed in with: it carries a bearer token, or an
/// e-mail address together with a password.
pub open spec fn account_wf(a: Account) -> bool {
    a.bearer is Some || (a.email is Some && a.password is Some)
}

/// The account that an entry of the file describes.
pub open spec fn account_of(v: AccountVariants) -> Account {
    match v {
        AccountVariants::One(x) => Account {
            email: Some(x.email),
            password: Some(x.password),
            sq_ans: None,
            bearer: None,
        },
        AccountVariants::Two(x) => Account {
            email: Some(x.email),
            password: Some(x.password),
            sq_ans: Some(x.sq_ans),
            bearer: None,
        },
        AccountVariants::Three(x) => Account {
            email: None,
            password: None,
            sq_ans: None,
            bearer: Some(x.bearer),
        },
    }
}

/// The sniping mode that a (lower-cased) `mode` value names.
pub open spec fn mode_named(l: Seq<char>) -> Option<SnipeTask> {
    if l == "mj"@ || l == "mja"@ {
        Some(SnipeTask::Mojang)
    } else if l == "ms"@ || l == "msa"@ {
        Some(SnipeTask::Microsoft)
    } else if l == "prename"@ || l == "msprename"@ || l == "msaprename"@ || l == "pr"@ {
        Some(SnipeTask::Giftcode)
    } else {
        None
    }
}

/// Whether the lower-cased text equals a literal.
fn is_word(l: &Vec<char>, word: &str) -> (r: bool)
    ensures
        r == (l@ == word@),
{
    let w = chars_of(word);
    same_chars(l, &w)
}

/// Reads the `mode` value of the configuration, ignoring ASCII case:
/// `mj`/`mja` is Mojang, `ms`/`msa` Microsoft, and `prename`, `msprename`,
/// `msaprename` or `pr` gift-code sniping. `None` stands for "Invalid value".
pub fn to_task(s: &str) -> (r: Option<SnipeTask>)
    ensures
        r == mode_named(lower(s@)),
{
    let l = ascii_lowercase_chars(s);
    if is_word(&l, "mj") || is_word(&l, "mja") {
        Some(SnipeTask::Mojang)
    } else if is_word(&l, "ms") || is_word(&l, "msa") {
        Some(SnipeTask::Microsoft)
    } else if is_word(&l, "prename") || is_word(&l, "msprename") || is_word(&l, "msaprename")
        || is_word(&l, "pr") {
        Some(SnipeTask::Giftcode)
    } else {
        None
    }
}

/// The account that one entry of the file describes.
pub fn account_from_entry(entry: AccountVariants) -> (a: Account)
    ensures
        a == account_of(entry),
        account_wf(a),
{
    match entry {
        AccountVariants::One(x) => Account {
            email: Some(x.email),
            password: Some(x.password),
            sq_ans: None,
            bearer: None,
        },
        AccountVariants::Two(x) => Account {
            email: Some(x.email),
            password: Some(x.password),
            sq_ans: Some(x.sq_ans),
            bearer: None,
        },
        AccountVariants::Three(x) => Account {
            email: None,
            password: None,
            sq_ans: None,
            bearer: Some(x.bearer),
        },
    }
}

impl Config {
    /// Turns the file's form of the configuration into the one the sniper
    /// uses: every account entry becomes an [`Account`], in the same order,
    /// and the other settings are carried over.
    pub fn from(item: PrivateConfig) -> (c: Config)
        ensures
            c.account_entry@ == item.account_entry@.map_values(|v: AccountVariants| account_of(v)),
            forall|i: int| 0 <= i < c.account_entry@.len() ==> account_wf(#[trigger] c.account_entry@[i]),
            c.offset == item.offset,
            c.spread == item.spread,
            c.mode == item.mode,
            c.skin == item.skin,
            c.name_queue == item.name_queue,
    {
        let PrivateConfig { account_entry: entries, offset, spread, mode, skin, name_queue } = item;
        let ghost all = entries@;
        let mut rest = entries;
        let mut accounts: Vec<Account> = Vec::new();
        while rest.len() > 0
            invariant
                accounts@.len() + rest@.len() == all.len(),
                rest@ == all.subrange(accounts@.len() as int, all.len() as int),
                accounts@ == all.take(accounts@.len() as int).map_values(|v: AccountVariants| account_of(v)),
            decreases rest@.len(),
        {
            let ghost k = accounts@.len() as int;
            let entry = rest.remove(0);
            assert(entry == all[k]);
            accounts.push(account_from_entry(entry));
            assert(all.take(k + 1) =~= all.take(k).push(all[k]));
            assert(rest@ =~= all.subrange(k + 1, all.len() as int));
            assert(accounts@ =~= all.take(k + 1).map_values(|v: AccountVariants| account_of(v)));
        }
        assert(all.take(all.len() as int) =~= all);
        Config { account_entry: accounts, offset, spread, mode, skin, name_queue }
    }
}

/// Checks a configuration: it needs at least one account, and a name queue,
/// where there is one, needs at least one name.
pub fn new(cfg: Config) -> (r: Result<Config, ConfigError>)
    ensures
        cfg.account_entry@.len() == 0 ==> r == Err::<Config, ConfigError>(ConfigError::NoAccounts),
        cfg.account_entry@.len() > 0 && (cfg.name_queue matches Some(q) && q.queue@.len() == 0)
            ==> r == Err::<Config, ConfigError>(ConfigError::EmptyNameQueue),
        cfg.account_entry@.len() > 0 && !(cfg.name_queue matches Some(q) && q.queue@.len() == 0)
            ==> r == Ok::<Config, ConfigError>(cfg),
{
    if cfg.account_entry.len() == 0 {
        return Err(ConfigError::NoAccounts);
    }
    let empty_queue = match &cfg.name_queue {
        Some(q) => q.queue.len() == 0,
        None => false,
    };
    if empty_queue {
        return Err(ConfigError::EmptyNameQueue);
    }
    Ok(cfg)
}

} // verus!
