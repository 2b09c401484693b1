use buckshot::config::{self, to_task, Account, AccountVariants, Config, ConfigError, NameQueue, One, PrivateConfig, SnipeTask, Three, Two};

fn sample_private(entries: Vec<AccountVariants>, queue: Option<NameQueue>) -> PrivateConfig {
    PrivateConfig { account_entry: entries, offset: 9, spread: 0, mode: SnipeTask::Microsoft, skin: None, name_queue: queue }
}

#[test]
fn modes_are_read_without_regard_to_case() {
    assert_eq!(to_task("mj"), Some(SnipeTask::Mojang));
    assert_eq!(to_task("MJA"), Some(SnipeTask::Mojang));
    assert_eq!(to_task("Ms"), Some(SnipeTask::Microsoft));
    assert_eq!(to_task("msa"), Some(SnipeTask::Microsoft));
    assert_eq!(to_task("prename"), Some(SnipeTask::Giftcode));
    assert_eq!(to_task("MsPrename"), Some(SnipeTask::Giftcode));
    assert_eq!(to_task("msaprename"), Some(SnipeTask::Giftcode));
    assert_eq!(to_task("PR"), Some(SnipeTask::Giftcode));
}

#[test]
fn unknown_modes_are_refused() {
    assert_eq!(to_task(""), None);
    assert_eq!(to_task("mj "), None);
    assert_eq!(to_task("microsoft"), None);
    assert_eq!(to_task("gc"), None);
}

#[test]
fn account_entries_become_accounts_in_order() {
    let entries = vec![
        AccountVariants::One(One { email: "a@x.com".to_string(), password: "pa".to_string() }),
        AccountVariants::Two(Two {
            email: "b@x.com".to_string(),
            password: "pb".to_string(),
            sq_ans: ["Foo".to_string(), "Bar".to_string(), "Baz".to_string()],
        }),
        AccountVariants::Three(Three { bearer: "tok".to_string() }),
    ];
    let c = Config::from(sample_private(entries, None));
    assert_eq!(c.account_entry.len(), 3);
    let a: &Account = &c.account_entry[0];
    assert_eq!(a.email.as_deref(), Some("a@x.com"));
    assert_eq!(a.password.as_deref(), Some("pa"));
    assert!(a.sq_ans.is_none() && a.bearer.is_none());
    let b = &c.account_entry[1];
    assert_eq!(b.email.as_deref(), Some("b@x.com"));
    assert_eq!(b.sq_ans.as_ref().unwrap()[2], "Baz");
    assert!(b.bearer.is_none());
    let t = &c.account_entry[2];
    assert!(t.email.is_none() && t.password.is_none() && t.sq_ans.is_none());
    assert_eq!(t.bearer.as_deref(), Some("tok"));
    assert_eq!(c.offset, 9);
    assert_eq!(c.spread, 0);
    assert_eq!(c.mode, SnipeTask::Microsoft);
}

#[test]
fn a_configuration_needs_an_account() {
    let c = Config::from(sample_private(vec![], None));
    assert_eq!(config::new(c).err(), Some(ConfigError::NoAccounts));
}

#[test]
fn a_name_queue_needs_a_name() {
    let entries = vec![AccountVariants::Three(Three { bearer: "tok".to_string() })];
    let queue = NameQueue { queue: vec![], never_stop_sniping: false };
    let c = Config::from(sample_private(entries, Some(queue)));
    assert_eq!(config::new(c).err(), Some(ConfigError::EmptyNameQueue));
}

#[test]
fn a_sound_configuration_is_kept() {
    let entries = vec![AccountVariants::Three(Three { bearer: "tok".to_string() })];
    let queue = NameQueue { queue: vec!["Dream".to_string(), "Marc".to_string()], never_stop_sniping: true };
    let c = config::new(Config::from(sample_private(entries, Some(queue)))).ok().unwrap();
    assert_eq!(c.name_queue.as_ref().unwrap().queue, vec!["Dream".to_string(), "Marc".to_string()]);
    assert!(c.name_queue.as_ref().unwrap().never_stop_sniping);
}
