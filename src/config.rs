//! Allow-list entries and the program's own settings.

use vstd::prelude::*;

use crate::store::PathKind;
use crate::text::same_text;

verus! {

/// One allow-list entry.
pub struct UserConf {
    /// The user that the entry authorizes.
    pub username: String,
    /// The group the user must belong to.
    pub group: String,
    /// Whether the user must give their password.
    pub password: bool,
    /// Whether the user is greeted on every invocation.
    pub greeting: bool,
}

/// The mathematical content of a `UserConf`.
pub struct UserConfView {
    pub username: Seq<char>,
    pub group: Seq<char>,
    pub password: bool,
    pub greeting: bool,
}

impl View for UserConf {
    type V = UserConfView;

    open spec fn view(&self) -> UserConfView {
        UserConfView {
            username: self.username@,
            group: self.group@,
            password: self.password,
            greeting: self.greeting,
        }
    }
}

/// The entry used when no entry names the invoking user: its user is
/// `root`, so that it authorizes nobody else.
pub open spec fn default_userconf() -> UserConfView {
    UserConfView { username: "root"@, group: "wheel"@, password: true, greeting: true }
}

impl Default for UserConf {
    fn default() -> (r: Self)
        ensures
            r@ == default_userconf(),
    {
        UserConf {
            username: "root".to_owned(),
            group: "wheel".to_owned(),
            password: true,
            greeting: true,
        }
    }
}

impl UserConf {
    /// The same entry with greeting switched on.
    pub fn update_greeting(self) -> (r: Self)
        ensures
            r@ == (UserConfView { greeting: true, ..self@ }),
    {
        let mut conf = self;
        conf.greeting = true;
        conf
    }
}

/// Settings of the program itself.
pub struct RudoConf {
    /// The account that the requested program runs as.
    pub impuser: String,
}

impl Default for RudoConf {
    fn default() -> (r: Self)
        ensures
            r.impuser@ == "root"@,
    {
        RudoConf { impuser: "root".to_owned() }
    }
}

/// The whole configuration: the program's settings and the allow-list.
pub struct Config {
    /// Settings of the program.
    pub rudo: RudoConf,
    /// The allow-list.
    pub user: Vec<UserConf>,
}

impl Default for Config {
    fn default() -> (r: Self)
        ensures
            r.rudo.impuser@ == "root"@,
            r.user@.len() == 1,
            r.user@[0]@ == default_userconf(),
    {
        let mut user: Vec<UserConf> = Vec::new();
        user.push(UserConf::default());
        Config { rudo: RudoConf::default(), user }
    }
}

impl Config {
    /// The same configuration with another impersonation target.
    pub fn update_user(self, impuser: String) -> (r: Self)
        ensures
            r.rudo.impuser@ == impuser@,
            r.user@ == self.user@,
    {
        let mut conf = self;
        conf.rudo.impuser = impuser;
        conf
    }
}

/// The index of the last entry of `entries` that names `username`, if any.
pub open spec fn last_entry_for(entries: Seq<UserConf>, username: Seq<char>) -> Option<int>
    decreases entries.len(),
{
    if entries.len() == 0 {
        None
    } else if entries.last().username@ == username {
        Some(entries.len() - 1)
    } else {
        last_entry_for(entries.drop_last(), username)
    }
}

proof fn lemma_last_entry_for(entries: Seq<UserConf>, username: Seq<char>)
    ensures
        last_entry_for(entries, username) matches Some(i) ==> 0 <= i < entries.len()
            && entries[i].username@ == username,
    decreases entries.len(),
{
    if entries.len() > 0 {
        lemma_last_entry_for(entries.drop_last(), username);
    }
}

/// Selects the entry for `username`: the last one naming it, else the default entry.
pub fn extract_userconf(conf: Vec<UserConf>, username: &str) -> (r: UserConf)
    ensures
        match last_entry_for(conf@, username@) {
            Some(i) => r@ == conf@[i]@,
            None => r@ == default_userconf(),
        },
{
    let mut list = conf;
    let ghost entries = list@;
    let mut i: usize = list.len();
    assert(entries.take(i as int) =~= entries);
    while i > 0
        invariant
            i <= list.len(),
            list@ == entries,
            entries == conf@,
            last_entry_for(entries, username@) == last_entry_for(entries.take(i as int), username@),
        decreases i,
    {
        assert(entries.take(i as int).drop_last() =~= entries.take(i - 1));
        if same_text(list[i - 1].username.as_str(), username) {
            proof {
                assert(last_entry_for(entries.take(i as int), username@) == Some(i - 1));
            }
            let r = list.swap_remove(i - 1);
            assert(r == entries[i - 1]);
            proof { lemma_last_entry_for(entries, username@); }
            return r;
        }
        i = i - 1;
    }
    UserConf::default()
}

/// The default location of the configuration file.
pub const CONFIG_PATH: &'static str = "/etc/rudo.conf";

/// Where the configuration comes from.
#[derive(Debug, Clone, Copy, PartialEq, Eq, Structural)]
pub enum ConfigSource {
    /// Read the file; if it cannot be read or parsed, replace it with the
    /// default configuration.
    Load,
    /// Write the default configuration to a new file and use it.
    CreateDefault,
}

/// Why the configuration cannot be had.
#[derive(Debug, Clone, Copy, PartialEq, Eq, Structural)]
pub enum ConfigError {
    /// The configuration path is a directory; it is left for the administrator.
    IsADirectory,
}

/// Decides where the configuration comes from, given what its path holds.
pub fn config_source(kind: PathKind) -> (r: Result<ConfigSource, ConfigError>)
    ensures
        kind == PathKind::File ==> r == Ok::<ConfigSource, ConfigError>(ConfigSource::Load),
        kind == PathKind::Missing ==> r == Ok::<ConfigSource, ConfigError>(ConfigSource::CreateDefault),
        kind == PathKind::Directory ==> r == Err::<ConfigSource, ConfigError>(ConfigError::IsADirectory),
{
    match kind {
        PathKind::File => Ok(ConfigSource::Load),
        PathKind::Missing => Ok(ConfigSource::CreateDefault),
        PathKind::Directory => Err(ConfigError::IsADirectory),
    }
}

} // verus!
