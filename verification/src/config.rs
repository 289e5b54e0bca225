//! Configuration, and the schedule of the template synchroniser.

use vstd::prelude::*;
use vstd::string::*;

verus! {

/// The address the API listens on when none is configured.
pub open spec fn default_api_addr() -> Seq<char> {
    "127.0.0.1:8080"@
}

/// The address the site server listens on when none is configured.
pub open spec fn default_server_addr() -> Seq<char> {
    "127.0.0.1:5000"@
}

/// The time between two synchronisations of the template library, in
/// seconds.
pub const SYNC_PERIOD_SECS: u64 = 3600;

/// What the process is configured with.
pub struct Config {
    pub mongodb_uri: String,
    pub secret_key: Vec<u8>,
    pub anthropic_token: String,
    pub api_addr: String,
    pub server_addr: String,
}

/// One entry of a listing of the template root: its full path and whether
/// it is a directory.
pub struct RootEntry {
    pub path: String,
    pub is_dir: bool,
}

impl Config {
    /// The configuration made of the given settings. The secret is kept as
    /// its bytes; an address that is not given takes its default.
    pub fn from_values(
        mongodb_uri: String,
        secret_key: &str,
        anthropic_token: String,
        api_addr: Option<String>,
        server_addr: Option<String>,
    ) -> (config: Self)
        ensures
            config.mongodb_uri@ == mongodb_uri@,
            config.secret_key@ == secret_key.spec_bytes(),
            config.anthropic_token@ == anthropic_token@,
            config.api_addr@ == match api_addr {
                Some(addr) => addr@,
                None => default_api_addr(),
            },
            config.server_addr@ == match server_addr {
                Some(addr) => addr@,
                None => default_server_addr(),
            },
    {
        Config {
            mongodb_uri,
            secret_key: secret_key.as_bytes_vec(),
            anthropic_token,
            api_addr: match api_addr {
                Some(addr) => addr,
                None => String::from_str("127.0.0.1:8080"),
            },
            server_addr: match server_addr {
                Some(addr) => addr,
                None => String::from_str("127.0.0.1:5000"),
            },
        }
    }
}

/// The root of the template library below the home directory `home`.
pub open spec fn templates_dir_of(home: Seq<char>) -> Seq<char> {
    home + "/.zitefy/templates"@
}

/// The root of the template library below the home directory `home`.
pub fn templates_dir(home: &str) -> (dir: String)
    ensures
        dir@ == templates_dir_of(home@),
{
    home.to_owned().concat("/.zitefy/templates")
}

/// The paths of the directories of a listing, in listing order.
pub open spec fn directories_of(entries: Seq<RootEntry>) -> Seq<Seq<char>>
    decreases entries.len(),
{
    if entries.len() == 0 {
        Seq::empty()
    } else {
        let before = directories_of(entries.drop_last());
        if entries.last().is_dir {
            before.push(entries.last().path@)
        } else {
            before
        }
    }
}

/// The template directories that one synchronisation visits: the
/// directories directly below the template root, in listing order. Plain
/// files in the root are passed over.
pub fn monitor_templates_directory(entries: &Vec<RootEntry>) -> (dirs: Vec<String>)
    ensures
        crate::paths::texts(dirs@) == directories_of(entries@),
{
    let mut dirs: Vec<String> = Vec::new();
    let mut i: usize = 0;
    assert(crate::paths::texts(dirs@) =~= directories_of(entries@.take(0)));
    while i < entries.len()
        invariant
            i <= entries.len(),
            crate::paths::texts(dirs@) == directories_of(entries@.take(i as int)),
        decreases entries.len() - i,
    {
        proof {
            assert(entries@.take(i + 1).drop_last() =~= entries@.take(i as int));
        }
        if entries[i].is_dir {
            let ghost before = dirs@;
            let path = entries[i].path.clone();
            dirs.push(path);
            assert(crate::paths::texts(dirs@) =~= crate::paths::texts(before).push(path@));
        }
        i += 1;
    }
    proof {
        assert(entries@.take(entries.len() as int) =~= entries@);
    }
    dirs
}

} // verus!
