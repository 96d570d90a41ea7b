//! Plugin configuration, read from the key/value pairs that zellij passes.

use vstd::prelude::*;

verus! {

broadcast use vstd::string::group_string_axioms;

/// What the plugin was configured with.
pub struct Config {
    /// List sessions that can be resurrected after the running ones.
    pub show_resurrectable_sessions: bool,
    /// Text between a base session name and its number (`name.2`).
    pub session_separator: String,
    /// Name of the layout used when a session is created without choosing one.
    pub default_layout: Option<String>,
}

/// The mathematical value of a configuration.
#[verifier::ext_equal]
pub struct ConfigView {
    pub show_resurrectable_sessions: bool,
    pub session_separator: Seq<char>,
    pub default_layout: Option<Seq<char>>,
}

impl View for Config {
    type V = ConfigView;

    open spec fn view(&self) -> ConfigView {
        ConfigView {
            show_resurrectable_sessions: self.show_resurrectable_sessions,
            session_separator: self.session_separator@,
            default_layout: match self.default_layout {
                Some(l) => Some(l@),
                None => None,
            },
        }
    }
}

/// Separator used when none is configured.
pub open spec fn default_separator() -> Seq<char> {
    seq!['.']
}

/// The configuration used before any is read.
pub open spec fn default_config() -> ConfigView {
    ConfigView {
        show_resurrectable_sessions: false,
        session_separator: default_separator(),
        default_layout: None,
    }
}

/// The value of the last entry whose key is `key`.
pub open spec fn lookup(entries: Seq<(Seq<char>, Seq<char>)>, key: Seq<char>) -> Option<Seq<char>>
    decreases entries.len(),
{
    if entries.len() == 0 {
        None
    } else if entries.last().0 == key {
        Some(entries.last().1)
    } else {
        lookup(entries.drop_last(), key)
    }
}

/// The entries as pairs of character sequences.
pub open spec fn entries_view(entries: Seq<(String, String)>) -> Seq<(Seq<char>, Seq<char>)> {
    entries.map_values(|e: (String, String)| (e.0@, e.1@))
}

/// The configuration that the given entries describe: a key that is absent
/// keeps its default; `show_resurrectable_sessions` is on only for `true`.
pub open spec fn config_from(entries: Seq<(Seq<char>, Seq<char>)>) -> ConfigView {
    ConfigView {
        show_resurrectable_sessions: lookup(entries, "show_resurrectable_sessions"@) == Some(
            "true"@,
        ),
        session_separator: match lookup(entries, "session_separator"@) {
            Some(s) => s,
            None => default_separator(),
        },
        default_layout: lookup(entries, "default_layout"@),
    }
}

/// The value of the last entry whose key is `key`.
fn find_entry(entries: &Vec<(String, String)>, key: &String) -> (res: Option<String>)
    ensures
        match res {
            Some(v) => lookup(entries_view(entries@), key@) == Some(v@),
            None => lookup(entries_view(entries@), key@) is None,
        },
{
    let mut i = entries.len();
    assert(entries@.take(i as int) == entries@);
    while i > 0
        invariant
            i <= entries.len(),
            lookup(entries_view(entries@), key@) == lookup(entries_view(entries@.take(i as int)), key@),
        decreases i,
    {
        let ghost e = entries_view(entries@.take(i as int));
        assert(e.drop_last() == entries_view(entries@.take(i - 1)));
        if entries[i - 1].0 == *key {
            return Some(entries[i - 1].1.clone());
        }
        i = i - 1;
    }
    None
}

impl Config {
    /// The configuration used before any is read.
    pub fn new() -> (res: Self)
        ensures
            res@ == default_config(),
    {
        let sep = ".".to_string();
        proof {
            reveal_strlit(".");
            assert(sep@ =~= default_separator());
        }
        Config { show_resurrectable_sessions: false, session_separator: sep, default_layout: None }
    }

    /// Reads the configuration from zellij's key/value pairs.
    pub fn from_zellij_config(configuration: &Vec<(String, String)>) -> (res: Self)
        ensures
            res@ == config_from(entries_view(configuration@)),
    {
        let show = find_entry(configuration, &"show_resurrectable_sessions".to_string());
        let show_resurrectable_sessions = match show {
            Some(v) => v == "true".to_string(),
            None => false,
        };
        let session_separator = match find_entry(configuration, &"session_separator".to_string()) {
            Some(s) => s,
            None => {
                let sep = ".".to_string();
                proof {
                    reveal_strlit(".");
                    assert(sep@ =~= default_separator());
                }
                sep
            },
        };
        let default_layout = find_entry(configuration, &"default_layout".to_string());
        Config { show_resurrectable_sessions, session_separator, default_layout }
    }
}

} // verus!
