//! User configuration and the invoking user's identity.
use vstd::prelude::*;

use crate::text::{is_absolute, join_path, path_join, same_text};
use crate::CapsuleError;

verus! {

/// One top-level entry of a TOML document as this library reads it: the key,
/// and the value where the value is a string (`None` for any other kind).
pub type TomlEntry = (Seq<char>, Option<Seq<char>>);

/// The top-level entries of the TOML document `text`, in the order that
/// `toml::Table` walks them, or `None` where `text` is not a TOML document.
pub uninterp spec fn toml_top_level(text: Seq<char>) -> Option<Seq<TomlEntry>>;

/// Relies on `toml::from_str::<toml::Table>`: parses a document into its
/// top-level table, which fails exactly on text that is not TOML. An empty
/// document is an empty table, and a table holds each key once. Each entry is
/// handed out as its key and, for a string value, that string.
#[verifier::external_body]
fn parse_top_level(text: &str) -> (r: Option<Vec<(String, Option<String>)>>)
    ensures
        r.deep_view() == toml_top_level(text@),
        text@.len() == 0 ==> r.deep_view() == Some(Seq::<TomlEntry>::empty()),
        r matches Some(v) ==> forall|i: int, j: int|
            0 <= i < j < v@.len() ==> v@[i].0@ != v@[j].0@,
{
    match toml::from_str::<toml::Table>(text) {
        Ok(table) => Some(
            table.into_iter().map(|(k, v)| match v {
                toml::Value::String(s) => (k, Some(s)),
                _ => (k, None),
            }).collect(),
        ),
        Err(_) => None,
    }
}

/// The entry for `key` among `es`: `None` where no entry has that key.
pub open spec fn entry_for(es: Seq<TomlEntry>, key: Seq<char>) -> Option<Option<Seq<char>>>
    decreases es.len(),
{
    if es.len() == 0 {
        None
    } else if es[0].0 == key {
        Some(es[0].1)
    } else {
        entry_for(es.drop_first(), key)
    }
}

/// A field that is absent or holds a string is readable; any other value is not.
pub open spec fn field_readable(es: Seq<TomlEntry>, key: Seq<char>) -> bool {
    !(entry_for(es, key) == Some(None::<Seq<char>>))
}

/// The string a readable field holds, if any.
pub open spec fn field_text(es: Seq<TomlEntry>, key: Seq<char>) -> Option<Seq<char>> {
    match entry_for(es, key) {
        Some(v) => v,
        None => None,
    }
}

pub open spec fn volumes_root_key() -> Seq<char> {
    "volumes_root"@
}

pub open spec fn capsule_home_dir_key() -> Seq<char> {
    "capsule_home_dir"@
}

/// The two optional settings of a configuration file's text; `contents` is
/// `None` where there is no file. Anything unreadable degrades to no settings.
pub open spec fn settings_of(contents: Option<Seq<char>>) -> (Option<Seq<char>>, Option<Seq<char>>) {
    match contents {
        None => (None, None),
        Some(t) => match toml_top_level(t) {
            None => (None, None),
            Some(es) => if field_readable(es, volumes_root_key()) && field_readable(
                es,
                capsule_home_dir_key(),
            ) {
                (field_text(es, volumes_root_key()), field_text(es, capsule_home_dir_key()))
            } else {
                (None, None)
            },
        },
    }
}

/// Where a capsule's data volumes live by default, below the user's home.
pub open spec fn default_volumes_subdir() -> Seq<char> {
    ".local/capsules/volumes"@
}

/// The home directory inside a capsule when none is configured.
pub open spec fn default_capsule_home_dir() -> Seq<char> {
    "/home"@
}

/// The invoking user, resolved once per operation and handed down explicitly.
#[derive(Debug, Clone)]
pub struct Identity {
    pub user: String,
    pub home: String,
}

impl Identity {
    /// Both values are present and non-empty.
    pub open spec fn wf(&self) -> bool {
        self.user@.len() > 0 && self.home@.len() > 0
    }

    /// Builds the identity from the user name and home directory as the
    /// environment gave them; a missing or empty value is a configuration error.
    pub fn resolve(user: Option<String>, home: Option<String>) -> (r: Result<Identity, CapsuleError>)
        ensures
            r is Ok <==> (user.deep_view() matches Some(u) && u.len() > 0) && (
            home.deep_view() matches Some(h) && h.len() > 0),
            r matches Ok(id) ==> id.wf() && Some(id.user) == user && Some(id.home) == home,
            r matches Err(e) ==> e is Configuration,
    {
        match (user, home) {
            (Some(u), Some(h)) => {
                if u.unicode_len() == 0 {
                    Err(CapsuleError::Configuration(String::from_str("the user name is empty")))
                } else if h.unicode_len() == 0 {
                    Err(CapsuleError::Configuration(String::from_str("the home directory is empty")))
                } else {
                    Ok(Identity { user: u, home: h })
                }
            },
            (None, _) => Err(CapsuleError::Configuration(String::from_str("the user name is not set"))),
            (_, None) => Err(
                CapsuleError::Configuration(String::from_str("the home directory is not set")),
            ),
        }
    }
}

/// Optional overrides of the storage layout, read once at startup.
#[derive(Debug, Clone)]
pub struct Config {
    pub volumes_root: Option<String>,
    pub capsule_home_dir: Option<String>,
}

impl Config {
    /// The settings this configuration holds.
    pub open spec fn settings(&self) -> (Option<Seq<char>>, Option<Seq<char>>) {
        (self.volumes_root.deep_view(), self.capsule_home_dir.deep_view())
    }

    /// Neither setting is present.
    pub open spec fn is_default(&self) -> bool {
        self.volumes_root is None && self.capsule_home_dir is None
    }

    /// The configuration with no overrides.
    pub fn defaults() -> (r: Config)
        ensures
            r.is_default(),
    {
        Config { volumes_root: None, capsule_home_dir: None }
    }

    /// The configuration that the text of the configuration file gives, or
    /// the defaults where there is no file (`None`) or it cannot be read as
    /// one. This never fails.
    pub fn load(contents: Option<&str>) -> (r: Config)
        ensures
            r.settings() == settings_of(contents.deep_view()),
            contents is None ==> r.is_default(),
            contents matches Some(t) && toml_top_level(t@) is None ==> r.is_default(),
            contents matches Some(t) && t@.len() == 0 ==> r.is_default(),
    {
        let text = match contents {
            None => {
                return Config::defaults();
            },
            Some(t) => t,
        };
        let entries = match parse_top_level(text) {
            None => {
                return Config::defaults();
            },
            Some(es) => es,
        };
        let root = field(&entries, "volumes_root");
        let home_dir = field(&entries, "capsule_home_dir");
        match (root, home_dir) {
            (Some(r), Some(h)) => Config { volumes_root: r, capsule_home_dir: h },
            _ => Config::defaults(),
        }
    }

    /// The directory under which every capsule's data volume lives: the
    /// configured root where it is absolute, the configured root below the
    /// user's home where it is relative, and a fixed place below the user's
    /// home where none is configured.
    pub open spec fn volumes_root_spec(&self, identity: &Identity) -> Seq<char> {
        match self.volumes_root {
            Some(p) => if is_absolute(p@) {
                p@
            } else {
                path_join(identity.home@, p@)
            },
            None => path_join(identity.home@, default_volumes_subdir()),
        }
    }

    pub fn volumes_root_path(&self, identity: &Identity) -> (r: String)
        ensures
            r@ == self.volumes_root_spec(identity),
    {
        match &self.volumes_root {
            Some(p) => {
                if p.unicode_len() > 0 && p.as_str().get_char(0) == '/' {
                    p.clone()
                } else {
                    join_path(identity.home.as_str(), p.as_str())
                }
            },
            None => join_path(identity.home.as_str(), ".local/capsules/volumes"),
        }
    }

    /// The home directory inside a capsule: the configured one, or `/home`.
    pub open spec fn capsule_home_dir_spec(&self) -> Seq<char> {
        match self.capsule_home_dir {
            Some(d) => d@,
            None => default_capsule_home_dir(),
        }
    }

    pub fn capsule_home_dir(&self) -> (r: &str)
        ensures
            r@ == self.capsule_home_dir_spec(),
    {
        match &self.capsule_home_dir {
            Some(d) => d.as_str(),
            None => "/home",
        }
    }
}

/// Reads one field from the entries of a document: `Some(v)` where the field
/// is absent (`v` is `None`) or holds a string, `None` where it holds anything else.
fn field(entries: &Vec<(String, Option<String>)>, key: &str) -> (r: Option<Option<String>>)
    ensures
        r is Some <==> field_readable(entries.deep_view(), key@),
        r matches Some(v) ==> v.deep_view() == field_text(entries.deep_view(), key@),
{
    let ghost es = entries.deep_view();
    let mut i: usize = 0;
    assert(es.skip(0) == es);
    while i < entries.len()
        invariant
            es == entries.deep_view(),
            i <= entries.len(),
            entry_for(es, key@) == entry_for(es.skip(i as int), key@),
        decreases entries.len() - i,
    {
        assert(es.skip(i as int).drop_first() == es.skip(i + 1));
        assert(es.skip(i as int)[0] == es[i as int]);
        if same_text(entries[i].0.as_str(), key) {
            return match &entries[i].1 {
                Some(s) => Some(Some(s.clone())),
                None => None,
            };
        }
        i = i + 1;
    }
    assert(es.skip(i as int).len() == 0);
    Some(None)
}

} // verus!
