//! The configuration model: where the monster and spell data files live,
//! and how relative entries resolve against a base directory. Reading the
//! configuration file itself is the caller's business.

use vstd::prelude::*;
use vstd::string::StringExecFns;

verus! {

/// One or several monster data files.
#[derive(Debug, Clone)]
pub enum MonstersConfig {
    /// A single file.
    Single(String),
    /// Several files, merged in order.
    Multiple(Vec<String>),
}

/// One or several spell data files.
#[derive(Debug, Clone)]
pub enum SpellsConfig {
    /// A single file.
    Single(String),
    /// Several files, merged in order.
    Multiple(Vec<String>),
}

/// The data-file section of the configuration.
#[derive(Debug, Clone)]
pub struct DataConfig {
    /// Monster data files.
    pub monsters: MonstersConfig,
    /// Spell data files, when configured.
    pub spells: Option<SpellsConfig>,
}

/// The system section of the configuration.
#[derive(Debug, Clone)]
pub struct SystemConfig {
    /// The game system's name.
    pub name: Option<String>,
}

/// The whole configuration.
#[derive(Debug, Clone)]
pub struct Config {
    /// Data-file settings.
    pub data: DataConfig,
    /// System settings, when present.
    pub system: Option<SystemConfig>,
}

/// How one path entry resolves: an absolute entry (one starting with a
/// separator) stands as it is; a relative one is joined to the base with
/// a separator, or stands as it is when there is no base.
pub open spec fn spec_resolve_single(path: Seq<char>, base: Option<Seq<char>>) -> Seq<char> {
    if path.len() > 0 && path[0] == '/' {
        path
    } else {
        match base {
            Some(b) => b + "/"@ + path,
            None => path,
        }
    }
}

impl Config {
    /// The built-in default: a single monster file under the data
    /// directory and the default system name.
    pub fn default_config() -> (r: Config)
        ensures
            r.data.monsters matches MonstersConfig::Single(p) && p@
                == "data/SW2.5/monsters.json"@,
            r.data.spells is None,
            r.system matches Some(s) && (s.name matches Some(n) && n@ == "sw25"@),
    {
        Config {
            data: DataConfig {
                monsters: MonstersConfig::Single(String::from_str("data/SW2.5/monsters.json")),
                spells: None,
            },
            system: Some(SystemConfig { name: Some(String::from_str("sw25")) }),
        }
    }

    /// Resolves one path entry against the base directory.
    fn resolve_single_path(&self, path: &str, base_path: Option<&str>) -> (r: String)
        ensures
            r@ == spec_resolve_single(
                path@,
                match base_path {
                    Some(b) => Some(b@),
                    None => None,
                },
            ),
    {
        let is_absolute = if path.unicode_len() > 0 {
            path.get_char(0) == '/'
        } else {
            false
        };
        if is_absolute {
            let mut r = String::new();
            r.append(path);
            proof {
                assert(r@ =~= path@);
            }
            r
        } else {
            match base_path {
                Some(base) => {
                    let mut r = String::new();
                    r.append(base);
                    r.append("/");
                    r.append(path);
                    proof {
                        assert(r@ =~= base@ + "/"@ + path@);
                    }
                    r
                },
                None => {
                    let mut r = String::new();
                    r.append(path);
                    proof {
                        assert(r@ =~= path@);
                    }
                    r
                },
            }
        }
    }

    /// The resolved monster file path, for a single-file configuration.
    /// A multiple-file configuration must go through
    /// `resolve_monsters_paths` instead.
    pub fn resolve_monsters_path(&self, base_path: Option<&str>) -> (r: String)
        requires
            self.data.monsters is Single,
        ensures
            r@ == spec_resolve_single(
                self.data.monsters->Single_0@,
                match base_path {
                    Some(b) => Some(b@),
                    None => None,
                },
            ),
    {
        match &self.data.monsters {
            MonstersConfig::Single(path) => self.resolve_single_path(path.as_str(), base_path),
            MonstersConfig::Multiple(_) => {
                proof {
                    assert(false);
                }
                String::new()
            },
        }
    }

    /// The resolved monster file paths, in configuration order.
    pub fn resolve_monsters_paths(&self, base_path: Option<&str>) -> (r: Vec<String>)
        ensures
            match self.data.monsters {
                MonstersConfig::Single(p) => r@.len() == 1 && r@[0]@ == spec_resolve_single(
                    p@,
                    match base_path {
                        Some(b) => Some(b@),
                        None => None,
                    },
                ),
                MonstersConfig::Multiple(ps) => r@.len() == ps@.len() && forall|i: int|
                    0 <= i < ps@.len() ==> (#[trigger] r@[i])@ == spec_resolve_single(
                        ps@[i]@,
                        match base_path {
                            Some(b) => Some(b@),
                            None => None,
                        },
                    ),
            },
    {
        match &self.data.monsters {
            MonstersConfig::Single(path) => {
                let mut r: Vec<String> = Vec::new();
                r.push(self.resolve_single_path(path.as_str(), base_path));
                r
            },
            MonstersConfig::Multiple(paths) => {
                let mut r: Vec<String> = Vec::new();
                let mut i: usize = 0;
                while i < paths.len()
                    invariant
                        i <= paths@.len(),
                        r@.len() == i,
                        forall|k: int| 0 <= k < i ==> (#[trigger] r@[k])@ == spec_resolve_single(
                            paths@[k]@,
                            match base_path {
                                Some(b) => Some(b@),
                                None => None,
                            },
                        ),
                    decreases paths@.len() - i,
                {
                    r.push(self.resolve_single_path(paths[i].as_str(), base_path));
                    i = i + 1;
                }
                r
            },
        }
    }

    /// The resolved spell file paths, in configuration order; empty when
    /// no spell files are configured.
    pub fn resolve_spells_paths(&self, base_path: Option<&str>) -> (r: Vec<String>)
        ensures
            match self.data.spells {
                None => r@.len() == 0,
                Some(SpellsConfig::Single(p)) => r@.len() == 1 && r@[0]@ == spec_resolve_single(
                    p@,
                    match base_path {
                        Some(b) => Some(b@),
                        None => None,
                    },
                ),
                Some(SpellsConfig::Multiple(ps)) => r@.len() == ps@.len() && forall|i: int|
                    0 <= i < ps@.len() ==> (#[trigger] r@[i])@ == spec_resolve_single(
                        ps@[i]@,
                        match base_path {
                            Some(b) => Some(b@),
                            None => None,
                        },
                    ),
            },
    {
        match &self.data.spells {
            None => Vec::new(),
            Some(SpellsConfig::Single(path)) => {
                let mut r: Vec<String> = Vec::new();
                r.push(self.resolve_single_path(path.as_str(), base_path));
                r
            },
            Some(SpellsConfig::Multiple(paths)) => {
                let mut r: Vec<String> = Vec::new();
                let mut i: usize = 0;
                while i < paths.len()
                    invariant
                        i <= paths@.len(),
                        r@.len() == i,
                        forall|k: int| 0 <= k < i ==> (#[trigger] r@[k])@ == spec_resolve_single(
                            paths@[k]@,
                            match base_path {
                                Some(b) => Some(b@),
                                None => None,
                            },
                        ),
                    decreases paths@.len() - i,
                {
                    r.push(self.resolve_single_path(paths[i].as_str(), base_path));
                    i = i + 1;
                }
                r
            },
        }
    }
}

} // verus!
