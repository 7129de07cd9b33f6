//! Configuration assembly: formats, source lists, environment-variable
//! settings and default values.
//!
//! The builder records which sources a configuration is assembled from and
//! with which settings; reading the files, the environment and the
//! deserialisation into user types are left to the embedding application.

use vstd::prelude::*;
use vstd::string::{StrSliceExecFns, StringExecFns};

use crate::error::ClamberError;

verus! {

/// Configuration file format.
#[derive(Debug, Clone, Copy, PartialEq, Eq, Structural)]
pub enum ConfigFormat {
    /// YAML.
    Yaml,
    /// TOML.
    Toml,
    /// JSON.
    Json,
}

/// Index of the last occurrence of `c` in `s`, or `-1` when `c` does not
/// occur.
pub open spec fn last_index_of(s: Seq<char>, c: char) -> int
    decreases s.len(),
{
    if s.len() == 0 {
        -1
    } else if s.last() == c {
        s.len() - 1
    } else {
        last_index_of(s.drop_last(), c)
    }
}

/// The extension of a path: the text after the last dot, provided that dot
/// lies inside the final path component and not at its first position (a
/// leading dot marks a hidden file, not an extension).
pub open spec fn extension_of(path: Seq<char>) -> Option<Seq<char>> {
    let slash = last_index_of(path, '/');
    let dot = last_index_of(path, '.');
    if dot > slash + 1 {
        Some(path.skip(dot + 1))
    } else {
        None
    }
}

/// The format a path's extension names, if any.
pub open spec fn format_of(path: Seq<char>) -> Option<ConfigFormat> {
    match extension_of(path) {
        Some(e) => if e == "yaml"@ || e == "yml"@ {
            Some(ConfigFormat::Yaml)
        } else if e == "toml"@ {
            Some(ConfigFormat::Toml)
        } else if e == "json"@ {
            Some(ConfigFormat::Json)
        } else {
            None
        },
        None => None,
    }
}

proof fn lemma_last_index_empty(c: char)
    ensures
        last_index_of(Seq::<char>::empty(), c) == -1,
{
}

proof fn lemma_last_index_step(s: Seq<char>, c: char, i: int)
    requires
        0 <= i < s.len(),
    ensures
        last_index_of(s.take(i + 1), c) == if s[i] == c {
            i
        } else {
            last_index_of(s.take(i), c)
        },
{
    assert(s.take(i + 1).drop_last() =~= s.take(i));
    assert(s.take(i + 1).last() == s[i]);
}

/// Compares two strings character by character.
pub fn str_eq(a: &str, b: &str) -> (r: bool)
    ensures
        r <==> a@ == b@,
{
    let alen = a.unicode_len();
    let blen = b.unicode_len();
    if alen != blen {
        return false;
    }
    let mut i: usize = 0;
    while i < alen
        invariant
            i <= alen,
            alen == a@.len(),
            alen == b@.len(),
            forall|k: int| 0 <= k < i ==> a@[k] == b@[k],
        decreases alen - i,
    {
        if a.get_char(i) != b.get_char(i) {
            return false;
        }
        i = i + 1;
    }
    proof {
        assert(a@ =~= b@);
    }
    true
}

impl ConfigFormat {
    /// Infers the format from a path's file extension.
    pub fn from_extension(path: &str) -> (r: Option<ConfigFormat>)
        ensures
            r == format_of(path@),
    {
        let len = path.unicode_len();
        let mut slash: Option<usize> = None;
        let mut dot: Option<usize> = None;
        let mut i: usize = 0;
        proof {
            assert(path@.take(0) =~= Seq::<char>::empty());
        }
        while i < len
            invariant
                i <= len,
                len == path@.len(),
                match slash {
                    Some(k) => k < i && last_index_of(path@.take(i as int), '/') == k,
                    None => last_index_of(path@.take(i as int), '/') == -1,
                },
                match dot {
                    Some(k) => k < i && last_index_of(path@.take(i as int), '.') == k,
                    None => last_index_of(path@.take(i as int), '.') == -1,
                },
            decreases len - i,
        {
            let c = path.get_char(i);
            proof {
                lemma_last_index_step(path@, '/', i as int);
                lemma_last_index_step(path@, '.', i as int);
            }
            if c == '/' {
                slash = Some(i);
            } else if c == '.' {
                dot = Some(i);
            }
            i = i + 1;
        }
        proof {
            assert(path@.take(len as int) =~= path@);
        }
        let ext_start: usize = match dot {
            None => {
                return None;
            },
            Some(d) => {
                let deep_enough: bool = match slash {
                    None => d >= 1,
                    Some(sl) => d > sl + 1,
                };
                if !deep_enough {
                    return None;
                }
                d + 1
            },
        };
        let ext = path.substring_char(ext_start, len);
        proof {
            assert(ext@ =~= path@.skip(ext_start as int));
        }
        if str_eq(ext, "yaml") || str_eq(ext, "yml") {
            Some(ConfigFormat::Yaml)
        } else if str_eq(ext, "toml") {
            Some(ConfigFormat::Toml)
        } else if str_eq(ext, "json") {
            Some(ConfigFormat::Json)
        } else {
            None
        }
    }
}

impl ConfigFormat {
    /// The format a queued file is read with: the explicit format where one
    /// was given, else the one its extension names, else nothing.
    pub fn resolve(path: &str, explicit: Option<ConfigFormat>) -> (r: Option<ConfigFormat>)
        ensures
            r == (match explicit {
                Some(f) => Some(f),
                None => format_of(path@),
            }),
    {
        match explicit {
            Some(f) => Some(f),
            None => ConfigFormat::from_extension(path),
        }
    }
}

/// The places a configuration file for a service may sit, relative to the
/// working directory: each supported extension beside the program and under
/// a `config` directory.
pub fn config_path_candidates(name: &str) -> (r: Vec<String>)
    ensures
        r@.len() == 8,
        r@[0]@ == name@ + ".yaml"@,
        r@[1]@ == name@ + ".yml"@,
        r@[2]@ == name@ + ".toml"@,
        r@[3]@ == name@ + ".json"@,
        r@[4]@ == "config/"@ + name@ + ".yaml"@,
        r@[5]@ == "config/"@ + name@ + ".yml"@,
        r@[6]@ == "config/"@ + name@ + ".toml"@,
        r@[7]@ == "config/"@ + name@ + ".json"@,
{
    let mut r: Vec<String> = Vec::new();
    r.push(String::from_str(name).concat(".yaml"));
    r.push(String::from_str(name).concat(".yml"));
    r.push(String::from_str(name).concat(".toml"));
    r.push(String::from_str(name).concat(".json"));
    let prefixed = String::from_str("config/").concat(name);
    r.push(prefixed.clone().concat(".yaml"));
    r.push(prefixed.clone().concat(".yml"));
    r.push(prefixed.clone().concat(".toml"));
    r.push(prefixed.concat(".json"));
    r
}

/// A plain default value for a configuration key.
#[derive(Debug, Clone, PartialEq)]
pub enum ConfigValue {
    /// A text value.
    Str(String),
    /// An integer value.
    Int(i64),
    /// A boolean value.
    Bool(bool),
}

/// Replaces the value of `key` where it is present, and appends the pair
/// where it is not.
pub open spec fn defaults_upsert(
    defaults: Seq<(Seq<char>, ConfigValue)>,
    key: Seq<char>,
    value: ConfigValue,
) -> Seq<(Seq<char>, ConfigValue)> {
    if exists|i: int| 0 <= i < defaults.len() && (#[trigger] defaults[i]).0 == key {
        let i = choose|i: int| 0 <= i < defaults.len() && (#[trigger] defaults[i]).0 == key;
        defaults.update(i, (key, value))
    } else {
        defaults.push((key, value))
    }
}

/// Records the configuration sources to assemble and the settings to
/// assemble them with: files in priority order, an optional environment
/// variable prefix and separator, whether missing files are ignored, and
/// default values keyed by configuration path.
#[derive(Debug, Clone)]
pub struct ConfigBuilder {
    files: Vec<(String, Option<ConfigFormat>)>,
    env_prefix: Option<String>,
    env_separator: String,
    ignore_missing: bool,
    defaults: Vec<(String, ConfigValue)>,
}

impl ConfigBuilder {
    /// The queued files with their explicit formats.
    pub closed spec fn spec_files_raw(&self) -> Seq<(String, Option<ConfigFormat>)> {
        self.files@
    }

    /// The queued files as (path, explicit format) pairs.
    pub open spec fn spec_files(&self) -> Seq<(Seq<char>, Option<ConfigFormat>)> {
        self.spec_files_raw().map_values(|f: (String, Option<ConfigFormat>)| (f.0@, f.1))
    }

    /// The environment variable prefix, if one is set.
    pub closed spec fn spec_env_prefix_raw(&self) -> Option<String> {
        self.env_prefix
    }

    /// The environment variable prefix as text.
    pub open spec fn spec_env_prefix(&self) -> Option<Seq<char>> {
        match self.spec_env_prefix_raw() {
            Some(p) => Some(p@),
            None => None,
        }
    }

    /// The separator between environment variable path components.
    pub closed spec fn spec_env_separator(&self) -> Seq<char> {
        self.env_separator@
    }

    /// Whether missing configuration files are ignored.
    pub closed spec fn spec_ignore_missing(&self) -> bool {
        self.ignore_missing
    }

    /// The recorded default values.
    pub closed spec fn spec_defaults_raw(&self) -> Seq<(String, ConfigValue)> {
        self.defaults@
    }

    /// The recorded default values as (key, value) pairs.
    pub open spec fn spec_defaults(&self) -> Seq<(Seq<char>, ConfigValue)> {
        self.spec_defaults_raw().map_values(|d: (String, ConfigValue)| (d.0@, d.1))
    }

    /// Well-formedness: each default key is recorded once.
    pub open spec fn wf(&self) -> bool {
        forall|i: int, j: int|
            0 <= i < j < self.spec_defaults().len() ==> (#[trigger] self.spec_defaults()[i]).0 != (
            #[trigger] self.spec_defaults()[j]).0
    }

    /// An empty builder: no files, no environment prefix, separator `"__"`,
    /// missing files reported, no defaults.
    pub fn new() -> (r: Self)
        ensures
            r.spec_files() == Seq::<(Seq<char>, Option<ConfigFormat>)>::empty(),
            r.spec_env_prefix() is None,
            r.spec_env_separator() == "__"@,
            !r.spec_ignore_missing(),
            r.spec_defaults() == Seq::<(Seq<char>, ConfigValue)>::empty(),
            r.wf(),
    {
        ConfigBuilder::default()
    }
}

impl Default for ConfigBuilder {
    /// An empty builder: no files, no environment prefix, separator `"__"`,
    /// missing files reported, no defaults.
    fn default() -> (r: Self)
        ensures
            r.spec_files() == Seq::<(Seq<char>, Option<ConfigFormat>)>::empty(),
            r.spec_env_prefix() is None,
            r.spec_env_separator() == "__"@,
            !r.spec_ignore_missing(),
            r.spec_defaults() == Seq::<(Seq<char>, ConfigValue)>::empty(),
            r.wf(),
    {
        let r = ConfigBuilder {
            files: Vec::new(),
            env_prefix: None,
            env_separator: String::from_str("__"),
            ignore_missing: false,
            defaults: Vec::new(),
        };
        proof {
            assert(r.spec_files() =~= Seq::<(Seq<char>, Option<ConfigFormat>)>::empty());
            assert(r.spec_defaults() =~= Seq::<(Seq<char>, ConfigValue)>::empty());
        }
        r
    }
}

impl ConfigBuilder {
    /// Queues a configuration file, with an explicit format or, when none
    /// is given, the format later inferred from the file extension.
    pub fn add_file(self, path: &str, format: Option<ConfigFormat>) -> (r: Self)
        ensures
            r.spec_files() == self.spec_files().push((path@, format)),
            r.spec_env_prefix() == self.spec_env_prefix(),
            r.spec_env_separator() == self.spec_env_separator(),
            r.spec_ignore_missing() == self.spec_ignore_missing(),
            r.spec_defaults() == self.spec_defaults(),
    {
        let mut files = self.files;
        files.push((String::from_str(path), format));
        let r = ConfigBuilder {
            files,
            env_prefix: self.env_prefix,
            env_separator: self.env_separator,
            ignore_missing: self.ignore_missing,
            defaults: self.defaults,
        };
        proof {
            assert(r.spec_files() =~= self.spec_files().push((path@, format)));
        }
        r
    }

    /// Queues a YAML file.
    pub fn add_yaml_file(self, path: &str) -> (r: Self)
        ensures
            r.spec_files() == self.spec_files().push((path@, Some(ConfigFormat::Yaml))),
            r.spec_env_prefix() == self.spec_env_prefix(),
            r.spec_env_separator() == self.spec_env_separator(),
            r.spec_ignore_missing() == self.spec_ignore_missing(),
            r.spec_defaults() == self.spec_defaults(),
    {
        self.add_file(path, Some(ConfigFormat::Yaml))
    }

    /// Queues a TOML file.
    pub fn add_toml_file(self, path: &str) -> (r: Self)
        ensures
            r.spec_files() == self.spec_files().push((path@, Some(ConfigFormat::Toml))),
            r.spec_env_prefix() == self.spec_env_prefix(),
            r.spec_env_separator() == self.spec_env_separator(),
            r.spec_ignore_missing() == self.spec_ignore_missing(),
            r.spec_defaults() == self.spec_defaults(),
    {
        self.add_file(path, Some(ConfigFormat::Toml))
    }

    /// Queues a JSON file.
    pub fn add_json_file(self, path: &str) -> (r: Self)
        ensures
            r.spec_files() == self.spec_files().push((path@, Some(ConfigFormat::Json))),
            r.spec_env_prefix() == self.spec_env_prefix(),
            r.spec_env_separator() == self.spec_env_separator(),
            r.spec_ignore_missing() == self.spec_ignore_missing(),
            r.spec_defaults() == self.spec_defaults(),
    {
        self.add_file(path, Some(ConfigFormat::Json))
    }

    /// Sets the environment variable prefix.
    pub fn with_env_prefix(self, prefix: &str) -> (r: Self)
        ensures
            r.spec_files() == self.spec_files(),
            r.spec_env_prefix() == Some(prefix@),
            r.spec_env_separator() == self.spec_env_separator(),
            r.spec_ignore_missing() == self.spec_ignore_missing(),
            r.spec_defaults() == self.spec_defaults(),
    {
        ConfigBuilder {
            files: self.files,
            env_prefix: Some(String::from_str(prefix)),
            env_separator: self.env_separator,
            ignore_missing: self.ignore_missing,
            defaults: self.defaults,
        }
    }

    /// Sets the separator between environment variable path components.
    pub fn with_env_separator(self, separator: &str) -> (r: Self)
        ensures
            r.spec_files() == self.spec_files(),
            r.spec_env_prefix() == self.spec_env_prefix(),
            r.spec_env_separator() == separator@,
            r.spec_ignore_missing() == self.spec_ignore_missing(),
            r.spec_defaults() == self.spec_defaults(),
    {
        ConfigBuilder {
            files: self.files,
            env_prefix: self.env_prefix,
            env_separator: String::from_str(separator),
            ignore_missing: self.ignore_missing,
            defaults: self.defaults,
        }
    }

    /// Chooses whether missing configuration files are ignored.
    pub fn ignore_missing_files(self, ignore: bool) -> (r: Self)
        ensures
            r.spec_files() == self.spec_files(),
            r.spec_env_prefix() == self.spec_env_prefix(),
            r.spec_env_separator() == self.spec_env_separator(),
            r.spec_ignore_missing() == ignore,
            r.spec_defaults() == self.spec_defaults(),
    {
        ConfigBuilder {
            files: self.files,
            env_prefix: self.env_prefix,
            env_separator: self.env_separator,
            ignore_missing: ignore,
            defaults: self.defaults,
        }
    }

    /// Records a default value for a key, replacing any earlier default for
    /// the same key. Never fails; the result type mirrors fallible setters.
    pub fn with_default(self, key: &str, value: ConfigValue) -> (r: Result<Self, ClamberError>)
        requires
            self.wf(),
        ensures
            r matches Ok(b) && b.wf() && b.spec_files() == self.spec_files()
                && b.spec_env_prefix() == self.spec_env_prefix() && b.spec_env_separator()
                == self.spec_env_separator() && b.spec_ignore_missing()
                == self.spec_ignore_missing() && b.spec_defaults() == defaults_upsert(
                self.spec_defaults(),
                key@,
                value,
            ),
    {
        let mut defaults = self.defaults;
        let mut found: Option<usize> = None;
        let mut k: usize = 0;
        let len = defaults.len();
        while k < len
            invariant
                k <= len,
                len == defaults@.len(),
                match found {
                    Some(f) => f < len && defaults@[f as int].0@ == key@,
                    None => forall|i: int| 0 <= i < k ==> (#[trigger] defaults@[i]).0@ != key@,
                },
            decreases len - k,
        {
            if found.is_none() && str_eq(defaults[k].0.as_str(), key) {
                found = Some(k);
            }
            k = k + 1;
        }
        let ghost prior = defaults@;
        let entry = (String::from_str(key), value);
        let ghost entry_g = entry;
        match found {
            Some(f) => {
                defaults.remove(f);
                defaults.insert(f, entry);
                proof {
                    assert(defaults@ =~= prior.update(f as int, entry_g));
                }
            },
            None => {
                defaults.push(entry);
            },
        }
        let r = ConfigBuilder {
            files: self.files,
            env_prefix: self.env_prefix,
            env_separator: self.env_separator,
            ignore_missing: self.ignore_missing,
            defaults,
        };
        proof {
            let view = self.spec_defaults();
            match found {
                Some(f) => {
                    assert(0 <= f < view.len() && view[f as int].0 == key@);
                    let i = choose|i: int| 0 <= i < view.len() && (#[trigger] view[i]).0 == key@;
                    assert(i == f as int);
                    assert(r.spec_defaults() =~= defaults_upsert(view, key@, entry_g.1));
                },
                None => {
                    assert(forall|i: int| 0 <= i < view.len() ==> (#[trigger] view[i]).0 != key@);
                    assert(r.spec_defaults() =~= defaults_upsert(view, key@, entry_g.1));
                },
            }
        }
        Ok(r)
    }
}

/// Entry point for configuration assembly.
#[derive(Debug)]
pub struct ConfigManager;

impl ConfigManager {
    /// Starts an empty builder.
    pub fn builder() -> (r: ConfigBuilder)
        ensures
            r.spec_files() == Seq::<(Seq<char>, Option<ConfigFormat>)>::empty(),
            r.spec_env_prefix() is None,
            r.spec_env_separator() == "__"@,
            !r.spec_ignore_missing(),
            r.spec_defaults() == Seq::<(Seq<char>, ConfigValue)>::empty(),
            r.wf(),
    {
        ConfigBuilder::new()
    }
}

impl ConfigBuilder {
    /// The queued files, for the code that reads them.
    pub fn files(&self) -> (r: &Vec<(String, Option<ConfigFormat>)>)
        ensures
            r@ == self.spec_files_raw(),
    {
        &self.files
    }

    /// The environment variable prefix, for the code that reads the
    /// environment.
    pub fn env_prefix(&self) -> (r: &Option<String>)
        ensures
            *r == self.spec_env_prefix_raw(),
    {
        &self.env_prefix
    }

    /// The environment variable separator.
    pub fn env_separator(&self) -> (r: &String)
        ensures
            r@ == self.spec_env_separator(),
    {
        &self.env_separator
    }

    /// Whether missing configuration files are ignored.
    pub fn ignore_missing(&self) -> (r: bool)
        ensures
            r == self.spec_ignore_missing(),
    {
        self.ignore_missing
    }

    /// The recorded default values, for the code that applies them.
    pub fn defaults(&self) -> (r: &Vec<(String, ConfigValue)>)
        ensures
            r@ == self.spec_defaults_raw(),
    {
        &self.defaults
    }
}

} // verus!
