//! The persisted settings record: the four application directories and the
//! catalog of installed games, with the per-field self-healing validator.
use vstd::prelude::*;

use crate::json::{
    chars_to_string, emit_doc_into, parse_doc_at, spec_catalog_view, spec_emit_doc,
    spec_parse_doc, spec_pairs_view, to_chars, StoredView,
};
use crate::paths::{join_path, spec_join};
use crate::runners::Runner;
use crate::runners::RunnerView;

verus! {

/// One installed game, as stored in the settings catalog. Identity is `id`;
/// `biz_name` namespaces the per-game Wine/Proton prefix directory.
#[derive(Debug, Clone, PartialEq)]
pub struct InstalledGame {
    pub id: String,
    pub biz_name: String,
    pub install_path: String,
    pub executable_path: String,
    pub command_wrapper: Option<String>,
    pub command_arguments: Option<String>,
    pub environment: Vec<(String, String)>,
    pub runner: Runner,
    pub runtime_components: Vec<RuntimeComponent>,
}

/// A graphics-compatibility shim to layer into the launch environment,
/// carrying its version string.
#[derive(Debug, Clone, PartialEq)]
pub enum RuntimeComponent {
    Dxvk(String),
    Vkd3dProton(String),
    DxvkNvApi(String),
}

pub enum ComponentView {
    Dxvk(Seq<char>),
    Vkd3dProton(Seq<char>),
    DxvkNvApi(Seq<char>),
}

pub struct GameView {
    pub id: Seq<char>,
    pub biz_name: Seq<char>,
    pub install_path: Seq<char>,
    pub executable_path: Seq<char>,
    pub command_wrapper: Option<Seq<char>>,
    pub command_arguments: Option<Seq<char>>,
    pub environment: Seq<(Seq<char>, Seq<char>)>,
    pub runner: RunnerView,
    pub runtime_components: Seq<ComponentView>,
}

impl View for RuntimeComponent {
    type V = ComponentView;

    open spec fn view(&self) -> ComponentView {
        match self {
            RuntimeComponent::Dxvk(v) => ComponentView::Dxvk(v@),
            RuntimeComponent::Vkd3dProton(v) => ComponentView::Vkd3dProton(v@),
            RuntimeComponent::DxvkNvApi(v) => ComponentView::DxvkNvApi(v@),
        }
    }
}

impl View for InstalledGame {
    type V = GameView;

    open spec fn view(&self) -> GameView {
        GameView {
            id: self.id@,
            biz_name: self.biz_name@,
            install_path: self.install_path@,
            executable_path: self.executable_path@,
            command_wrapper: match self.command_wrapper {
                Some(s) => Some(s@),
                None => None,
            },
            command_arguments: match self.command_arguments {
                Some(s) => Some(s@),
                None => None,
            },
            environment: self.environment@.map_values(|e: (String, String)| (e.0@, e.1@)),
            runner: self.runner@,
            runtime_components: self.runtime_components@.map_values(|c: RuntimeComponent| c@),
        }
    }
}

/// The persisted configuration: base data directory, the config file path,
/// the four role directories, and the installed-game catalog (a mapping from
/// game id to record, kept as ordered entries).
#[derive(Debug, Clone, PartialEq)]
pub struct GlobalSettings {
    pub data_path: String,
    pub config_path: String,
    pub wineprefixes_directory: String,
    pub components_directory: String,
    pub temp_directory: String,
    pub cache_directory: String,
    pub installed_games: Vec<(String, InstalledGame)>,
}

pub struct SettingsView {
    pub data_path: Seq<char>,
    pub config_path: Seq<char>,
    pub wineprefixes_directory: Seq<char>,
    pub components_directory: Seq<char>,
    pub temp_directory: Seq<char>,
    pub cache_directory: Seq<char>,
    pub installed_games: Seq<(Seq<char>, GameView)>,
}

impl View for GlobalSettings {
    type V = SettingsView;

    open spec fn view(&self) -> SettingsView {
        SettingsView {
            data_path: self.data_path@,
            config_path: self.config_path@,
            wineprefixes_directory: self.wineprefixes_directory@,
            components_directory: self.components_directory@,
            temp_directory: self.temp_directory@,
            cache_directory: self.cache_directory@,
            installed_games: self.installed_games@.map_values(
                |e: (String, InstalledGame)| (e.0@, e.1@),
            ),
        }
    }
}

/// The four directory roles a settings record owns.
#[derive(Debug, Clone, Copy, PartialEq, Eq, Structural)]
pub enum DirRole {
    Wineprefixes,
    Components,
    Temp,
    Cache,
}

/// The name of the default subdirectory for a role, under the data directory.
pub open spec fn spec_role_name(role: DirRole) -> Seq<char> {
    match role {
        DirRole::Wineprefixes => "wineprefixes"@,
        DirRole::Components => "components"@,
        DirRole::Temp => "temp"@,
        DirRole::Cache => "cache"@,
    }
}

/// The default directory for a role: `<data_path>/<role name>`.
pub open spec fn spec_default_dir(data_path: Seq<char>, role: DirRole) -> Seq<char> {
    spec_join(data_path, spec_role_name(role))
}

pub fn role_name(role: DirRole) -> (r: String)
    ensures
        r@ == spec_role_name(role),
{
    match role {
        DirRole::Wineprefixes => String::from_str("wineprefixes"),
        DirRole::Components => String::from_str("components"),
        DirRole::Temp => String::from_str("temp"),
        DirRole::Cache => String::from_str("cache"),
    }
}

pub fn default_dir(data_path: &str, role: DirRole) -> (r: String)
    ensures
        r@ == spec_default_dir(data_path@, role),
{
    let name = role_name(role);
    join_path(data_path, name.as_str())
}

/// What the filesystem reported about one directory: whether the persisted
/// path could be created (or already existed) writable, and the same for the
/// role's default path under the data directory.
#[derive(Debug, Clone, Copy, PartialEq, Eq, Structural)]
pub struct PathProbe {
    pub persisted_ok: bool,
    pub default_ok: bool,
}

/// Filesystem probe results for all four role directories.
#[derive(Debug, Clone, Copy, PartialEq, Eq, Structural)]
pub struct DirectoryProbe {
    pub wineprefixes: PathProbe,
    pub components: PathProbe,
    pub temp: PathProbe,
    pub cache: PathProbe,
}

/// A role directory is unusable: neither the persisted path nor the
/// default path derived from the data directory could be made writable.
/// Both attempted paths are carried for the diagnostic.
#[derive(Debug, Clone, PartialEq)]
pub enum SettingsError {
    DirectoryUnavailable { role: DirRole, persisted: String, fallback: String },
}

/// A probe admits no usable path for some role.
pub open spec fn spec_probe_fatal(probe: DirectoryProbe) -> bool {
    ||| (!probe.wineprefixes.persisted_ok && !probe.wineprefixes.default_ok)
    ||| (!probe.components.persisted_ok && !probe.components.default_ok)
    ||| (!probe.temp.persisted_ok && !probe.temp.default_ok)
    ||| (!probe.cache.persisted_ok && !probe.cache.default_ok)
}

/// The first role, in fixed order, whose probe admits no usable path.
pub open spec fn spec_first_fatal_role(probe: DirectoryProbe) -> DirRole {
    if !probe.wineprefixes.persisted_ok && !probe.wineprefixes.default_ok {
        DirRole::Wineprefixes
    } else if !probe.components.persisted_ok && !probe.components.default_ok {
        DirRole::Components
    } else if !probe.temp.persisted_ok && !probe.temp.default_ok {
        DirRole::Temp
    } else {
        DirRole::Cache
    }
}

pub open spec fn spec_old_dir(s: SettingsView, role: DirRole) -> Seq<char> {
    match role {
        DirRole::Wineprefixes => s.wineprefixes_directory,
        DirRole::Components => s.components_directory,
        DirRole::Temp => s.temp_directory,
        DirRole::Cache => s.cache_directory,
    }
}

impl GlobalSettings {
    /// A fresh settings record for a data directory: role directories at
    /// their defaults, the config file at `<data_path>/config.json`, and an
    /// empty (hence well-formed) game catalog.
    pub fn default(data_path: &str) -> (r: GlobalSettings)
        ensures
            r@.data_path == data_path@,
            r@.config_path == spec_join(data_path@, "config.json"@),
            r@.wineprefixes_directory == spec_default_dir(data_path@, DirRole::Wineprefixes),
            r@.components_directory == spec_default_dir(data_path@, DirRole::Components),
            r@.temp_directory == spec_default_dir(data_path@, DirRole::Temp),
            r@.cache_directory == spec_default_dir(data_path@, DirRole::Cache),
            r@.installed_games.len() == 0,
            spec_catalog_wf(r@.installed_games),
    {
        GlobalSettings {
            data_path: String::from_str(data_path),
            config_path: join_path(data_path, "config.json"),
            wineprefixes_directory: default_dir(data_path, DirRole::Wineprefixes),
            components_directory: default_dir(data_path, DirRole::Components),
            temp_directory: default_dir(data_path, DirRole::Temp),
            cache_directory: default_dir(data_path, DirRole::Cache),
            installed_games: Vec::new(),
        }
    }

    /// Per-field self-healing validation. The caller probes the filesystem
    /// and reports, for each role, whether the persisted path is usable and
    /// whether the role's default path is; this function replaces every
    /// unusable persisted path by the role's default. If some role has no
    /// usable path at all, nothing is changed and the first such role is
    /// reported with both attempted paths.
    pub fn validate(&mut self, probe: &DirectoryProbe) -> (r: Result<(), SettingsError>)
        ensures
            r is Ok <==> !spec_probe_fatal(*probe),
            match r {
                Ok(()) => {
                    &&& final(self).data_path == old(self).data_path
                    &&& final(self).config_path == old(self).config_path
                    &&& final(self).installed_games == old(self).installed_games
                    &&& (if probe.wineprefixes.persisted_ok {
                        final(self).wineprefixes_directory == old(self).wineprefixes_directory
                    } else {
                        final(self).wineprefixes_directory@ == spec_default_dir(
                            old(self).data_path@,
                            DirRole::Wineprefixes,
                        )
                    })
                    &&& (if probe.components.persisted_ok {
                        final(self).components_directory == old(self).components_directory
                    } else {
                        final(self).components_directory@ == spec_default_dir(
                            old(self).data_path@,
                            DirRole::Components,
                        )
                    })
                    &&& (if probe.temp.persisted_ok {
                        final(self).temp_directory == old(self).temp_directory
                    } else {
                        final(self).temp_directory@ == spec_default_dir(
                            old(self).data_path@,
                            DirRole::Temp,
                        )
                    })
                    &&& (if probe.cache.persisted_ok {
                        final(self).cache_directory == old(self).cache_directory
                    } else {
                        final(self).cache_directory@ == spec_default_dir(
                            old(self).data_path@,
                            DirRole::Cache,
                        )
                    })
                },
                Err(e) => {
                    &&& *final(self) == *old(self)
                    &&& match e {
                        SettingsError::DirectoryUnavailable { role, persisted, fallback } => {
                            &&& role == spec_first_fatal_role(*probe)
                            &&& persisted@ == spec_old_dir(old(self)@, role)
                            &&& fallback@ == spec_default_dir(old(self).data_path@, role)
                        },
                    }
                },
            },
    {
        if !probe.wineprefixes.persisted_ok && !probe.wineprefixes.default_ok {
            return Err(SettingsError::DirectoryUnavailable {
                role: DirRole::Wineprefixes,
                persisted: self.wineprefixes_directory.clone(),
                fallback: default_dir(self.data_path.as_str(), DirRole::Wineprefixes),
            });
        }
        if !probe.components.persisted_ok && !probe.components.default_ok {
            return Err(SettingsError::DirectoryUnavailable {
                role: DirRole::Components,
                persisted: self.components_directory.clone(),
                fallback: default_dir(self.data_path.as_str(), DirRole::Components),
            });
        }
        if !probe.temp.persisted_ok && !probe.temp.default_ok {
            return Err(SettingsError::DirectoryUnavailable {
                role: DirRole::Temp,
                persisted: self.temp_directory.clone(),
                fallback: default_dir(self.data_path.as_str(), DirRole::Temp),
            });
        }
        if !probe.cache.persisted_ok && !probe.cache.default_ok {
            return Err(SettingsError::DirectoryUnavailable {
                role: DirRole::Cache,
                persisted: self.cache_directory.clone(),
                fallback: default_dir(self.data_path.as_str(), DirRole::Cache),
            });
        }
        if !probe.wineprefixes.persisted_ok {
            let d = default_dir(self.data_path.as_str(), DirRole::Wineprefixes);
            self.wineprefixes_directory = d;
        }
        if !probe.components.persisted_ok {
            let d = default_dir(self.data_path.as_str(), DirRole::Components);
            self.components_directory = d;
        }
        if !probe.temp.persisted_ok {
            let d = default_dir(self.data_path.as_str(), DirRole::Temp);
            self.temp_directory = d;
        }
        if !probe.cache.persisted_ok {
            let d = default_dir(self.data_path.as_str(), DirRole::Cache);
            self.cache_directory = d;
        }
        Ok(())
    }

    /// Serialize the full settings record to its config-file form. The
    /// caller writes the text to the config file; a write failure is the
    /// caller's to log and is not fatal.
    pub fn save(&self) -> (r: String)
        ensures
            r@ == spec_emit_doc(spec_stored_of(self@)),
    {
        let mut out: Vec<char> = Vec::new();
        emit_doc_into(
            &mut out,
            &self.wineprefixes_directory,
            &self.components_directory,
            &self.temp_directory,
            &self.cache_directory,
            &self.installed_games,
        );
        proof {
            assert(spec_catalog_view(self.installed_games@) =~= self@.installed_games);
        }
        chars_to_string(&out)
    }

    /// Decode a settings record from the config file's text. The caller
    /// reads the file and passes `None` when it does not exist: that is the
    /// `NotFound` outcome, never an I/O error. Only the canonical compact
    /// form that [`GlobalSettings::save`] writes is accepted, with one
    /// allowance: a document without the catalog member loads as an empty
    /// catalog. Anything else — reordered keys, added whitespace, an unknown
    /// member, a catalog that repeats a game id or an environment that
    /// repeats a variable — is `ParseError`, and the caller falls back to
    /// defaults.
    pub fn load(data_path: &str, file: Option<String>) -> (r: Result<GlobalSettings, LoadError>)
        ensures
            file is None <==> r == Err::<GlobalSettings, LoadError>(LoadError::NotFound),
            match file {
                Some(text) => match spec_parse_doc(text@) {
                    Some(p) => if p.1.len() == 0 && spec_catalog_wf(p.0.installed_games) {
                        match r {
                            Ok(s) => {
                                &&& s@.data_path == data_path@
                                &&& s@.config_path == spec_join(data_path@, "config.json"@)
                                &&& spec_stored_of(s@) == p.0
                            },
                            Err(_) => false,
                        }
                    } else {
                        r == Err::<GlobalSettings, LoadError>(LoadError::ParseError)
                    },
                    None => r == Err::<GlobalSettings, LoadError>(LoadError::ParseError),
                },
                None => true,
            },
    {
        let text = match file {
            None => {
                return Err(LoadError::NotFound);
            },
            Some(t) => t,
        };
        let chars = to_chars(text.as_str());
        proof {
            assert(chars@.skip(0) =~= text@);
        }
        match parse_doc_at(&chars, 0) {
            Some(p) => {
                if p.1 == chars.len() && catalog_wf(&p.0.installed_games) {
                    proof {
                        match spec_parse_doc(text@) {
                            Some(sp) => {
                                assert(chars@.skip(p.1 as int) =~= Seq::<char>::empty());
                            },
                            None => {},
                        }
                    }
                    let stored = p.0;
                    let s = GlobalSettings {
                        data_path: String::from_str(data_path),
                        config_path: join_path(data_path, "config.json"),
                        wineprefixes_directory: stored.wineprefixes_directory,
                        components_directory: stored.components_directory,
                        temp_directory: stored.temp_directory,
                        cache_directory: stored.cache_directory,
                        installed_games: stored.installed_games,
                    };
                    proof {
                        assert(spec_stored_of(s@).installed_games =~= spec_catalog_view(
                            s.installed_games@,
                        ));
                    }
                    Ok(s)
                } else {
                    proof {
                        match spec_parse_doc(text@) {
                            Some(sp) => {
                                assert(sp.1.len() == chars@.len() - p.1);
                            },
                            None => {},
                        }
                    }
                    Err(LoadError::ParseError)
                }
            },
            None => Err(LoadError::ParseError),
        }
    }
}

/// Catalog entries are keyed by distinct game ids: the catalog is a
/// mapping, and insertion order carries no meaning.
pub open spec fn spec_unique_ids(entries: Seq<(Seq<char>, GameView)>) -> bool {
    forall|i: int, j: int| 0 <= i < j < entries.len() ==> entries[i].0 != entries[j].0
}

/// Whether the catalog's ids are pairwise distinct.
fn catalog_ids_unique(entries: &Vec<(String, InstalledGame)>) -> (r: bool)
    ensures
        r == spec_unique_ids(spec_catalog_view(entries@)),
{
    let ghost ev = spec_catalog_view(entries@);
    let n = entries.len();
    for i in 0..n
        invariant
            n == entries@.len(),
            ev == spec_catalog_view(entries@),
            forall|a: int, b: int| 0 <= a < b < i ==> ev[a].0 != ev[b].0,
    {
        for j in 0..i
            invariant
                i < n,
                n == entries@.len(),
                ev == spec_catalog_view(entries@),
                forall|a: int, b: int| 0 <= a < b < i ==> ev[a].0 != ev[b].0,
                forall|b: int| 0 <= b < j ==> ev[b].0 != ev[i as int].0,
        {
            if entries[j].0.eq(&entries[i].0) {
                proof {
                    assert(ev[j as int] == (entries@[j as int].0@, entries@[j as int].1@));
                    assert(ev[i as int] == (entries@[i as int].0@, entries@[i as int].1@));
                    assert(!spec_unique_ids(ev));
                }
                return false;
            }
        }
    }
    proof {
        assert(spec_unique_ids(ev));
    }
    true
}

/// A game's environment mapping has distinct keys.
pub open spec fn spec_unique_env_keys(env: Seq<(Seq<char>, Seq<char>)>) -> bool {
    forall|i: int, j: int| 0 <= i < j < env.len() ==> env[i].0 != env[j].0
}

/// A well-formed catalog: entries keyed by distinct game ids, and every
/// game's environment mapping keyed by distinct variable names.
pub open spec fn spec_catalog_wf(entries: Seq<(Seq<char>, GameView)>) -> bool {
    &&& spec_unique_ids(entries)
    &&& forall|i: int|
        0 <= i < entries.len() ==> #[trigger] spec_unique_env_keys(entries[i].1.environment)
}

/// Whether an environment's variable names are pairwise distinct.
fn env_keys_unique(env: &Vec<(String, String)>) -> (r: bool)
    ensures
        r == spec_unique_env_keys(spec_pairs_view(env@)),
{
    let ghost ev = spec_pairs_view(env@);
    let n = env.len();
    for i in 0..n
        invariant
            n == env@.len(),
            ev == spec_pairs_view(env@),
            forall|a: int, b: int| 0 <= a < b < i ==> ev[a].0 != ev[b].0,
    {
        for j in 0..i
            invariant
                i < n,
                n == env@.len(),
                ev == spec_pairs_view(env@),
                forall|a: int, b: int| 0 <= a < b < i ==> ev[a].0 != ev[b].0,
                forall|b: int| 0 <= b < j ==> ev[b].0 != ev[i as int].0,
        {
            if env[j].0.eq(&env[i].0) {
                proof {
                    assert(ev[j as int] == (env@[j as int].0@, env@[j as int].1@));
                    assert(ev[i as int] == (env@[i as int].0@, env@[i as int].1@));
                    assert(!spec_unique_env_keys(ev));
                }
                return false;
            }
        }
    }
    proof {
        assert(spec_unique_env_keys(ev));
    }
    true
}

/// Whether a catalog is well-formed: distinct game ids, and distinct
/// environment keys within every game.
fn catalog_wf(entries: &Vec<(String, InstalledGame)>) -> (r: bool)
    ensures
        r == spec_catalog_wf(spec_catalog_view(entries@)),
{
    let ghost cv = spec_catalog_view(entries@);
    if !catalog_ids_unique(entries) {
        return false;
    }
    let n = entries.len();
    for i in 0..n
        invariant
            n == entries@.len(),
            cv == spec_catalog_view(entries@),
            spec_unique_ids(cv),
            forall|a: int| 0 <= a < i ==> #[trigger] spec_unique_env_keys(cv[a].1.environment),
    {
        let unique = env_keys_unique(&entries[i].1.environment);
        proof {
            assert(cv[i as int] == (entries@[i as int].0@, entries@[i as int].1@));
            assert(cv[i as int].1.environment =~= spec_pairs_view(
                entries@[i as int].1.environment@,
            ));
        }
        if !unique {
            proof {
                assert(!spec_unique_env_keys(cv[i as int].1.environment));
                assert(!spec_catalog_wf(cv));
            }
            return false;
        }
    }
    true
}

/// The outcome of reading a config file that could not be decoded: absent
/// (recoverable, the caller builds defaults) or malformed.
#[derive(Debug, Clone, Copy, PartialEq, Eq, Structural)]
pub enum LoadError {
    NotFound,
    ParseError,
}

/// The persisted part of a settings record: the four directories and the
/// catalog, without the session-only data and config paths.
pub open spec fn spec_stored_of(s: SettingsView) -> StoredView {
    StoredView {
        wineprefixes_directory: s.wineprefixes_directory,
        components_directory: s.components_directory,
        temp_directory: s.temp_directory,
        cache_directory: s.cache_directory,
        installed_games: s.installed_games,
    }
}

/// Law: a save followed by a load round-trips the whole record. The decoder
/// consumes exactly the saved text and returns the same four directories and
/// the same installed-game catalog — same ids, same fields — whatever the
/// catalog holds and in whatever order its entries stand.
pub proof fn lemma_save_load_round_trip(v: SettingsView)
    ensures
        spec_parse_doc(spec_emit_doc(spec_stored_of(v))) == Some(
            (spec_stored_of(v), Seq::<char>::empty()),
        ),
{
    crate::json::lemma_parse_doc_inverts(spec_stored_of(v), Seq::<char>::empty());
    assert(spec_emit_doc(spec_stored_of(v)) + Seq::<char>::empty() =~= spec_emit_doc(
        spec_stored_of(v),
    ));
}

} // verus!
