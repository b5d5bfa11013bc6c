//! The set of configured projects, and the rules for what a person may
//! enter when a project is added.

use crate::text::{
    char_is_whitespace, is_whitespace, join_path, joined_path, owned, to_chars, trim, trimmed,
};
use crate::{ErrorView, GlobalConfig, PorterError, ProjectConfig};
use vstd::prelude::*;
use vstd::string::*;

verus! {

/// A project under the identifier it is known by.
#[derive(Debug, Clone)]
pub struct ProjectEntry {
    pub id: String,
    pub config: ProjectConfig,
}

/// The configuration: global settings and the projects, each under its
/// own identifier.
#[derive(Debug, Clone)]
pub struct ConfigFile {
    pub settings: GlobalConfig,
    pub projects: Vec<ProjectEntry>,
}

impl Default for ConfigFile {
    fn default() -> (r: ConfigFile)
        ensures
            r.wf(),
            r.as_map() == Map::<Seq<char>, ProjectConfig>::empty(),
            r.settings.default_license is None,
            r.settings.secrets_scan_level is None,
    {
        let r = ConfigFile {
            settings: GlobalConfig { default_license: None, secrets_scan_level: None },
            projects: Vec::new(),
        };
        assert(r.as_map() =~= Map::<Seq<char>, ProjectConfig>::empty());
        r
    }
}

impl ConfigFile {
    /// The entry at `i` is known by `id`.
    pub open spec fn known_at(&self, id: Seq<char>, i: int) -> bool {
        0 <= i < self.projects.len() && self.projects[i].id@ == id
    }

    /// No identifier is used twice.
    pub open spec fn wf(&self) -> bool {
        forall|i: int, j: int|
            0 <= i < j < self.projects.len() ==> self.projects[i].id@ != self.projects[j].id@
    }

    /// The projects as a map from identifier to project.
    pub open spec fn as_map(&self) -> Map<Seq<char>, ProjectConfig> {
        Map::new(
            |id: Seq<char>| exists|i: int| self.known_at(id, i),
            |id: Seq<char>| self.projects[choose|i: int| self.known_at(id, i)].config,
        )
    }

    fn find(&self, id: &str) -> (r: Option<usize>)
        ensures
            match r {
                Some(i) => self.known_at(id@, i as int),
                None => forall|i: int| !self.known_at(id@, i),
            },
    {
        let wanted = owned(id);
        let mut i: usize = 0;
        while i < self.projects.len()
            invariant
                i <= self.projects.len(),
                wanted@ == id@,
                forall|j: int| 0 <= j < i ==> self.projects[j].id@ != id@,
            decreases self.projects.len() - i,
        {
            if self.projects[i].id == wanted {
                return Some(i);
            }
            i += 1;
        }
        None
    }

    /// Whether a project is known by `id`.
    pub fn contains_key(&self, id: &str) -> (r: bool)
        ensures
            r == self.as_map().dom().contains(id@),
    {
        self.find(id).is_some()
    }

    /// The project known by `id`.
    pub fn get(&self, id: &str) -> (r: Option<&ProjectConfig>)
        requires
            self.wf(),
        ensures
            match r {
                Some(project) => self.as_map().dom().contains(id@) && *project
                    == self.as_map()[id@],
                None => !self.as_map().dom().contains(id@),
            },
    {
        match self.find(id) {
            Some(i) => {
                proof {
                    let j = choose|j: int| self.known_at(id@, j);
                    assert(self.known_at(id@, i as int));
                    assert(j == i);
                }
                Some(&self.projects[i].config)
            },
            None => None,
        }
    }

    /// Makes `config` the project known by `id`, and yields the project
    /// that was known by it before.
    pub fn insert(&mut self, id: String, config: ProjectConfig) -> (r: Option<ProjectConfig>)
        requires
            old(self).wf(),
        ensures
            final(self).wf(),
            final(self).as_map() == old(self).as_map().insert(id@, config),
            final(self).settings == old(self).settings,
            match r {
                Some(project) => old(self).as_map().dom().contains(id@) && project == old(
                    self,
                ).as_map()[id@],
                None => !old(self).as_map().dom().contains(id@),
            },
    {
        let previous = self.remove(id.as_str());
        let ghost without = *self;
        self.projects.push(ProjectEntry { id, config });
        proof {
            let n = without.projects.len() as int;
            assert(self.known_at(id@, n));
            assert(!without.as_map().dom().contains(id@));
            assert forall|i: int| 0 <= i < n implies self.projects[i].id@ != id@ by {
                assert(self.projects[i] == without.projects[i]);
                if without.projects[i].id@ == id@ {
                    assert(without.known_at(id@, i));
                }
            }
            assert(self.wf()) by {
                assert forall|i: int, j: int|
                    0 <= i < j < self.projects.len() implies self.projects[i].id@
                    != self.projects[j].id@ by {
                    if j < n {
                        assert(self.projects[i] == without.projects[i]);
                        assert(self.projects[j] == without.projects[j]);
                    }
                }
            }
            assert forall|k: Seq<char>| #[trigger]
                self.as_map().dom().contains(k) == without.as_map().insert(
                    id@,
                    config,
                ).dom().contains(k) by {
                if without.as_map().dom().contains(k) {
                    let i = choose|i: int| without.known_at(k, i);
                    assert(self.known_at(k, i));
                }
                if self.as_map().dom().contains(k) && k != id@ {
                    let i = choose|i: int| self.known_at(k, i);
                    assert(without.known_at(k, i));
                }
            }
            assert forall|k: Seq<char>| #[trigger]
                self.as_map().dom().contains(k) implies self.as_map()[k] == without.as_map().insert(
                id@,
                config,
            )[k] by {
                let i = choose|i: int| self.known_at(k, i);
                if k == id@ {
                    assert(i == n);
                } else {
                    assert(without.known_at(k, i));
                    let j = choose|j: int| without.known_at(k, j);
                    assert(i == j);
                }
            }
            assert(self.as_map() =~= without.as_map().insert(id@, config));
            assert(without.as_map().insert(id@, config) =~= old(self).as_map().insert(id@, config));
        }
        previous
    }

    /// Forgets the project known by `id`, and yields it.
    pub fn remove(&mut self, id: &str) -> (r: Option<ProjectConfig>)
        requires
            old(self).wf(),
        ensures
            final(self).wf(),
            final(self).as_map() == old(self).as_map().remove(id@),
            final(self).settings == old(self).settings,
            match r {
                Some(project) => old(self).as_map().dom().contains(id@) && project == old(
                    self,
                ).as_map()[id@],
                None => !old(self).as_map().dom().contains(id@),
            },
    {
        match self.find(id) {
            None => {
                assert(self.as_map() =~= old(self).as_map().remove(id@));
                None
            },
            Some(at) => {
                let entry = self.projects.remove(at);
                proof {
                    let before = *old(self);
                    let p = at as int;
                    assert(before.known_at(id@, p));
                    assert forall|k: Seq<char>| #[trigger]
                        self.as_map().dom().contains(k) == before.as_map().remove(
                            id@,
                        ).dom().contains(k) by {
                        if self.as_map().dom().contains(k) {
                            let i = choose|i: int| self.known_at(k, i);
                            if i < p {
                                assert(before.known_at(k, i));
                            } else {
                                assert(before.known_at(k, i + 1));
                            }
                        }
                        if before.as_map().dom().contains(k) && k != id@ {
                            let i = choose|i: int| before.known_at(k, i);
                            if i < p {
                                assert(self.known_at(k, i));
                            } else {
                                assert(self.known_at(k, i - 1));
                            }
                        }
                    }
                    assert forall|k: Seq<char>| #[trigger]
                        self.as_map().dom().contains(k) implies self.as_map()[k]
                        == before.as_map().remove(id@)[k] by {
                        let i = choose|i: int| self.known_at(k, i);
                        let j = choose|j: int| before.known_at(k, j);
                        if i < p {
                            assert(before.known_at(k, i));
                        } else {
                            assert(before.known_at(k, i + 1));
                        }
                    }
                    assert(self.as_map() =~= before.as_map().remove(id@));
                    let j = choose|j: int| before.known_at(id@, j);
                    assert(j == p);
                }
                Some(entry.config)
            },
        }
    }
}

/// The text holds whitespace or a period.
pub open spec fn has_separator(s: Seq<char>) -> bool {
    exists|i: int| 0 <= i < s.len() && (is_whitespace(#[trigger] s[i]) || s[i] == '.')
}

/// Whether an entered identifier may name a new project: without the
/// whitespace around it, it must not be empty, must hold neither whitespace
/// nor a period, and must not be in use. Otherwise the text says why not.
pub open spec fn project_id_check(
    input: Seq<char>,
    known: Set<Seq<char>>,
) -> Result<(), Seq<char>> {
    let id = trimmed(input);
    if id.len() == 0 {
        Err("Project ID cannot be empty."@)
    } else if has_separator(id) {
        Err("Project ID should not contain whitespace or periods."@)
    } else if known.contains(id) {
        Err("Project ID '"@ + id + "' already exists in the configuration."@)
    } else {
        Ok(())
    }
}

/// The content of a result whose error is a text.
pub open spec fn check_view(r: Result<(), String>) -> Result<(), Seq<char>> {
    match r {
        Ok(_) => Ok(()),
        Err(m) => Err(m@),
    }
}

fn holds_separator(id: &str) -> (r: bool)
    ensures
        r == has_separator(id@),
{
    let v = to_chars(id);
    let mut i: usize = 0;
    while i < v.len()
        invariant
            i <= v.len(),
            v@ == id@,
            forall|j: int| 0 <= j < i ==> !(is_whitespace(#[trigger] v@[j]) || v@[j] == '.'),
        decreases v.len() - i,
    {
        if char_is_whitespace(v[i]) || v[i] == '.' {
            assert(is_whitespace(id@[i as int]) || id@[i as int] == '.');
            return true;
        }
        i += 1;
    }
    false
}

/// Judges an identifier entered for a new project: see [`project_id_check`].
pub fn validate_project_id(input: &str, config: &ConfigFile) -> (r: Result<(), String>)
    ensures
        check_view(r) == project_id_check(input@, config.as_map().dom()),
{
    let id = trim(input);
    if id.as_str().unicode_len() == 0 {
        return Err(owned("Project ID cannot be empty."));
    }
    if holds_separator(id.as_str()) {
        return Err(owned("Project ID should not contain whitespace or periods."));
    }
    if config.contains_key(id.as_str()) {
        let mut message = owned("Project ID '");
        message.append(id.as_str());
        message.append("' already exists in the configuration.");
        return Err(message);
    }
    Ok(())
}

/// Judges a branch name entered for a project: it must hold more than whitespace.
pub fn validate_branch_name(input: &str) -> (r: Result<(), String>)
    ensures
        check_view(r) == if trimmed(input@).len() == 0 {
            Err::<(), Seq<char>>("Branch name cannot be empty."@)
        } else {
            Ok(())
        },
{
    let name = trim(input);
    if name.as_str().unicode_len() == 0 {
        Err(owned("Branch name cannot be empty."))
    } else {
        Ok(())
    }
}

/// The value of a field that may be left empty: the entered text without
/// the whitespace around it, or nothing where that is empty.
pub fn optional_text(input: &str) -> (r: Option<String>)
    ensures
        r.deep_view() == if trimmed(input@).len() == 0 {
            None
        } else {
            Some(trimmed(input@))
        },
{
    let value = trim(input);
    if value.as_str().unicode_len() == 0 {
        None
    } else {
        Some(value)
    }
}

/// The history mode that a person picked from the list of the two modes.
pub fn history_mode_at(index: usize) -> (r: crate::HistoryMode)
    ensures
        r == if index == 0 {
            crate::HistoryMode::CleanSlate
        } else {
            crate::HistoryMode::Preserve
        },
{
    if index == 0 {
        crate::HistoryMode::CleanSlate
    } else {
        crate::HistoryMode::Preserve
    }
}

/// The name of the configuration file in the home directory.
pub const CONFIG_FILE_NAME: &'static str = ".oss-porter.toml";

/// Where the configuration is kept when no other place is named: in the
/// home directory, which has to be known.
pub fn get_default_config_path(home_dir: Option<&str>) -> (r: Result<String, PorterError>)
    ensures
        match home_dir {
            Some(home) => r matches Ok(path) && path@ == joined_path(home@, CONFIG_FILE_NAME@),
            None => r matches Err(e) && e.deep_view() == ErrorView::Config(
                "Could not determine user's home directory."@,
            ),
        },
{
    match home_dir {
        Some(home) => Ok(join_path(home, CONFIG_FILE_NAME)),
        None => Err(PorterError::Config(owned("Could not determine user's home directory."))),
    }
}

/// Why the configuration could not be loaded.
#[derive(Debug, Clone)]
pub enum LoadFailure {
    /// There is no file at the path.
    NotFound,
    /// The file could not be read; the text says why.
    Unreadable(String),
    /// The file's contents are no configuration; the text says why.
    Malformed(String),
}

/// The mathematical content of a [`LoadFailure`].
pub enum LoadFailureView {
    NotFound,
    Unreadable(Seq<char>),
    Malformed(Seq<char>),
}

impl DeepView for LoadFailure {
    type V = LoadFailureView;

    open spec fn deep_view(&self) -> LoadFailureView {
        match self {
            LoadFailure::NotFound => LoadFailureView::NotFound,
            LoadFailure::Unreadable(d) => LoadFailureView::Unreadable(d@),
            LoadFailure::Malformed(d) => LoadFailureView::Malformed(d@),
        }
    }
}

/// The error that a failed load is reported as.
pub open spec fn load_error(path: Seq<char>, failure: LoadFailureView) -> ErrorView {
    match failure {
        LoadFailureView::NotFound => ErrorView::ConfigNotFound(path),
        LoadFailureView::Unreadable(detail) => ErrorView::Io { detail: detail, path: path },
        LoadFailureView::Malformed(detail) => ErrorView::Config(
            "Failed to parse config file '"@ + path + "': "@ + detail,
        ),
    }
}

/// Judges the attempt to load the configuration at `path`: a configuration
/// that was read is handed on, a failure becomes the error it is reported as.
pub fn load_config(
    path: &str,
    loaded: Result<ConfigFile, LoadFailure>,
) -> (r: Result<ConfigFile, PorterError>)
    ensures
        match loaded {
            Ok(config) => r == Ok::<ConfigFile, PorterError>(config),
            Err(failure) => r matches Err(e) && e.deep_view() == load_error(
                path@,
                failure.deep_view(),
            ),
        },
{
    match loaded {
        Ok(config) => Ok(config),
        Err(LoadFailure::NotFound) => Err(PorterError::ConfigNotFound(owned(path))),
        Err(LoadFailure::Unreadable(detail)) => Err(
            PorterError::Io { detail: detail, path: owned(path) },
        ),
        Err(LoadFailure::Malformed(detail)) => {
            let mut message = owned("Failed to parse config file '");
            message.append(path);
            message.append("': ");
            message.append(detail.as_str());
            Err(PorterError::Config(message))
        },
    }
}

} // verus!
