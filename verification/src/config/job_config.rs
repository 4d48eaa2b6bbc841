//! Job definitions: what a job is, which files of a configuration tree
//! define one, and when a set of loaded definitions is accepted.

use crate::text::{clone_strings, texts};
use vstd::prelude::*;
use vstd::string::StringExecFns;

verus! {

/// The timeout of a job that configures none, in milliseconds.
pub const DEFAULT_RESULT_WAIT_TIMEOUT_MILLIS: i64 = 10_000;

/// What happens to a reported result when stored documents already match it.
#[derive(Debug, Clone, Copy, PartialEq, Eq, Structural)]
pub enum OnDuplicateEntry {
    /// Keep the stored document and only refresh its update time.
    IgnoreNew,
    /// Replace the stored document, keeping its creation time.
    Overwrite,
    /// Store the fields that changed as a further document.
    TrackChanges,
}

/// How results of one job are matched against what is stored.
#[derive(Debug)]
pub struct DuplicateEntryPolicy {
    /// The document fields that together identify a result.
    pub unique_ids: Vec<String>,
    pub on_duplicate_entry: OnDuplicateEntry,
}

/// A [`DuplicateEntryPolicy`] as plain values.
pub struct DuplicateEntryPolicyView {
    pub unique_ids: Seq<Seq<char>>,
    pub on_duplicate_entry: OnDuplicateEntry,
}

impl View for DuplicateEntryPolicy {
    type V = DuplicateEntryPolicyView;

    open spec fn view(&self) -> DuplicateEntryPolicyView {
        DuplicateEntryPolicyView {
            unique_ids: texts(self.unique_ids@),
            on_duplicate_entry: self.on_duplicate_entry,
        }
    }
}

/// The policy of a job that configures none.
pub open spec fn default_policy() -> DuplicateEntryPolicyView {
    DuplicateEntryPolicyView {
        unique_ids: Seq::empty(),
        on_duplicate_entry: OnDuplicateEntry::TrackChanges,
    }
}

impl Clone for DuplicateEntryPolicy {
    fn clone(&self) -> (r: Self)
        ensures
            r@ == self@,
    {
        DuplicateEntryPolicy {
            unique_ids: clone_strings(&self.unique_ids),
            on_duplicate_entry: self.on_duplicate_entry,
        }
    }
}

/// One job: an executable, its schedule, and how its results are stored.
#[derive(Debug)]
pub struct JobConfig {
    /// The name of the job, which is also the name of its collection.
    pub name: String,
    pub path_to_executable: String,
    pub arguments: Vec<String>,
    pub cron_string: String,
    pub tags: Vec<String>,
    /// How long a run may take to report, in milliseconds.
    pub result_wait_timeout_millis: Option<i64>,
    /// The upper end of the random delay of each firing, in seconds.
    pub random_trigger_offset_seconds: Option<i64>,
    pub duplicate_entry_policy: Option<DuplicateEntryPolicy>,
}

/// A [`JobConfig`] as plain values.
pub struct JobConfigView {
    pub name: Seq<char>,
    pub path_to_executable: Seq<char>,
    pub arguments: Seq<Seq<char>>,
    pub cron_string: Seq<char>,
    pub tags: Seq<Seq<char>>,
    pub result_wait_timeout_millis: Option<i64>,
    pub random_trigger_offset_seconds: Option<i64>,
    pub duplicate_entry_policy: Option<DuplicateEntryPolicyView>,
}

impl View for JobConfig {
    type V = JobConfigView;

    open spec fn view(&self) -> JobConfigView {
        JobConfigView {
            name: self.name@,
            path_to_executable: self.path_to_executable@,
            arguments: texts(self.arguments@),
            cron_string: self.cron_string@,
            tags: texts(self.tags@),
            result_wait_timeout_millis: self.result_wait_timeout_millis,
            random_trigger_offset_seconds: self.random_trigger_offset_seconds,
            duplicate_entry_policy: match self.duplicate_entry_policy {
                Some(p) => Some(p@),
                None => None,
            },
        }
    }
}

impl JobConfigView {
    /// The timeout that applies: the configured one, else the default.
    pub open spec fn effective_timeout_millis(self) -> int {
        match self.result_wait_timeout_millis {
            Some(t) => t as int,
            None => DEFAULT_RESULT_WAIT_TIMEOUT_MILLIS as int,
        }
    }

    /// The policy that applies: the configured one, else the default.
    pub open spec fn effective_policy(self) -> DuplicateEntryPolicyView {
        match self.duplicate_entry_policy {
            Some(p) => p,
            None => default_policy(),
        }
    }
}

impl Clone for JobConfig {
    fn clone(&self) -> (r: Self)
        ensures
            r@ == self@,
    {
        JobConfig {
            name: self.name.clone(),
            path_to_executable: self.path_to_executable.clone(),
            arguments: clone_strings(&self.arguments),
            cron_string: self.cron_string.clone(),
            tags: clone_strings(&self.tags),
            result_wait_timeout_millis: self.result_wait_timeout_millis,
            random_trigger_offset_seconds: self.random_trigger_offset_seconds,
            duplicate_entry_policy: match &self.duplicate_entry_policy {
                Some(p) => Some(p.clone()),
                None => None,
            },
        }
    }
}

/// The views of a list of job definitions, in order.
pub open spec fn config_views(v: Seq<JobConfig>) -> Seq<JobConfigView> {
    Seq::new(v.len(), |i: int| v[i]@)
}

impl JobConfig {
    /// The timeout that applies to a run of this job, in milliseconds.
    pub fn effective_timeout_millis(&self) -> (r: i64)
        ensures
            r == self@.effective_timeout_millis(),
    {
        match self.result_wait_timeout_millis {
            Some(t) => t,
            None => DEFAULT_RESULT_WAIT_TIMEOUT_MILLIS,
        }
    }

    /// The duplicate policy that applies to results of this job.
    pub fn effective_policy(&self) -> (r: DuplicateEntryPolicy)
        ensures
            r@ == self@.effective_policy(),
    {
        match &self.duplicate_entry_policy {
            Some(p) => p.clone(),
            None => {
                let r = DuplicateEntryPolicy {
                    unique_ids: Vec::new(),
                    on_duplicate_entry: OnDuplicateEntry::TrackChanges,
                };
                assert(r@.unique_ids =~= Seq::<Seq<char>>::empty());
                r
            },
        }
    }
}

/// The token that stands for the directory of a job definition file.
pub open spec fn directory_placeholder() -> Seq<char> {
    "${CONFIGURATION_FILE_DIRECTORY}"@
}

/// The ending of the name of a job definition file.
pub open spec fn config_file_suffix() -> Seq<char> {
    ".config.toml"@
}

/// The text to parse for a job definition file, or why there is none.
pub open spec fn prepared_text(
    path: Seq<char>,
    is_file: bool,
    contents: Result<String, String>,
    parent_dir: Option<String>,
) -> Result<Seq<char>, Seq<char>> {
    if !is_file {
        Err("The path '"@ + path + "' is not a valid file."@)
    } else {
        match contents {
            Err(reason) => Err(reason@),
            Ok(text) => match parent_dir {
                None => Err("Failed to get the parent directory of '"@ + path + "'"@),
                Some(dir) => Ok(crate::text::replaced(text@, directory_placeholder(), dir@)),
            },
        }
    }
}

/// What a walk of the configuration tree meets.
#[derive(Debug)]
pub enum DirEntry {
    /// A regular file, with its path and its name within its directory.
    File { path: String, file_name: String },
    /// A directory; what it holds follows in the listing.
    Directory { path: String },
    /// Anything else.
    Other { path: String },
}

/// Whether an entry is a job definition file: a regular file whose name
/// ends in `.config.toml`.
pub open spec fn is_config_file(entry: DirEntry) -> bool {
    entry matches DirEntry::File { path, file_name } && crate::text::has_suffix(
        file_name@,
        config_file_suffix(),
    )
}

/// The paths of the job definition files among the first `n` entries of a
/// listing, in the order of the listing.
pub open spec fn config_file_paths(listing: Seq<DirEntry>, n: int) -> Seq<Seq<char>>
    decreases n,
{
    if n <= 0 || n > listing.len() {
        Seq::empty()
    } else if is_config_file(listing[n - 1]) {
        config_file_paths(listing, n - 1).push(listing[n - 1]->File_path@)
    } else {
        config_file_paths(listing, n - 1)
    }
}

/// A job definition file as it was read: the definition it holds, or why
/// it could not be read or understood.
#[derive(Debug)]
pub struct LoadedFile {
    pub path: String,
    pub outcome: Result<JobConfig, String>,
}

/// Why a set of job definitions was refused.
#[derive(Debug)]
pub enum ConfigError {
    /// A file could not be read or understood.
    Load { path: String, reason: String },
    /// A second definition uses a name that an earlier one has.
    DuplicateName { name: String },
}

/// A [`ConfigError`] as plain values.
pub enum ConfigErrorView {
    Load { path: Seq<char>, reason: Seq<char> },
    DuplicateName { name: Seq<char> },
}

impl View for ConfigError {
    type V = ConfigErrorView;

    open spec fn view(&self) -> ConfigErrorView {
        match self {
            ConfigError::Load { path, reason } => ConfigErrorView::Load { path: path@, reason: reason@ },
            ConfigError::DuplicateName { name } => ConfigErrorView::DuplicateName { name: name@ },
        }
    }
}

impl ConfigErrorView {
    /// The error in words.
    pub open spec fn message(self) -> Seq<char> {
        match self {
            ConfigErrorView::Load { path, reason } => "Failed to load job configuration '"@ + path
                + "': "@ + reason,
            ConfigErrorView::DuplicateName { name } => "Duplicate job name '"@ + name + "'"@,
        }
    }
}

impl ConfigError {
    /// The error in words.
    pub fn message(&self) -> (r: String)
        ensures
            r@ == self@.message(),
    {
        match self {
            ConfigError::Load { path, reason } => {
                let mut r = String::from_str("Failed to load job configuration '");
                r.append(path.as_str());
                r.append("': ");
                r.append(reason.as_str());
                r
            },
            ConfigError::DuplicateName { name } => {
                let mut r = String::from_str("Duplicate job name '");
                r.append(name.as_str());
                r.append("'");
                r
            },
        }
    }
}

/// Whether the file at position `i` makes the load fail: it could not be
/// read or understood, or an earlier file defines a job of the same name.
pub open spec fn is_rejected(files: Seq<LoadedFile>, i: int) -> bool {
    &&& 0 <= i < files.len()
    &&& match files[i].outcome {
        Err(_) => true,
        Ok(config) => exists|j: int|
            0 <= j < i && (#[trigger] files[j]).outcome is Ok && files[j].outcome->Ok_0.name@
                == config.name@,
    }
}

/// The error that the file at position `i` is refused with.
pub open spec fn rejection(files: Seq<LoadedFile>, i: int) -> ConfigErrorView {
    match files[i].outcome {
        Err(reason) => ConfigErrorView::Load { path: files[i].path@, reason: reason@ },
        Ok(config) => ConfigErrorView::DuplicateName { name: config.name@ },
    }
}

/// No two job definitions share a name.
pub open spec fn distinct_job_names(configs: Seq<JobConfigView>) -> bool {
    forall|i: int, j: int|
        0 <= i < j < configs.len() ==> (#[trigger] configs[i]).name != (#[trigger] configs[j]).name
}

impl JobConfig {
    /// Whether a file of this name holds a job definition.
    pub fn is_config_file_name(file_name: &str) -> (r: bool)
        ensures
            r == crate::text::has_suffix(file_name@, config_file_suffix()),
    {
        crate::text::ends_with(file_name, ".config.toml")
    }

    /// The text of a job definition file with the placeholder for its
    /// directory filled in.
    pub fn substitute_configuration_directory(contents: &str, parent_dir: &str) -> (r: String)
        ensures
            r@ == crate::text::replaced(contents@, directory_placeholder(), parent_dir@),
    {
        proof {
            reveal_strlit("${CONFIGURATION_FILE_DIRECTORY}");
        }
        crate::text::replace(contents, "${CONFIGURATION_FILE_DIRECTORY}", parent_dir)
    }

    /// The text to parse for the job definition file at `path`, given what
    /// was found there: whether it is a regular file, its contents or why
    /// they could not be read, and its directory where it has one.
    ///
    /// The checks are made in this order: the path must be a regular file,
    /// its contents must have been read, and it must have a directory. Then
    /// the placeholder for the directory is filled in.
    pub fn from_file(
        path: &str,
        is_file: bool,
        contents: Result<String, String>,
        parent_dir: Option<String>,
    ) -> (r: Result<String, String>)
        ensures
            match r {
                Ok(text) => prepared_text(path@, is_file, contents, parent_dir) == Ok::<
                    Seq<char>,
                    Seq<char>,
                >(text@),
                Err(reason) => prepared_text(path@, is_file, contents, parent_dir) == Err::<
                    Seq<char>,
                    Seq<char>,
                >(reason@),
            },
    {
        if !is_file {
            return Err(crate::text::concat3("The path '", path, "' is not a valid file."));
        }
        let contents = match contents {
            Ok(contents) => contents,
            Err(reason) => {
                return Err(reason);
            },
        };
        let parent_dir = match parent_dir {
            Some(parent_dir) => parent_dir,
            None => {
                return Err(crate::text::concat3("Failed to get the parent directory of '", path, "'"));
            },
        };
        Ok(Self::substitute_configuration_directory(contents.as_str(), parent_dir.as_str()))
    }

    /// The paths of the job definition files of a listing, in its order.
    pub fn recursive_load(listing: &Vec<DirEntry>) -> (paths: Vec<String>)
        ensures
            texts(paths@) == config_file_paths(listing@, listing@.len() as int),
    {
        let mut paths: Vec<String> = Vec::new();
        let mut i: usize = 0;
        assert(texts(paths@) =~= config_file_paths(listing@, 0));
        while i < listing.len()
            invariant
                i <= listing.len(),
                texts(paths@) == config_file_paths(listing@, i as int),
            decreases listing.len() - i,
        {
            match &listing[i] {
                DirEntry::File { path, file_name } => {
                    if Self::is_config_file_name(file_name.as_str()) {
                        let ghost before = paths@;
                        paths.push(path.clone());
                        assert(texts(paths@) =~= texts(before).push(path@));
                    }
                },
                _ => {},
            }
            i = i + 1;
        }
        paths
    }

    /// Accepts or refuses the job definitions of a configuration tree.
    ///
    /// The files are taken in order. The load fails with the first file
    /// that could not be read or understood, or that defines a job under a
    /// name that an earlier file uses. Otherwise every definition is
    /// returned, in the order of the files.
    pub fn load_configs_from_directory(files: &Vec<LoadedFile>) -> (r: Result<Vec<JobConfig>, ConfigError>)
        ensures
            match r {
                Ok(configs) => {
                    &&& forall|i: int| 0 <= i < files.len() ==> !is_rejected(files@, i)
                    &&& configs.len() == files.len()
                    &&& forall|i: int|
                        0 <= i < files.len() ==> (#[trigger] configs[i])@ == files[i].outcome->Ok_0@
                    &&& distinct_job_names(config_views(configs@))
                },
                Err(error) => exists|i: int|
                    #[trigger] is_rejected(files@, i) && error@ == rejection(files@, i) && forall|j: int|
                        0 <= j < i ==> !is_rejected(files@, j),
            },
    {
        let mut configs: Vec<JobConfig> = Vec::new();
        let mut i: usize = 0;
        while i < files.len()
            invariant
                i <= files.len(),
                configs.len() == i,
                forall|k: int| 0 <= k < i ==> !is_rejected(files@, k),
                forall|k: int| 0 <= k < i ==> (#[trigger] files@[k]).outcome is Ok,
                forall|k: int| 0 <= k < i ==> (#[trigger] configs@[k])@ == files@[k].outcome->Ok_0@,
            decreases files.len() - i,
        {
            match &files[i].outcome {
                Err(reason) => {
                    assert(is_rejected(files@, i as int));
                    return Err(ConfigError::Load { path: files[i].path.clone(), reason: reason.clone() });
                },
                Ok(config) => {
                    let mut j: usize = 0;
                    while j < i
                        invariant
                            j <= i,
                            i < files.len(),
                            configs.len() == i,
                            files[i as int].outcome == Ok::<JobConfig, String>(*config),
                            forall|k: int| 0 <= k < i ==> !is_rejected(files@, k),
                            forall|k: int| 0 <= k < i ==> (#[trigger] files@[k]).outcome is Ok,
                            forall|k: int|
                                0 <= k < i ==> (#[trigger] configs@[k])@ == files@[k].outcome->Ok_0@,
                            forall|k: int|
                                0 <= k < j ==> (#[trigger] files@[k]).outcome->Ok_0.name@ != config.name@,
                        decreases i - j,
                    {
                        if configs[j].name.eq(&config.name) {
                            assert(configs@[j as int]@ == files@[j as int].outcome->Ok_0@);
                            assert(files@[j as int].outcome->Ok_0.name@ == config.name@);
                            assert(is_rejected(files@, i as int));
                            return Err(ConfigError::DuplicateName { name: config.name.clone() });
                        }
                        assert(configs@[j as int]@ == files@[j as int].outcome->Ok_0@);
                        j = j + 1;
                    }
                    assert(!is_rejected(files@, i as int));
                    configs.push(config.clone());
                },
            }
            i = i + 1;
        }
        proof {
            let views = config_views(configs@);
            assert forall|a: int, b: int| 0 <= a < b < views.len() implies (#[trigger] views[a]).name != (
            #[trigger] views[b]).name by {
                assert(!is_rejected(files@, b));
                if views[a].name == views[b].name {
                    assert(files[a].outcome is Ok && files[a].outcome->Ok_0.name@ == files[b].outcome->Ok_0.name@);
                }
            }
        }
        Ok(configs)
    }
}

} // verus!
