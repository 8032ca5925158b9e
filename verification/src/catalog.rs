//! The model catalog: logical model names and the files behind them.

use vstd::prelude::*;
use vstd::string::*;
use crate::config::TranscribeModuleConfig;
use crate::error::{ErrorKind, JobError};
use crate::text::same_text;

verus! {

/// One catalog entry: a logical model name and the file that holds the model.
#[derive(Clone, Debug, PartialEq, Eq)]
pub struct ModelMapping {
    pub name: String,
    pub filename: String,
}

/// The catalog. Where a name occurs more than once, its first entry counts.
#[derive(Clone, Debug, PartialEq, Eq)]
pub struct ModelConfig {
    pub model_directory: String,
    pub default_model: String,
    pub mappings: Vec<ModelMapping>,
}

/// The server's configuration.
#[derive(Clone, Debug, PartialEq, Eq)]
pub struct Config {
    pub port: u16,
    pub models: ModelConfig,
    pub transcribe_module: TranscribeModuleConfig,
}

/// Where a model file lies: a directory and a file name in it.
#[derive(Clone, Debug, PartialEq, Eq)]
pub struct ModelPath {
    pub directory: String,
    pub filename: String,
}

impl View for ModelPath {
    type V = (Seq<char>, Seq<char>);

    open spec fn view(&self) -> (Seq<char>, Seq<char>) {
        (self.directory@, self.filename@)
    }
}

/// The file name of the first entry for `name` at or after position `from`.
pub open spec fn lookup_from(entries: Seq<ModelMapping>, name: Seq<char>, from: int) -> Option<
    Seq<char>,
>
    decreases entries.len() - from,
{
    if from < 0 || from >= entries.len() {
        None
    } else if entries[from].name@ == name {
        Some(entries[from].filename@)
    } else {
        lookup_from(entries, name, from + 1)
    }
}

/// Whether the entry at `at` is the one that counts for its name: no entry
/// before it has the same name.
pub open spec fn counts(entries: Seq<ModelMapping>, at: int) -> bool {
    &&& 0 <= at < entries.len()
    &&& forall|j: int| 0 <= j < at ==> (#[trigger] entries[j]).name@ != entries[at].name@
}

/// The names among the first `n` entries whose file is on disk, in catalog
/// order. Only the entry that counts for a name is looked at, and an entry
/// without a flag in `on_disk` counts as absent.
pub open spec fn available_names(entries: Seq<ModelMapping>, on_disk: Seq<bool>, n: int) -> Seq<
    Seq<char>,
>
    decreases n,
{
    if n <= 0 {
        Seq::empty()
    } else {
        let rest = available_names(entries, on_disk, n - 1);
        if counts(entries, n - 1) && n - 1 < on_disk.len() && on_disk[n - 1] {
            rest.push(entries[n - 1].name@)
        } else {
            rest
        }
    }
}

/// The names of the first `n` entries, each once, in catalog order.
pub open spec fn configured_names(entries: Seq<ModelMapping>, n: int) -> Seq<Seq<char>>
    decreases n,
{
    if n <= 0 {
        Seq::empty()
    } else {
        let rest = configured_names(entries, n - 1);
        if counts(entries, n - 1) {
            rest.push(entries[n - 1].name@)
        } else {
            rest
        }
    }
}

/// The characters of each string of a sequence.
pub open spec fn texts(strings: Seq<String>) -> Seq<Seq<char>> {
    Seq::new(strings.len(), |i: int| strings[i]@)
}

proof fn lookup_reaches(entries: Seq<ModelMapping>, from: int, at: int)
    requires
        0 <= from <= at < entries.len(),
        forall|j: int| from <= j < at ==> (#[trigger] entries[j]).name@ != entries[at].name@,
    ensures
        lookup_from(entries, entries[at].name@, from) == Some(entries[at].filename@),
    decreases at - from,
{
    if from < at {
        lookup_reaches(entries, from + 1, at);
    }
}

/// The entry that counts for a name is the one that a lookup of the name finds.
pub proof fn counted_entry_is_found(entries: Seq<ModelMapping>, at: int)
    requires
        counts(entries, at),
    ensures
        lookup_from(entries, entries[at].name@, 0) == Some(entries[at].filename@),
{
    lookup_reaches(entries, 0, at);
}

/// Every name that is listed as available resolves to a file that is on
/// disk: it is the name of an entry that counts, whose flag is set, and a
/// lookup of the name finds that entry's file.
pub proof fn listed_names_are_on_disk(
    entries: Seq<ModelMapping>,
    on_disk: Seq<bool>,
    n: int,
    k: int,
)
    requires
        0 <= k < available_names(entries, on_disk, n).len(),
    ensures
        exists|at: int|
            0 <= at < n && counts(entries, at) && at < on_disk.len() && #[trigger] on_disk[at]
                && available_names(entries, on_disk, n)[k] == entries[at].name@ && lookup_from(
                entries,
                available_names(entries, on_disk, n)[k],
                0,
            ) == Some(entries[at].filename@),
    decreases n,
{
    if n > 0 {
        let rest = available_names(entries, on_disk, n - 1);
        if k < rest.len() {
            listed_names_are_on_disk(entries, on_disk, n - 1, k);
            let at = choose|at: int|
                0 <= at < n - 1 && counts(entries, at) && at < on_disk.len() && #[trigger] on_disk[at]
                    && rest[k] == entries[at].name@ && lookup_from(entries, rest[k], 0) == Some(
                    entries[at].filename@,
                );
            assert(0 <= at < n && on_disk[at]);
        } else {
            counted_entry_is_found(entries, n - 1);
            assert(0 <= n - 1 < n && on_disk[n - 1]);
        }
    }
}

/// What the listing of models answers.
#[derive(Clone, Debug, PartialEq, Eq)]
pub struct ModelListing {
    /// The names whose file is on disk.
    pub models: Vec<String>,
    pub default_model: String,
    /// Every name of the catalog, each once.
    pub configured_models: Vec<String>,
}

impl ModelPath {
    /// Whether two paths name the same file.
    pub fn same_as(&self, other: &ModelPath) -> (same: bool)
        ensures
            same == (self@ == other@),
    {
        self.directory == other.directory && self.filename == other.filename
    }

    /// A copy of this path.
    pub fn duplicate(&self) -> (copy: ModelPath)
        ensures
            copy@ == self@,
    {
        ModelPath { directory: self.directory.clone(), filename: self.filename.clone() }
    }
}

impl ModelConfig {
    /// The file name that the catalog gives `name`, if it knows the name.
    pub open spec fn filename_of(&self, name: Seq<char>) -> Option<Seq<char>> {
        lookup_from(self.mappings@, name, 0)
    }

    /// The file name that the catalog gives `name`, if it knows the name.
    pub fn filename(&self, name: &str) -> (found: Option<&String>)
        ensures
            found is Some <==> self.filename_of(name@) is Some,
            found matches Some(f) ==> self.filename_of(name@) == Some(f@),
    {
        let mut i: usize = 0;
        while i < self.mappings.len()
            invariant
                i <= self.mappings@.len(),
                self.filename_of(name@) == lookup_from(self.mappings@, name@, i as int),
            decreases self.mappings@.len() - i,
        {
            if same_text(name, &self.mappings[i].name) {
                return Some(&self.mappings[i].filename);
            }
            i = i + 1;
        }
        None
    }

    /// Resolves a logical model name to the place of its file. Fails, as a
    /// model that is not found, exactly when the catalog does not know the name.
    pub fn resolve(&self, name: &str) -> (resolved: Result<ModelPath, JobError>)
        ensures
            resolved is Ok <==> self.filename_of(name@) is Some,
            resolved matches Ok(p) ==> p@ == (self.model_directory@, self.filename_of(name@)->0),
            resolved matches Err(e) ==> e.kind == ErrorKind::ModelNotFound && e.message@
                == "Model '"@ + name@ + "' not found in configuration"@,
    {
        match self.filename(name) {
            Some(filename) => Ok(
                ModelPath { directory: self.model_directory.clone(), filename: filename.clone() },
            ),
            None => Err(
                JobError::describe(
                    ErrorKind::ModelNotFound,
                    "Model '",
                    name,
                    "' not found in configuration",
                ),
            ),
        }
    }

    /// The place of an auxiliary model file in the model directory.
    pub fn auxiliary(&self, filename: &str) -> (place: ModelPath)
        ensures
            place@ == (self.model_directory@, filename@),
    {
        ModelPath { directory: self.model_directory.clone(), filename: String::from_str(filename) }
    }

    /// Whether the entry at `at` is the one that counts for its name.
    fn is_counted(&self, at: usize) -> (counted: bool)
        requires
            at < self.mappings@.len(),
        ensures
            counted == counts(self.mappings@, at as int),
    {
        let mut j: usize = 0;
        while j < at
            invariant
                j <= at < self.mappings@.len(),
                forall|k: int|
                    0 <= k < j ==> (#[trigger] self.mappings@[k]).name@
                        != self.mappings@[at as int].name@,
            decreases at - j,
        {
            if same_text(self.mappings[at].name.as_str(), &self.mappings[j].name) {
                return false;
            }
            j = j + 1;
        }
        true
    }

    /// Lists the catalog: the names whose file is on disk (`on_disk[i]` tells
    /// it of entry `i`), the default name, and every configured name. A name
    /// is listed once, and by the entry that a lookup of it finds: later
    /// entries of the same name are passed over, whatever their flag.
    pub fn list_models(&self, on_disk: &Vec<bool>) -> (listing: ModelListing)
        ensures
            texts(listing.models@) == available_names(
                self.mappings@,
                on_disk@,
                self.mappings@.len() as int,
            ),
            listing.default_model@ == self.default_model@,
            texts(listing.configured_models@) == configured_names(
                self.mappings@,
                self.mappings@.len() as int,
            ),
    {
        let mut models: Vec<String> = Vec::new();
        let mut configured: Vec<String> = Vec::new();
        let mut i: usize = 0;
        while i < self.mappings.len()
            invariant
                i <= self.mappings@.len(),
                texts(models@) == available_names(self.mappings@, on_disk@, i as int),
                texts(configured@) == configured_names(self.mappings@, i as int),
            decreases self.mappings@.len() - i,
        {
            let ghost before = models@;
            let ghost names_before = configured@;
            if self.is_counted(i) {
                if i < on_disk.len() && on_disk[i] {
                    models.push(self.mappings[i].name.clone());
                    assert(texts(models@) =~= texts(before).push(self.mappings@[i as int].name@));
                }
                configured.push(self.mappings[i].name.clone());
                assert(texts(configured@) =~= texts(names_before).push(
                    self.mappings@[i as int].name@,
                ));
            }
            i = i + 1;
        }
        ModelListing {
            models,
            default_model: self.default_model.clone(),
            configured_models: configured,
        }
    }
}

} // verus!
