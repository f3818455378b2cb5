//! The manifest that each repository carries: how to pick its Dockerfile for
//! the host architecture, and which compose files run its services.
//!
//! The manifest is read elsewhere; here it is a plain value, and the file
//! operations that installing a build file takes are computed as values too.
use vstd::prelude::*;
use crate::compose::{compose_flags, flag_list};
use crate::cpu_data::{cpu_name, CpuType};
use crate::paths::{join_path, path_join, same_text};

verus! {

/// The map that `entries` describe: a later entry for a key replaces an
/// earlier one.
pub open spec fn entries_map(entries: Seq<(String, String)>) -> Map<Seq<char>, Seq<char>>
    decreases entries.len(),
{
    if entries.len() == 0 {
        Map::empty()
    } else {
        entries_map(entries.drop_last()).insert(entries.last().0@, entries.last().1@)
    }
}

/// Where no entry from `i` on has the key `k`, the map of the whole list and
/// the map of its first `i` entries agree on `k`.
proof fn lemma_unmatched_suffix(entries: Seq<(String, String)>, i: int, k: Seq<char>)
    requires
        0 <= i <= entries.len(),
        forall|j: int| i <= j < entries.len() ==> entries[j].0@ != k,
    ensures
        entries_map(entries).contains_key(k) == entries_map(entries.take(i)).contains_key(k),
        entries_map(entries).contains_key(k) ==> entries_map(entries)[k] == entries_map(
            entries.take(i),
        )[k],
    decreases entries.len() - i,
{
    if i < entries.len() {
        lemma_unmatched_suffix(entries, i + 1, k);
        assert(entries.take(i + 1).drop_last() =~= entries.take(i));
    } else {
        assert(entries.take(i) =~= entries);
    }
}

/// Build-file paths keyed by architecture name.
#[derive(Debug)]
pub struct BuildFiles {
    entries: Vec<(String, String)>,
}

impl View for BuildFiles {
    type V = Map<Seq<char>, Seq<char>>;

    closed spec fn view(&self) -> Map<Seq<char>, Seq<char>> {
        entries_map(self.entries@)
    }
}

impl BuildFiles {
    /// A map with no entry.
    pub fn new() -> (r: BuildFiles)
        ensures
            r@ == Map::<Seq<char>, Seq<char>>::empty(),
    {
        BuildFiles { entries: Vec::new() }
    }

    /// Sets the build file of the architecture named `arch` to `path`.
    pub fn insert(&mut self, arch: String, path: String)
        ensures
            final(self)@ == old(self)@.insert(arch@, path@),
    {
        let ghost before = self.entries@;
        self.entries.push((arch, path));
        proof {
            assert(self.entries@.drop_last() =~= before);
        }
    }

    /// The build file of the architecture named `arch`.
    pub fn get(&self, arch: &str) -> (r: Option<&String>)
        ensures
            match r {
                Some(p) => self@.contains_key(arch@) && self@[arch@] == p@,
                None => !self@.contains_key(arch@),
            },
    {
        let mut i = self.entries.len();
        while i > 0
            invariant
                i <= self.entries@.len(),
                forall|j: int| i <= j < self.entries@.len() ==> self.entries@[j].0@ != arch@,
            decreases i,
        {
            i = i - 1;
            if same_text(self.entries[i].0.as_str(), arch) {
                proof {
                    lemma_unmatched_suffix(self.entries@, i + 1, arch@);
                    assert(self.entries@.take(i + 1).drop_last() =~= self.entries@.take(i as int));
                }
                return Some(&self.entries[i].1);
            }
        }
        proof {
            lemma_unmatched_suffix(self.entries@, 0, arch@);
        }
        None
    }

    /// The entries in the order they were inserted; later ones win.
    pub fn entries(&self) -> (r: &Vec<(String, String)>)
        ensures
            entries_map(r@) == self@,
    {
        &self.entries
    }
}

/// A second build target of a repository, such as an initialisation
/// container, with its own lock.
#[derive(Debug)]
pub struct InitBuild {
    pub build_files: BuildFiles,
    pub build_root: String,
    pub build_lock: Option<bool>,
}

/// A build target without a lock.
#[derive(Debug)]
pub struct TestBuild {
    pub build_files: BuildFiles,
    pub build_root: String,
}

/// The manifest of one repository.
#[derive(Debug)]
pub struct WeddingInvite {
    /// Build-file paths by architecture, relative to the repository.
    pub build_files: Option<BuildFiles>,
    /// Directory, relative to the repository, that receives the Dockerfile.
    pub build_root: String,
    pub init_build: Option<InitBuild>,
    /// Compose files that run the services from local builds, in order.
    pub runner_files: Vec<String>,
    /// Compose files that run the services from published images, in order.
    pub remote_runner_files: Option<Vec<String>>,
    /// Compose files that run the services in development mode, in order.
    pub dev_runner_files: Option<Vec<String>>,
    /// When true, the repository's own Dockerfile is left as it is.
    pub build_lock: Option<bool>,
}

/// A file to copy: the build file chosen for the host, onto the Dockerfile.
#[derive(Debug)]
pub struct FileCopy {
    pub from: String,
    pub to: String,
}

impl View for FileCopy {
    type V = (Seq<char>, Seq<char>);

    open spec fn view(&self) -> (Seq<char>, Seq<char>) {
        (self.from@, self.to@)
    }
}

/// Why a build file could not be put in place.
#[derive(Clone, Copy, Debug, PartialEq, Eq, Structural)]
pub enum BuildError {
    /// The manifest names no build file for this architecture.
    NoBuildFile(CpuType),
}

impl BuildError {
    /// The error as a sentence.
    pub fn message(&self) -> (r: String)
        ensures
            r@ == "No build file for CPU type: "@ + cpu_name(self->NoBuildFile_0),
    {
        match self {
            BuildError::NoBuildFile(cpu) => {
                let mut r = "No build file for CPU type: ".to_owned();
                let name = cpu.to_string();
                r.append(name.as_str());
                r
            },
        }
    }
}

/// Whether a lock flag keeps its build target untouched.
pub open spec fn locked(lock: Option<bool>) -> bool {
    lock == Some(true)
}

/// The Dockerfile of a build target whose root is `root` in the repository
/// at `repo`.
pub open spec fn dockerfile_path(repo: Seq<char>, root: Seq<char>) -> Seq<char> {
    path_join(path_join(repo, root), "Dockerfile"@)
}

/// The copy that installs the build file for `cpu` from `files` as the
/// Dockerfile under `root`, in the repository at `repo`.
pub open spec fn build_copy(
    files: Map<Seq<char>, Seq<char>>,
    root: Seq<char>,
    repo: Seq<char>,
    cpu: CpuType,
) -> Result<(Seq<char>, Seq<char>), BuildError> {
    if files.contains_key(cpu_name(cpu)) {
        Ok((path_join(repo, files[cpu_name(cpu)]), dockerfile_path(repo, root)))
    } else {
        Err(BuildError::NoBuildFile(cpu))
    }
}

/// A planned copy, or that there is nothing to copy, seen as paths.
pub open spec fn copy_plan_view(r: Result<Option<FileCopy>, BuildError>) -> Result<
    Option<(Seq<char>, Seq<char>)>,
    BuildError,
> {
    match r {
        Ok(Some(c)) => Ok(Some(c@)),
        Ok(None) => Ok(None),
        Err(e) => Err(e),
    }
}

/// A planned removal seen as a path.
pub open spec fn removal_view(r: Option<String>) -> Option<Seq<char>> {
    match r {
        Some(p) => Some(p@),
        None => None,
    }
}

/// The copy that installs the build file for `cpu` as the Dockerfile under
/// `root` in the repository at `repo`.
fn plan_build_copy(files: &BuildFiles, root: &String, repo: &String, cpu: CpuType) -> (r: Result<
    FileCopy,
    BuildError,
>)
    ensures
        match r {
            Ok(c) => build_copy(files@, root@, repo@, cpu) == Ok::<
                (Seq<char>, Seq<char>),
                BuildError,
            >(c@),
            Err(e) => build_copy(files@, root@, repo@, cpu) == Err::<
                (Seq<char>, Seq<char>),
                BuildError,
            >(e),
        },
{
    let arch = cpu.to_string();
    match files.get(arch.as_str()) {
        Some(file) => {
            let from = join_path(repo.as_str(), file.as_str());
            let to = dockerfile_of(repo, root);
            Ok(FileCopy { from, to })
        },
        None => Err(BuildError::NoBuildFile(cpu)),
    }
}

/// The Dockerfile under `root` in the repository at `repo`.
fn dockerfile_of(repo: &String, root: &String) -> (r: String)
    ensures
        r@ == dockerfile_path(repo@, root@),
{
    let dir = join_path(repo.as_str(), root.as_str());
    join_path(dir.as_str(), "Dockerfile")
}

/// A locked build is left alone: putting its build file in place succeeds
/// with no copy to make, on every architecture, and removing it deletes
/// nothing.
pub proof fn locked_build_is_untouched(w: WeddingInvite, venue: Seq<char>, name: Seq<char>, cpu: CpuType)
    requires
        w.build_lock == Some(true),
    ensures
        w.build_plan(venue, name, cpu) == Ok::<Option<(Seq<char>, Seq<char>)>, BuildError>(None),
        w.build_removal(venue, name) is None,
{
}

/// When the build is not locked and its map has an entry for the host's
/// architecture, exactly that entry's file is copied, onto the Dockerfile
/// in the build root of the repository.
pub proof fn build_copies_the_host_file(w: WeddingInvite, venue: Seq<char>, name: Seq<char>, cpu: CpuType)
    requires
        !locked(w.build_lock),
        w.build_files is Some,
        w.build_files->Some_0@.contains_key(cpu_name(cpu)),
    ensures
        w.build_plan(venue, name, cpu) == Ok::<Option<(Seq<char>, Seq<char>)>, BuildError>(
            Some(
                (
                    path_join(path_join(venue, name), w.build_files->Some_0@[cpu_name(cpu)]),
                    path_join(path_join(path_join(venue, name), w.build_root@), "Dockerfile"@),
                ),
            ),
        ),
{
}

/// When the build is not locked and its map has no entry for the host's
/// architecture, putting the build file in place fails and copies nothing.
pub proof fn build_without_host_file_fails(w: WeddingInvite, venue: Seq<char>, name: Seq<char>, cpu: CpuType)
    requires
        !locked(w.build_lock),
        w.build_files is Some,
        !w.build_files->Some_0@.contains_key(cpu_name(cpu)),
    ensures
        w.build_plan(venue, name, cpu) == Err::<Option<(Seq<char>, Seq<char>)>, BuildError>(
            BuildError::NoBuildFile(cpu),
        ),
{
}

impl WeddingInvite {
    /// What installing the top-level build file amounts to: nothing when the
    /// build is locked, else the copy for `cpu`, or the error when the
    /// manifest has no build file for it.
    pub open spec fn build_plan(&self, venue: Seq<char>, name: Seq<char>, cpu: CpuType) -> Result<
        Option<(Seq<char>, Seq<char>)>,
        BuildError,
    > {
        if locked(self.build_lock) {
            Ok(None)
        } else {
            match build_copy(self.build_files->Some_0@, self.build_root@, path_join(venue, name), cpu) {
                Ok(c) => Ok(Some(c)),
                Err(e) => Err(e),
            }
        }
    }

    /// The Dockerfile that removing the top-level build file deletes, if any.
    pub open spec fn build_removal(&self, venue: Seq<char>, name: Seq<char>) -> Option<Seq<char>> {
        if locked(self.build_lock) {
            None
        } else {
            Some(dockerfile_path(path_join(venue, name), self.build_root@))
        }
    }

    /// What installing the init build file amounts to: nothing without an
    /// init build or when it is locked, else as for the top-level build.
    pub open spec fn init_build_plan(&self, venue: Seq<char>, name: Seq<char>, cpu: CpuType) -> Result<
        Option<(Seq<char>, Seq<char>)>,
        BuildError,
    > {
        match self.init_build {
            None => Ok(None),
            Some(init) => if locked(init.build_lock) {
                Ok(None)
            } else {
                match build_copy(init.build_files@, init.build_root@, path_join(venue, name), cpu) {
                    Ok(c) => Ok(Some(c)),
                    Err(e) => Err(e),
                }
            },
        }
    }

    /// The Dockerfile that removing the init build file deletes, if any.
    pub open spec fn init_build_removal(&self, venue: Seq<char>, name: Seq<char>) -> Option<Seq<char>> {
        match self.init_build {
            None => None,
            Some(init) => if locked(init.build_lock) {
                None
            } else {
                Some(dockerfile_path(path_join(venue, name), init.build_root@))
            },
        }
    }

    /// The copy that puts the build file for `cpu` in place as the Dockerfile
    /// of the repository `name` in the venue, `None` when the build is locked.
    pub fn prepare_build_file(&self, venue_path: &String, name: &String, cpu: CpuType) -> (r: Result<
        Option<FileCopy>,
        BuildError,
    >)
        requires
            locked(self.build_lock) || self.build_files is Some,
        ensures
            copy_plan_view(r) == self.build_plan(venue_path@, name@, cpu),
    {
        if let Some(lock) = self.build_lock {
            if lock {
                return Ok(None);
            }
        }
        let repo = join_path(venue_path.as_str(), name.as_str());
        let files = self.build_files.as_ref().unwrap();
        match plan_build_copy(files, &self.build_root, &repo, cpu) {
            Ok(c) => Ok(Some(c)),
            Err(e) => Err(e),
        }
    }

    /// The Dockerfile to remove from the build root, `None` when the build is
    /// locked.
    pub fn delete_build_file(&self, venue_path: &String, name: &String) -> (r: Option<String>)
        ensures
            removal_view(r) == self.build_removal(venue_path@, name@),
    {
        if let Some(lock) = self.build_lock {
            if lock {
                return None;
            }
        }
        let repo = join_path(venue_path.as_str(), name.as_str());
        Some(dockerfile_of(&repo, &self.build_root))
    }

    /// The copy that puts the init build file for `cpu` in place, `None`
    /// without an init build or when it is locked.
    pub fn prepare_init_build_file(&self, venue_path: &String, name: &String, cpu: CpuType) -> (r: Result<
        Option<FileCopy>,
        BuildError,
    >)
        ensures
            copy_plan_view(r) == self.init_build_plan(venue_path@, name@, cpu),
    {
        match &self.init_build {
            None => Ok(None),
            Some(init) => {
                if let Some(lock) = init.build_lock {
                    if lock {
                        return Ok(None);
                    }
                }
                let repo = join_path(venue_path.as_str(), name.as_str());
                match plan_build_copy(&init.build_files, &init.build_root, &repo, cpu) {
                    Ok(c) => Ok(Some(c)),
                    Err(e) => Err(e),
                }
            },
        }
    }

    /// The Dockerfile to remove from the init build root, `None` without an
    /// init build or when it is locked.
    pub fn delete_init_build_file(&self, venue_path: &String, name: &String) -> (r: Option<String>)
        ensures
            removal_view(r) == self.init_build_removal(venue_path@, name@),
    {
        match &self.init_build {
            None => None,
            Some(init) => {
                if let Some(lock) = init.build_lock {
                    if lock {
                        return None;
                    }
                }
                let repo = join_path(venue_path.as_str(), name.as_str());
                Some(dockerfile_of(&repo, &init.build_root))
            },
        }
    }

    /// The flags naming the local compose files of the repository `name`.
    pub fn get_docker_compose_files(&self, venue_path: &String, name: &String) -> (r: String)
        ensures
            r@ == flag_list(path_join(venue_path@, name@), self.runner_files@),
    {
        let repo = join_path(venue_path.as_str(), name.as_str());
        compose_flags(repo.as_str(), &self.runner_files)
    }

    /// The flags naming the remote compose files of the repository `name`.
    pub fn get_remote_compose_files(&self, venue_path: &String, name: &String) -> (r: String)
        requires
            self.remote_runner_files is Some,
        ensures
            r@ == flag_list(path_join(venue_path@, name@), self.remote_runner_files->Some_0@),
    {
        let repo = join_path(venue_path.as_str(), name.as_str());
        compose_flags(repo.as_str(), self.remote_runner_files.as_ref().unwrap())
    }
}

} // verus!
