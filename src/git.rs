//! Making a local directory a clone of a remote repository: what to remove,
//! create and run, given what stands on disk.
use vstd::prelude::*;

use crate::cmd::{pair_views, CommandError, CommandLine};
use crate::template::string_views;

verus! {

#[derive(Debug)]
pub enum RepositoryError {
    IO(std::io::Error),
    CommandError(CommandError),
}

/// What stands at a path.
#[derive(PartialEq, Eq, Structural, Debug, Clone, Copy)]
pub enum EntryKind {
    Missing,
    Directory,
    File,
    /// Something that is neither a directory nor a regular file.
    Other,
}

/// One filesystem or process operation on a repository's directory.
#[derive(PartialEq, Eq, Structural, Debug, Clone, Copy)]
pub enum FsStep {
    RemoveFile,
    RemoveDirAll,
    CreateDirAll,
    /// Run the clone command in the root directory.
    Clone,
}

/// Makes sure a directory stands at the path: an entry that is not a
/// directory is removed first.
pub open spec fn create_plan(kind: EntryKind) -> Seq<FsStep> {
    match kind {
        EntryKind::Missing => seq![FsStep::CreateDirAll],
        EntryKind::Directory => seq![],
        _ => seq![FsStep::RemoveFile, FsStep::CreateDirAll],
    }
}

/// Removes a directory or a regular file standing at the path.
pub open spec fn remove_plan(kind: EntryKind) -> Seq<FsStep> {
    match kind {
        EntryKind::Directory => seq![FsStep::RemoveDirAll],
        EntryKind::File => seq![FsStep::RemoveFile],
        _ => seq![],
    }
}

/// The target holds a working copy when its version-control marker is a
/// directory.
pub open spec fn holds_working_copy(target: EntryKind, marker: EntryKind) -> bool {
    target == EntryKind::Directory && marker == EntryKind::Directory
}

/// The directory is made sure of; unless it already held a working copy, it
/// is then removed, created afresh and cloned into.
pub open spec fn bootstrap_plan(target: EntryKind, marker: EntryKind) -> Seq<FsStep> {
    if holds_working_copy(target, marker) {
        create_plan(target)
    } else {
        create_plan(target) + remove_plan(EntryKind::Directory) + seq![
            FsStep::CreateDirAll,
            FsStep::Clone,
        ]
    }
}

/// The steps that make sure a directory stands where an entry of `kind` is.
pub fn create_directory_steps(kind: EntryKind) -> (r: Vec<FsStep>)
    ensures
        r@ == create_plan(kind),
{
    let mut out: Vec<FsStep> = Vec::new();
    match kind {
        EntryKind::Missing => {
            out.push(FsStep::CreateDirAll);
        },
        EntryKind::Directory => {},
        _ => {
            out.push(FsStep::RemoveFile);
            out.push(FsStep::CreateDirAll);
        },
    }
    assert(out@ =~= create_plan(kind));
    out
}

/// The steps that clear away an entry of `kind`.
pub fn remove_existing_steps(kind: EntryKind) -> (r: Vec<FsStep>)
    ensures
        r@ == remove_plan(kind),
{
    let mut out: Vec<FsStep> = Vec::new();
    match kind {
        EntryKind::Directory => {
            out.push(FsStep::RemoveDirAll);
        },
        EntryKind::File => {
            out.push(FsStep::RemoveFile);
        },
        _ => {},
    }
    assert(out@ =~= remove_plan(kind));
    out
}

/// Whether the version-control marker, what stands at `.git` inside a
/// directory, makes that directory a working copy.
pub fn is_valid_git(marker: EntryKind) -> (r: bool)
    ensures
        r == (marker == EntryKind::Directory),
{
    match marker {
        EntryKind::Directory => true,
        _ => false,
    }
}

/// The steps that make the target directory a working copy, given what stands
/// at the target and at its marker (`Missing` where the target is no
/// directory). A working copy that is already there is left alone and no
/// clone is run; a regular file in the way is removed before the clone.
pub fn bootstrap_steps(target: EntryKind, marker: EntryKind) -> (r: Vec<FsStep>)
    ensures
        r@ == bootstrap_plan(target, marker),
        r@.contains(FsStep::Clone) <==> !holds_working_copy(target, marker),
        target == EntryKind::File ==> r@[0] == FsStep::RemoveFile && r@.last() == FsStep::Clone,
{
    let mut steps = create_directory_steps(target);
    let present = match target {
        EntryKind::Directory => is_valid_git(marker),
        _ => false,
    };
    if !present {
        let mut removal = remove_existing_steps(EntryKind::Directory);
        steps.append(&mut removal);
        steps.push(FsStep::CreateDirAll);
        steps.push(FsStep::Clone);
    }
    proof {
        let plan = bootstrap_plan(target, marker);
        assert(steps@ =~= plan);
        if !holds_working_copy(target, marker) {
            assert(plan[plan.len() - 1] == FsStep::Clone);
        } else {
            assert(plan =~= seq![]);
        }
    }
    steps
}

/// The command that clones `url` into the directory `name`.
pub fn clone_command(url: &str, name: &str) -> (r: CommandLine)
    ensures
        r.program@ == "git"@,
        string_views(r.args@) == seq!["clone"@, url@, name@],
{
    let mut args: Vec<String> = Vec::new();
    args.push(String::from_str("clone"));
    args.push(String::from_str(url));
    args.push(String::from_str(name));
    assert(string_views(args@) =~= seq!["clone"@, url@, name@]);
    CommandLine { program: String::from_str("git"), args }
}

pub const BUILD_DATA_URL: &'static str = "https://hub.spigotmc.org/stash/scm/spigot/builddata.git";

pub const BUKKIT_URL: &'static str = "https://hub.spigotmc.org/stash/scm/spigot/bukkit.git";

pub const CRAFT_BUKKIT_URL: &'static str = "https://hub.spigotmc.org/stash/scm/spigot/craftbukkit.git";

pub const SPIGOT_URL: &'static str = "https://hub.spigotmc.org/stash/scm/spigot/spigot.git";

pub open spec fn sources() -> Seq<(Seq<char>, Seq<char>)> {
    seq![
        ("BuildData"@, BUILD_DATA_URL@),
        ("Bukkit"@, BUKKIT_URL@),
        ("CraftBukkit"@, CRAFT_BUKKIT_URL@),
        ("Spigot"@, SPIGOT_URL@),
    ]
}

/// The repositories that a build starts from, each as its local name and its
/// remote URL.
pub fn repository_sources() -> (r: Vec<(String, String)>)
    ensures
        pair_views(r@) == sources(),
{
    let mut out: Vec<(String, String)> = Vec::new();
    out.push((String::from_str("BuildData"), String::from_str(BUILD_DATA_URL)));
    out.push((String::from_str("Bukkit"), String::from_str(BUKKIT_URL)));
    out.push((String::from_str("CraftBukkit"), String::from_str(CRAFT_BUKKIT_URL)));
    out.push((String::from_str("Spigot"), String::from_str(SPIGOT_URL)));
    assert(pair_views(out@) =~= sources());
    out
}

/// A working copy that has been made ready.
#[derive(Debug)]
pub struct Repository {
    url: String,
    name: String,
    path: String,
}

impl Repository {
    pub fn new(url: &str, name: &str, path: &str) -> (r: Repository)
        ensures
            r.url()@ == url@,
            r.name()@ == name@,
            r.path()@ == path@,
    {
        Repository { url: String::from_str(url), name: String::from_str(name), path: String::from_str(path) }
    }

    pub closed spec fn url(&self) -> String {
        self.url
    }

    pub closed spec fn name(&self) -> String {
        self.name
    }

    pub closed spec fn path(&self) -> String {
        self.path
    }

    pub fn get_url(&self) -> (r: &str)
        ensures
            r@ == self.url()@,
    {
        self.url.as_str()
    }

    pub fn get_name(&self) -> (r: &str)
        ensures
            r@ == self.name()@,
    {
        self.name.as_str()
    }

    pub fn get_path(&self) -> (r: &str)
        ensures
            r@ == self.path()@,
    {
        self.path.as_str()
    }
}

} // verus!
