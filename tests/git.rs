use build_runner::git::{
    bootstrap_steps, clone_command, create_directory_steps, is_valid_git, remove_existing_steps,
    repository_sources, EntryKind, FsStep, Repository,
};
use build_runner::run;

#[test]
fn existing_working_copy_is_not_cloned() {
    let steps = bootstrap_steps(EntryKind::Directory, EntryKind::Directory);
    assert!(steps.is_empty());
}

#[test]
fn stray_file_is_removed_then_cloned() {
    let steps = bootstrap_steps(EntryKind::File, EntryKind::Missing);
    assert_eq!(
        steps,
        vec![
            FsStep::RemoveFile,
            FsStep::CreateDirAll,
            FsStep::RemoveDirAll,
            FsStep::CreateDirAll,
            FsStep::Clone
        ]
    );
}

#[test]
fn missing_directory_is_created_and_cloned() {
    let steps = bootstrap_steps(EntryKind::Missing, EntryKind::Missing);
    assert_eq!(
        steps,
        vec![FsStep::CreateDirAll, FsStep::RemoveDirAll, FsStep::CreateDirAll, FsStep::Clone]
    );
}

#[test]
fn directory_with_bad_marker_is_recloned() {
    let steps = bootstrap_steps(EntryKind::Directory, EntryKind::File);
    assert_eq!(steps, vec![FsStep::RemoveDirAll, FsStep::CreateDirAll, FsStep::Clone]);
}

#[test]
fn marker_must_be_directory() {
    assert!(is_valid_git(EntryKind::Directory));
    assert!(!is_valid_git(EntryKind::File));
    assert!(!is_valid_git(EntryKind::Missing));
    assert!(!is_valid_git(EntryKind::Other));
}

#[test]
fn directory_preparation_steps() {
    assert_eq!(create_directory_steps(EntryKind::Missing), vec![FsStep::CreateDirAll]);
    assert!(create_directory_steps(EntryKind::Directory).is_empty());
    assert_eq!(
        create_directory_steps(EntryKind::Other),
        vec![FsStep::RemoveFile, FsStep::CreateDirAll]
    );
    assert_eq!(remove_existing_steps(EntryKind::Directory), vec![FsStep::RemoveDirAll]);
    assert_eq!(remove_existing_steps(EntryKind::File), vec![FsStep::RemoveFile]);
    assert!(remove_existing_steps(EntryKind::Missing).is_empty());
    assert!(remove_existing_steps(EntryKind::Other).is_empty());
}

#[test]
fn clone_command_runs_git_clone() {
    let line = clone_command("https://example.org/r.git", "R");
    assert_eq!(line.program, "git");
    assert_eq!(line.args, vec!["clone", "https://example.org/r.git", "R"]);
}

#[test]
fn four_repositories_are_known() {
    let sources = repository_sources();
    let names: Vec<&str> = sources.iter().map(|(n, _)| n.as_str()).collect();
    assert_eq!(names, vec!["BuildData", "Bukkit", "CraftBukkit", "Spigot"]);
    assert_eq!(sources[0].1, "https://hub.spigotmc.org/stash/scm/spigot/builddata.git");
    assert_eq!(sources[3].1, "https://hub.spigotmc.org/stash/scm/spigot/spigot.git");
}

#[test]
fn repository_keeps_its_fields() {
    let repo = Repository::new("u", "BuildData", "build/BuildData");
    assert_eq!(repo.get_url(), "u");
    assert_eq!(repo.get_name(), "BuildData");
    assert_eq!(repo.get_path(), "build/BuildData");
}

#[test]
fn run_accepts_a_root() {
    run("build");
}
