use build_metadata::metadata::assemble;
use build_metadata::rfc3339::parse_rfc3339;
use build_metadata::resolve;
use build_metadata::ClockParts;
use build_metadata::MetadataCell;
use build_metadata::ResolveError;

fn reading(year: u16, month: u8, day: u8, hour: u8, minute: u8, second: u8) -> ClockParts {
    ClockParts { year, month, day, hour, minute, second }
}

fn init_repo(path: &std::path::Path) -> git2::Repository {
    let mut opts = git2::RepositoryInitOptions::new();
    opts.initial_head("main");
    git2::Repository::init_opts(path, &opts).unwrap()
}

fn commit_head(repo: &git2::Repository, msg: &str, parents: &[&git2::Commit]) -> git2::Oid {
    let sig = git2::Signature::now("tester", "tester@example.com").unwrap();
    let tree_id = repo.index().unwrap().write_tree().unwrap();
    let tree = repo.find_tree(tree_id).unwrap();
    repo.commit(Some("HEAD"), &sig, &sig, msg, &tree, parents).unwrap()
}

fn tag_annotated(repo: &git2::Repository, name: &str, oid: git2::Oid) {
    let sig = git2::Signature::now("tester", "tester@example.com").unwrap();
    let obj = repo.find_object(oid, None).unwrap();
    repo.tag(name, &obj, &sig, name, false).unwrap();
}

#[test]
fn no_repository_is_reported() {
    let dir = tempfile::tempdir().unwrap();
    let r = resolve(dir.path().to_str().unwrap());
    assert_eq!(r.unwrap_err(), ResolveError::RepositoryNotFound);
}

#[test]
fn unborn_head_is_reported() {
    let dir = tempfile::tempdir().unwrap();
    init_repo(dir.path());
    let r = resolve(dir.path().to_str().unwrap());
    assert_eq!(r.unwrap_err(), ResolveError::HeadUnresolvable);
}

#[test]
fn head_resolves_to_branch_name() {
    let dir = tempfile::tempdir().unwrap();
    let repo = init_repo(dir.path());
    commit_head(&repo, "first", &[]);
    let m = resolve(dir.path().to_str().unwrap()).unwrap();
    assert_eq!(m.head, "main");
}

#[test]
fn descriptor_falls_back_to_short_hash_without_tags() {
    let dir = tempfile::tempdir().unwrap();
    let repo = init_repo(dir.path());
    let oid = commit_head(&repo, "first", &[]);
    let m = resolve(dir.path().to_str().unwrap()).unwrap();
    assert!(oid.to_string().starts_with(&m.commit_descriptor));
    assert!(m.commit_descriptor.len() >= 7);
    assert!(m.commit_descriptor.len() < 40);
}

#[test]
fn descriptor_is_tag_name_at_tagged_head() {
    let dir = tempfile::tempdir().unwrap();
    let repo = init_repo(dir.path());
    let oid = commit_head(&repo, "first", &[]);
    tag_annotated(&repo, "v1.0", oid);
    let m = resolve(dir.path().to_str().unwrap()).unwrap();
    assert_eq!(m.commit_descriptor, "v1.0");
}

#[test]
fn descriptor_counts_commits_past_tag() {
    let dir = tempfile::tempdir().unwrap();
    let repo = init_repo(dir.path());
    let first = commit_head(&repo, "first", &[]);
    tag_annotated(&repo, "v1.0", first);
    let parent = repo.find_commit(first).unwrap();
    let second = commit_head(&repo, "second", &[&parent]);
    let m = resolve(dir.path().to_str().unwrap()).unwrap();
    assert_eq!(m.head, "main");
    assert!(m.commit_descriptor.starts_with("v1.0-1-g"));
    let hash_part = &m.commit_descriptor["v1.0-1-g".len()..];
    assert!(second.to_string().starts_with(hash_part));
    assert!(!hash_part.is_empty());
}

#[test]
fn detached_head_yields_defined_name() {
    let dir = tempfile::tempdir().unwrap();
    let repo = init_repo(dir.path());
    let oid = commit_head(&repo, "first", &[]);
    repo.set_head_detached(oid).unwrap();
    let m = resolve(dir.path().to_str().unwrap()).unwrap();
    assert_eq!(m.head, "HEAD");
}

#[test]
fn build_time_is_rfc3339_near_the_call() {
    let dir = tempfile::tempdir().unwrap();
    let repo = init_repo(dir.path());
    commit_head(&repo, "first", &[]);
    let before = time::OffsetDateTime::now_utc().unix_timestamp();
    let m = resolve(dir.path().to_str().unwrap()).unwrap();
    let after = time::OffsetDateTime::now_utc().unix_timestamp();
    let c = parse_rfc3339(&m.build_time).unwrap();
    let month = time::Month::try_from(c.month).unwrap();
    let date = time::Date::from_calendar_date(c.year as i32, month, c.day).unwrap();
    let ts = date.with_hms(c.hour, c.minute, c.second).unwrap().assume_utc().unix_timestamp();
    assert!(before - 5 <= ts && ts <= after + 5);
}

#[test]
fn repeated_reads_are_identical() {
    let dir = tempfile::tempdir().unwrap();
    let repo = init_repo(dir.path());
    commit_head(&repo, "first", &[]);
    let path = dir.path().to_str().unwrap().to_string();
    let mut cell = MetadataCell::new();
    let first = cell.get_or_resolve(&path).unwrap();
    let second = cell.get_or_resolve(&path).unwrap();
    let third = cell.get_or_resolve(&path).unwrap();
    assert_eq!(first.head, second.head);
    assert_eq!(first.commit_descriptor, second.commit_descriptor);
    assert_eq!(first.build_time, second.build_time);
    assert_eq!(first.head, third.head);
    assert_eq!(first.commit_descriptor, third.commit_descriptor);
    assert_eq!(first.build_time, third.build_time);
}

#[test]
fn memoized_record_ignores_later_commits() {
    let dir = tempfile::tempdir().unwrap();
    let repo = init_repo(dir.path());
    let first = commit_head(&repo, "first", &[]);
    let path = dir.path().to_str().unwrap().to_string();
    let mut cell = MetadataCell::new();
    let before = cell.get_or_resolve(&path).unwrap();
    let parent = repo.find_commit(first).unwrap();
    commit_head(&repo, "second", &[&parent]);
    let after = cell.get_or_resolve(&path).unwrap();
    assert_eq!(before.commit_descriptor, after.commit_descriptor);
    assert_eq!(before.head, after.head);
    assert_eq!(before.build_time, after.build_time);
}

#[test]
fn failure_is_memoized_too() {
    let dir = tempfile::tempdir().unwrap();
    let path = dir.path().to_str().unwrap().to_string();
    let mut cell = MetadataCell::new();
    let first = cell.get_or_resolve(&path);
    let second = cell.get_or_resolve(&path);
    assert_eq!(first.unwrap_err(), ResolveError::RepositoryNotFound);
    assert_eq!(second.unwrap_err(), ResolveError::RepositoryNotFound);
}

#[test]
fn fields_are_observable_only_together() {
    let dir = tempfile::tempdir().unwrap();
    let repo = init_repo(dir.path());
    commit_head(&repo, "first", &[]);
    let path = dir.path().to_str().unwrap().to_string();
    let mut cell = MetadataCell::new();
    assert!(!cell.is_resolved());
    assert_eq!(cell.head(), None);
    assert_eq!(cell.commit(), None);
    assert_eq!(cell.current_time(), None);
    let m = cell.get_or_resolve(&path).unwrap();
    assert!(cell.is_resolved());
    assert_eq!(cell.head().unwrap(), m.head);
    assert_eq!(cell.commit().unwrap(), m.commit_descriptor);
    assert_eq!(cell.current_time().unwrap(), m.build_time);
}

#[test]
fn assemble_reports_each_missing_step() {
    let clock = reading(2020, 5, 7, 3, 4, 5);
    let head = || Some(String::from("main"));
    let desc = || Some(String::from("v1.0"));
    let r = assemble(false, None, None, None);
    assert_eq!(r.unwrap_err(), ResolveError::RepositoryNotFound);
    let r = assemble(true, None, desc(), Some(clock));
    assert_eq!(r.unwrap_err(), ResolveError::HeadUnresolvable);
    let r = assemble(true, head(), None, Some(clock));
    assert_eq!(r.unwrap_err(), ResolveError::DescribeFailed);
    let r = assemble(true, head(), desc(), None);
    assert_eq!(r.unwrap_err(), ResolveError::ClockUnavailable);
}

#[test]
fn each_error_names_its_step() {
    assert_eq!(ResolveError::RepositoryNotFound.message(), "not inside a repository");
    assert_eq!(ResolveError::HeadUnresolvable.message(), "head reference has no usable short name");
    assert_eq!(ResolveError::DescribeFailed.message(), "no commit or tag to describe");
    assert_eq!(ResolveError::ClockUnavailable.message(), "wall clock unavailable or out of range");
}

#[test]
fn assemble_bundles_all_three_fields() {
    let clock = reading(2020, 5, 7, 3, 4, 5);
    let m = assemble(true, Some(String::from("main")), Some(String::from("v1.0")), Some(clock))
        .unwrap();
    assert_eq!(m.head, "main");
    assert_eq!(m.commit_descriptor, "v1.0");
    assert_eq!(m.build_time, "2020-05-07T03:04:05Z");
}
