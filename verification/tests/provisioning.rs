use unix_tasks::proto::HomeDirectoryInfo;
use unix_tasks::provision::{Action, AliasEntry, Event, Phase, SkeletonEntry, CREATION_MASK};
use unix_tasks::provisioner::Provisioner;

struct World {
    dirs: Vec<String>,
    files: Vec<String>,
    links: Vec<(String, String)>,
    owners: Vec<(String, u32)>,
    labels: Vec<String>,
    rules: Vec<(String, String)>,
    skeleton: Option<Vec<SkeletonEntry>>,
    principal: Option<String>,
    deny_owner: bool,
    mutations: usize,
    resets: usize,
}

fn world() -> World {
    World {
        dirs: vec![String::from("/home/")],
        files: Vec::new(),
        links: Vec::new(),
        owners: Vec::new(),
        labels: Vec::new(),
        rules: Vec::new(),
        skeleton: None,
        principal: Some(String::from("alice")),
        deny_owner: false,
        mutations: 0,
        resets: 0,
    }
}

fn request(name: &str, aliases: &[&str]) -> HomeDirectoryInfo {
    HomeDirectoryInfo {
        name: String::from(name),
        gid: 1000,
        aliases: aliases.iter().map(|a| String::from(*a)).collect(),
    }
}

fn perform(world: &mut World, action: Action) -> Result<Event, Result<(), String>> {
    Ok(match action {
        Action::CheckPrefix { path } => Event::Flag(world.dirs.contains(&path)),
        Action::OpenLabeler => Event::Completed(Ok(())),
        Action::LookupPrincipal { id } => {
            assert_eq!(id, 1000);
            Event::Principal(world.principal.clone())
        }
        Action::ProbeHome { path } => Event::Flag(world.dirs.contains(&path)),
        Action::CreateHome { path, mask, label_for } => {
            assert_eq!(mask, 0o027);
            if let Some(label) = label_for {
                world.labels.push(label);
            }
            world.mutations += 1;
            world.dirs.push(path);
            Event::Completed(Ok(()))
        }
        Action::SetOwner { path, id } => {
            if world.deny_owner {
                Event::Completed(Err(String::from("Unable to set ownership")))
            } else {
                world.mutations += 1;
                world.owners.push((path, id));
                Event::Completed(Ok(()))
            }
        }
        Action::ListSkeleton => Event::Listing(world.skeleton.clone()),
        Action::SetCreationLabel { template } => {
            world.labels.push(template);
            Event::Completed(Ok(()))
        }
        Action::MakeDirectory { path } => {
            world.mutations += 1;
            world.dirs.push(path);
            Event::Completed(Ok(()))
        }
        Action::CopyFile { relative, target } => {
            assert!(target.ends_with(&relative));
            world.mutations += 1;
            world.files.push(target);
            Event::Completed(Ok(()))
        }
        Action::RegisterEquivalence { template, target } => {
            world.rules.push((template, target));
            Event::Completed(Ok(()))
        }
        Action::ResetLabel => {
            world.resets += 1;
            Event::Completed(Ok(()))
        }
        Action::ProbeAlias { path } => {
            if world.links.iter().any(|(link, _)| *link == path) {
                Event::Entry(AliasEntry::Link)
            } else if world.files.contains(&path) || world.dirs.contains(&path) {
                Event::Entry(AliasEntry::Occupied)
            } else {
                Event::Entry(AliasEntry::Missing)
            }
        }
        Action::RemoveLink { path } => {
            world.mutations += 1;
            world.links.retain(|(link, _)| *link != path);
            Event::Completed(Ok(()))
        }
        Action::CreateLink { target, link } => {
            assert!(!world.links.iter().any(|(l, _)| *l == link));
            world.mutations += 1;
            world.links.push((link, target));
            Event::Completed(Ok(()))
        }
        Action::Finish(outcome) => return Err(outcome),
    })
}

fn provision(
    world: &mut World,
    info: HomeDirectoryInfo,
    prefix: &str,
    use_skeleton: bool,
    labeling: bool,
) -> Result<(), String> {
    let mut run = Provisioner::new(info, prefix, use_skeleton, labeling);
    for _ in 0..1000 {
        match perform(world, run.action()) {
            Ok(event) => run.advance(event),
            Err(outcome) => {
                assert!(run.is_finished());
                return outcome;
            }
        }
    }
    panic!("the run did not end");
}

#[test]
fn first_call_creates_the_home() {
    let mut w = world();
    assert_eq!(provision(&mut w, request("alice", &[]), "/home/", false, false), Ok(()));
    assert!(w.dirs.contains(&String::from("/home/alice")));
    assert_eq!(w.owners, vec![(String::from("/home/alice"), 1000)]);
}

#[test]
fn second_call_leaves_the_home_alone() {
    let mut w = world();
    assert_eq!(provision(&mut w, request("alice", &[]), "/home/", true, false), Ok(()));
    let after_first = w.mutations;
    w.skeleton = Some(vec![SkeletonEntry { relative: String::from(".profile"), is_dir: false }]);
    assert_eq!(provision(&mut w, request("alice", &[]), "/home/", true, false), Ok(()));
    assert_eq!(w.mutations, after_first);
    assert!(w.files.is_empty());
}

#[test]
fn missing_prefix_is_rejected_without_mutation() {
    let mut w = world();
    assert_eq!(
        provision(&mut w, request("alice", &["al"]), "/nowhere/", true, false),
        Err(String::from("Invalid home_prefix from configuration"))
    );
    assert_eq!(w.mutations, 0);
    assert_eq!(w.dirs, vec![String::from("/home/")]);
}

#[test]
fn prefix_that_is_a_file_is_rejected() {
    let mut w = world();
    w.files.push(String::from("/home/file"));
    assert_eq!(
        provision(&mut w, request("alice", &[]), "/home/file", false, false),
        Err(String::from("Invalid home_prefix from configuration"))
    );
    assert_eq!(w.mutations, 0);
}

#[test]
fn first_action_asks_about_the_prefix() {
    let run = Provisioner::new(request("alice", &[]), "/home/", false, false);
    assert_eq!(run.phase(), Phase::PrefixCheck);
    assert_eq!(run.action(), Action::CheckPrefix { path: String::from("/home/") });
}

#[test]
fn home_is_created_under_the_mask() {
    let mut run = Provisioner::new(request("alice", &[]), "/home/", false, false);
    run.advance(Event::Flag(true));
    assert_eq!(run.action(), Action::ProbeHome { path: String::from("/home/alice") });
    run.advance(Event::Flag(false));
    assert_eq!(CREATION_MASK, 0o027);
    assert_eq!(
        run.action(),
        Action::CreateHome { path: String::from("/home/alice"), mask: 0o027, label_for: None }
    );
    run.advance(Event::Completed(Ok(())));
    assert_eq!(run.action(), Action::SetOwner { path: String::from("/home/alice"), id: 1000 });
}

#[test]
fn missing_alias_becomes_a_link() {
    let mut w = world();
    assert_eq!(provision(&mut w, request("alice", &["al"]), "/home/", false, false), Ok(()));
    assert_eq!(w.links, vec![(String::from("/home/al"), String::from("alice"))]);
}

#[test]
fn stale_alias_is_rewritten() {
    let mut w = world();
    w.links.push((String::from("/home/al"), String::from("bob")));
    assert_eq!(provision(&mut w, request("alice", &["al"]), "/home/", false, false), Ok(()));
    assert_eq!(w.links, vec![(String::from("/home/al"), String::from("alice"))]);
}

#[test]
fn occupied_alias_is_left_untouched() {
    let mut w = world();
    w.files.push(String::from("/home/al"));
    assert_eq!(
        provision(&mut w, request("alice", &["al", "ally"]), "/home/", false, false),
        Ok(())
    );
    assert_eq!(w.files, vec![String::from("/home/al")]);
    assert_eq!(w.links, vec![(String::from("/home/ally"), String::from("alice"))]);
}

#[test]
fn alias_is_sanitized_like_the_name() {
    let mut w = world();
    assert_eq!(
        provision(&mut w, request("./ali/ce", &[".a\\l"]), "/home/", false, false),
        Ok(())
    );
    assert!(w.dirs.contains(&String::from("/home/alice")));
    assert_eq!(w.links, vec![(String::from("/home/al"), String::from("alice"))]);
}

#[test]
fn failed_ownership_creates_no_alias() {
    let mut w = world();
    w.deny_owner = true;
    assert_eq!(
        provision(&mut w, request("alice", &["al"]), "/home/", true, false),
        Err(String::from("Unable to set ownership"))
    );
    assert!(w.links.is_empty());
    assert!(w.owners.is_empty());
}

#[test]
fn failed_ownership_with_labels_still_resets_the_label() {
    let mut w = world();
    w.deny_owner = true;
    assert_eq!(
        provision(&mut w, request("alice", &["al"]), "/home/", true, true),
        Err(String::from("Unable to set ownership"))
    );
    assert!(w.links.is_empty());
    assert_eq!(w.resets, 1);
}

#[test]
fn empty_name_is_not_within_the_prefix() {
    let mut w = world();
    assert_eq!(
        provision(&mut w, request("../", &[]), "/home/", false, false),
        Err(String::from("Invalid home directory name - not within home_prefix"))
    );
    assert_eq!(w.mutations, 0);
}

#[test]
fn prefix_without_parent_is_corrupt() {
    let mut w = world();
    w.dirs.push(String::from("/"));
    assert_eq!(
        provision(&mut w, request("", &[]), "/", false, false),
        Err(String::from("Invalid/Corrupt home directory path - no prefix found"))
    );
}

#[test]
fn empty_alias_fails_after_the_home_is_made() {
    let mut w = world();
    assert_eq!(
        provision(&mut w, request("alice", &["..."]), "/home/", false, false),
        Err(String::from("Invalid home directory alias - not within home_prefix"))
    );
    assert!(w.dirs.contains(&String::from("/home/alice")));
    assert!(w.links.is_empty());
}

#[test]
fn skeleton_is_copied_into_a_new_home() {
    let mut w = world();
    w.skeleton = Some(vec![
        SkeletonEntry { relative: String::from(""), is_dir: true },
        SkeletonEntry { relative: String::from(".config"), is_dir: true },
        SkeletonEntry { relative: String::from(".config/rc"), is_dir: false },
    ]);
    assert_eq!(provision(&mut w, request("alice", &[]), "/home/", true, false), Ok(()));
    assert!(w.dirs.contains(&String::from("/home/alice/.config")));
    assert_eq!(w.files, vec![String::from("/home/alice/.config/rc")]);
    assert_eq!(
        w.owners,
        vec![
            (String::from("/home/alice"), 1000),
            (String::from("/home/alice/"), 1000),
            (String::from("/home/alice/.config"), 1000),
            (String::from("/home/alice/.config/rc"), 1000),
        ]
    );
    assert!(w.rules.is_empty());
    assert_eq!(w.resets, 0);
}

#[test]
fn skeleton_is_skipped_when_not_asked_for() {
    let mut w = world();
    w.skeleton = Some(vec![SkeletonEntry { relative: String::from(".profile"), is_dir: false }]);
    assert_eq!(provision(&mut w, request("alice", &[]), "/home/", false, false), Ok(()));
    assert!(w.files.is_empty());
}

#[test]
fn labels_follow_the_principal_name() {
    let mut w = world();
    w.skeleton = Some(vec![SkeletonEntry { relative: String::from(".profile"), is_dir: false }]);
    let info = request("5f1c", &["alice"]);
    assert_eq!(provision(&mut w, info, "/home/", true, true), Ok(()));
    assert_eq!(
        w.labels,
        vec![String::from("/home/alice"), String::from("/home/alice/.profile")]
    );
    assert_eq!(w.files, vec![String::from("/home/5f1c/.profile")]);
    assert_eq!(w.rules, vec![(String::from("/home/alice"), String::from("/home/5f1c"))]);
    assert_eq!(w.resets, 1);
    assert_eq!(w.links, vec![(String::from("/home/alice"), String::from("5f1c"))]);
}

#[test]
fn unknown_principal_fails_with_labels() {
    let mut w = world();
    w.principal = None;
    assert_eq!(
        provision(&mut w, request("alice", &[]), "/home/", false, true),
        Err(String::from("Failed looking up username by uid for SELinux relabeling"))
    );
    assert_eq!(w.mutations, 0);
}

#[test]
fn failed_label_reset_fails_the_request() {
    let mut run = Provisioner::new(request("alice", &["al"]), "/home/", false, true);
    run.advance(Event::Flag(true));
    assert_eq!(run.action(), Action::OpenLabeler);
    run.advance(Event::Completed(Ok(())));
    assert_eq!(run.action(), Action::LookupPrincipal { id: 1000 });
    run.advance(Event::Principal(Some(String::from("alice"))));
    run.advance(Event::Flag(true));
    assert_eq!(run.action(), Action::ResetLabel);
    run.advance(Event::Completed(Err(String::from("denied"))));
    assert_eq!(
        run.action(),
        Action::Finish(Err(String::from("Failed resetting SELinux file creation contexts")))
    );
}

#[test]
fn failed_rule_fails_with_its_own_message() {
    let mut run = Provisioner::new(request("alice", &[]), "/home/", true, true);
    run.advance(Event::Flag(true));
    run.advance(Event::Completed(Ok(())));
    run.advance(Event::Principal(Some(String::from("alice"))));
    run.advance(Event::Flag(false));
    run.advance(Event::Completed(Ok(())));
    run.advance(Event::Completed(Ok(())));
    assert_eq!(run.action(), Action::ListSkeleton);
    run.advance(Event::Listing(Some(vec![SkeletonEntry {
        relative: String::from("x"),
        is_dir: true,
    }])));
    assert_eq!(run.phase(), Phase::EntryLabel);
    run.advance(Event::Completed(Ok(())));
    assert_eq!(run.action(), Action::MakeDirectory { path: String::from("/home/alice/x") });
    run.advance(Event::Completed(Ok(())));
    run.advance(Event::Completed(Ok(())));
    assert_eq!(run.phase(), Phase::EntryRule);
    run.advance(Event::Completed(Err(String::from("spawn failed"))));
    assert_eq!(run.action(), Action::ResetLabel);
    run.advance(Event::Completed(Ok(())));
    assert_eq!(
        run.action(),
        Action::Finish(Err(String::from("Failed creating SELinux policy equivalence rule")))
    );
}

#[test]
fn unreadable_alias_fails_with_the_reason() {
    let mut run = Provisioner::new(request("alice", &["al"]), "/home/", false, false);
    run.advance(Event::Flag(true));
    run.advance(Event::Flag(true));
    assert_eq!(run.action(), Action::ProbeAlias { path: String::from("/home/al") });
    run.advance(Event::Entry(AliasEntry::Unreadable(String::from("denied"))));
    assert_eq!(run.action(), Action::Finish(Err(String::from("denied"))));
}

#[test]
fn event_of_the_wrong_kind_ends_the_run() {
    let mut run = Provisioner::new(request("alice", &[]), "/home/", false, false);
    run.advance(Event::Principal(None));
    assert_eq!(
        run.action(),
        Action::Finish(Err(String::from("Unexpected event for the pending action")))
    );
}

#[test]
fn finished_run_ignores_events() {
    let mut run = Provisioner::new(request("alice", &[]), "/home/", false, false);
    run.advance(Event::Flag(false));
    assert!(run.is_finished());
    run.advance(Event::Flag(true));
    run.advance(Event::Completed(Ok(())));
    assert_eq!(
        run.action(),
        Action::Finish(Err(String::from("Invalid home_prefix from configuration")))
    );
}
