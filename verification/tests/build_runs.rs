use adocsite::builder::{Action, Build, Event, Phase, BUILD_ROOT};
use adocsite::error::{BuildError, RendererFailure};
use std::collections::BTreeMap;

#[derive(Clone, Debug, PartialEq)]
enum Node {
    Dir,
    File(Vec<u8>),
}

#[derive(Clone, Copy, Debug, PartialEq)]
enum Fault {
    Nothing,
    Removal,
    Walk,
    CreateDir,
    Write,
    Copy,
    RemoveFile,
    RendererMissing,
}

/// A file system in memory, a renderer that turns the first line of a
/// document into the title of its page, and a record of what was done.
struct World {
    nodes: BTreeMap<String, Node>,
    fault: Fault,
    log: Vec<String>,
}

fn parent(path: &str) -> &str {
    match path.rfind('/') {
        Some(i) => &path[..i],
        None => "",
    }
}

fn render(source: &[u8]) -> (bool, Vec<u8>) {
    let text = String::from_utf8_lossy(source).into_owned();
    if text.starts_with("!exit") {
        return (false, b"asciidoctor: FAILED".to_vec());
    }
    if text.starts_with("!bytes") {
        return (true, vec![0x3c, 0x68, 0xff, 0xfe, 0x3e]);
    }
    let mut lines = text.lines();
    let first = lines.next().unwrap_or("");
    let body: Vec<&str> = lines.collect();
    let head = match first.strip_prefix("= ") {
        Some(title) => format!("<head><title>{}</title></head>", title),
        None => "<head><meta charset=\"UTF-8\"></head>".to_string(),
    };
    (true, format!("<!DOCTYPE html>\n<html>{}<body><pre>{}</pre></body></html>\n", head, body.join("\n")).into_bytes())
}

impl World {
    fn new(entries: &[(&str, Option<&str>)]) -> World {
        let mut nodes = BTreeMap::new();
        for (path, content) in entries {
            let node = match content {
                Some(text) => Node::File(text.as_bytes().to_vec()),
                None => Node::Dir,
            };
            nodes.insert(path.to_string(), node);
        }
        World { nodes, fault: Fault::Nothing, log: Vec::new() }
    }

    fn is_dir(&self, path: &str) -> bool {
        path.is_empty() || self.nodes.get(path) == Some(&Node::Dir)
    }

    fn text(&self, path: &str) -> Option<String> {
        match self.nodes.get(path) {
            Some(Node::File(bytes)) => Some(String::from_utf8_lossy(bytes).into_owned()),
            _ => None,
        }
    }

    fn under(&self, root: &str) -> Vec<String> {
        let prefix = format!("{}/", root);
        self.nodes.keys().filter(|k| k.as_str() == root || k.starts_with(&prefix)).cloned().collect()
    }

    fn put(&mut self, path: &str, node: Node) -> Event {
        if !self.is_dir(parent(path)) {
            return Event::Missing;
        }
        self.nodes.insert(path.to_string(), node);
        Event::Done
    }

    fn perform(&mut self, action: &Action, walk: &mut Option<std::vec::IntoIter<String>>, root: &str) -> Event {
        match action {
            Action::CheckSource { path } => {
                self.log.push(format!("check {}", path));
                if self.nodes.contains_key(path) {
                    Event::Done
                } else {
                    Event::Missing
                }
            },
            Action::RemoveTree { path } => {
                self.log.push(format!("rmtree {}", path));
                if self.fault == Fault::Removal {
                    return Event::Failed;
                }
                let doomed = self.under(path);
                if doomed.is_empty() {
                    return Event::Missing;
                }
                for key in doomed {
                    self.nodes.remove(&key);
                }
                Event::Done
            },
            Action::NextEntry => {
                if self.fault == Fault::Walk {
                    return Event::Failed;
                }
                if walk.is_none() {
                    let mut found = self.under(root);
                    found.push("elsewhere/outside.adoc".to_string());
                    *walk = Some(found.into_iter());
                }
                match walk.as_mut().unwrap().next() {
                    Some(path) => {
                        let is_dir = self.is_dir(&path);
                        Event::Entry { path, is_dir }
                    },
                    None => Event::EndOfTree,
                }
            },
            Action::CreateDir { path } => {
                self.log.push(format!("mkdir {}", path));
                if self.fault == Fault::CreateDir {
                    return Event::Failed;
                }
                if self.nodes.contains_key(path.as_str()) {
                    return Event::Exists;
                }
                self.put(path, Node::Dir)
            },
            Action::Render { document, working_dir } => {
                self.log.push(format!("render {} in {}", document, working_dir));
                if self.fault == Fault::RendererMissing {
                    return Event::NotStarted;
                }
                let mut dir = working_dir.as_str();
                let mut missing = Vec::new();
                while !self.is_dir(dir) {
                    missing.push(dir.to_string());
                    dir = parent(dir);
                }
                for made in missing {
                    self.nodes.insert(made, Node::Dir);
                }
                match self.nodes.get(document.as_str()) {
                    Some(Node::File(bytes)) => {
                        let (success, output) = render(bytes);
                        Event::Rendered { success, output }
                    },
                    _ => Event::Missing,
                }
            },
            Action::WriteFile { path, text } => {
                self.log.push(format!("write {}", path));
                if self.fault == Fault::Write {
                    return Event::Failed;
                }
                self.put(path, Node::File(text.as_bytes().to_vec()))
            },
            Action::CopyFile { from, to } => {
                self.log.push(format!("copy {} {}", from, to));
                if self.fault == Fault::Copy {
                    return Event::Failed;
                }
                match self.nodes.get(from.as_str()).cloned() {
                    Some(node) => self.put(to, node),
                    None => Event::Missing,
                }
            },
            Action::RemoveFile { path } => {
                self.log.push(format!("rm {}", path));
                if self.fault == Fault::RemoveFile {
                    return Event::Failed;
                }
                match self.nodes.remove(path.as_str()) {
                    Some(_) => Event::Done,
                    None => Event::Missing,
                }
            },
            Action::Finish | Action::Abort { .. } => unreachable!(),
        }
    }

    fn build(&mut self, source: &str) -> Result<(), BuildError> {
        let (mut build, mut action) = Build::start(source, BUILD_ROOT);
        let root = build.source_root.clone();
        let mut walk = None;
        for _ in 0..10_000 {
            match action {
                Action::Finish => {
                    assert!(build.is_over());
                    assert_eq!(build.failure(), None);
                    return Ok(());
                },
                Action::Abort { error } => {
                    assert!(build.is_over());
                    assert_eq!(build.failure(), Some(error));
                    return Err(error);
                },
                _ => {},
            }
            let event = self.perform(&action, &mut walk, &root);
            let next = build.step(event);
            build = next.0;
            action = next.1;
        }
        panic!("the build does not end");
    }
}

fn small_tree() -> World {
    World::new(&[
        ("docs", None),
        ("docs/a.adoc", Some("= Alpha\nfirst document")),
        ("docs/sub", None),
        ("docs/sub/b.adoc", Some("= Beta\nsecond document")),
        ("docs/image.png", Some("\u{89}PNG not really")),
    ])
}

fn build_tree(world: &World) -> Vec<String> {
    world.under("build")
}

#[test]
fn small_tree_is_built_from_end_to_end() {
    let mut world = small_tree();
    assert_eq!(world.build("docs"), Ok(()));
    assert_eq!(
        build_tree(&world),
        vec!["build", "build/a.html", "build/image.png", "build/index.html", "build/sub", "build/sub/b.html"]
    );
    assert!(world.text("build/a.html").unwrap().contains("<title>Alpha</title>"));
    assert!(world.text("build/a.html").unwrap().contains("first document"));
    assert!(world.text("build/sub/b.html").unwrap().contains("<title>Beta</title>"));
    assert!(world.text("build/sub/b.html").unwrap().contains("second document"));
    assert_eq!(world.nodes.get("build/image.png"), world.nodes.get("docs/image.png"));
    assert_eq!(world.nodes.get("build/sub"), Some(&Node::Dir));
    let index = world.text("build/index.html").unwrap();
    assert!(index.contains("<title>Index</title>"));
    assert!(index.contains("<pre>\n* xref:a.html[Alpha]\n* sub\n** xref:sub/b.html[Beta]</pre>"));
    assert_eq!(world.nodes.get("build/index.adoc"), None);
    assert!(world.log.contains(&"write build/index.adoc".to_string()));
    assert_eq!(world.log.last(), Some(&"rm build/index.adoc".to_string()));
}

#[test]
fn outline_of_the_small_tree_has_three_bullets() {
    let (build, _) = walking().step(entry("docs", true));
    let (build, _) = build.step(Event::Done);
    let (build, _) = build.step(entry("docs/a.adoc", false));
    let (build, _) = build.step(Event::Rendered { success: true, output: b"<title>Alpha</title>".to_vec() });
    let (build, _) = build.step(Event::Done);
    let (build, _) = build.step(entry("docs/sub", true));
    let (build, _) = build.step(Event::Done);
    let (build, _) = build.step(entry("docs/sub/b.adoc", false));
    let (build, _) = build.step(Event::Rendered { success: true, output: b"<title>Beta</title>".to_vec() });
    let (build, _) = build.step(Event::Done);
    let (build, _) = build.step(entry("docs/image.png", false));
    let (build, _) = build.step(Event::Done);
    let (_, action) = build.step(Event::EndOfTree);
    assert_eq!(
        action,
        Action::WriteFile {
            path: "build/index.adoc".to_string(),
            text: "= Index\n\n* xref:a.html[Alpha]\n* sub\n** xref:sub/b.html[Beta]\n".to_string(),
        }
    );
}

#[test]
fn source_tree_is_never_changed() {
    let mut world = small_tree();
    let before: Vec<(String, Node)> =
        world.under("docs").into_iter().map(|k| (k.clone(), world.nodes[&k].clone())).collect();
    assert_eq!(world.build("docs"), Ok(()));
    let after: Vec<(String, Node)> =
        world.under("docs").into_iter().map(|k| (k.clone(), world.nodes[&k].clone())).collect();
    assert_eq!(before, after);
}

#[test]
fn missing_source_root_leaves_the_build_tree_untouched() {
    let mut world = World::new(&[("build", None), ("build/old.html", Some("kept"))]);
    let before = world.nodes.clone();
    assert_eq!(world.build("docs"), Err(BuildError::SourceNotFound));
    assert_eq!(world.nodes, before);
    assert_eq!(world.log, vec!["check docs"]);
}

#[test]
fn stale_build_tree_is_replaced() {
    let mut world = small_tree();
    assert_eq!(world.build("docs"), Ok(()));
    world.nodes.remove("docs/a.adoc");
    world.nodes.remove("docs/sub/b.adoc");
    world.nodes.remove("docs/sub");
    world.nodes.insert("docs/c.adoc".to_string(), Node::File(b"= Gamma\nthird".to_vec()));
    world.nodes.insert("build/stray.txt".to_string(), Node::File(b"left behind".to_vec()));
    assert_eq!(world.build("docs"), Ok(()));
    assert_eq!(build_tree(&world), vec!["build", "build/c.html", "build/image.png", "build/index.html"]);
    assert!(world.text("build/index.html").unwrap().contains("<pre>\n* xref:c.html[Gamma]</pre>"));
}

#[test]
fn building_twice_gives_the_same_tree() {
    let mut world = small_tree();
    assert_eq!(world.build("docs"), Ok(()));
    let first = world.nodes.clone();
    assert_eq!(world.build("docs"), Ok(()));
    assert_eq!(world.nodes, first);
    let mut fresh = small_tree();
    assert_eq!(fresh.build("docs/"), Ok(()));
    assert_eq!(fresh.nodes, first);
}

#[test]
fn page_without_title_aborts_and_leaves_no_index() {
    let mut world = World::new(&[
        ("docs", None),
        ("docs/a.adoc", Some("= Alpha\ntext")),
        ("docs/b.adoc", Some("no heading here")),
        ("docs/c.adoc", Some("= Gamma\ntext")),
    ]);
    assert_eq!(world.build("docs"), Err(BuildError::NoTitleFound));
    assert_eq!(build_tree(&world), vec!["build", "build/a.html", "build/b.html"]);
    assert!(!world.log.iter().any(|line| line.contains("index")));
    assert!(!world.log.iter().any(|line| line.contains("c.adoc")));
}

#[test]
fn directories_are_created_before_they_are_filled() {
    let mut world = World::new(&[
        ("docs", None),
        ("docs/a", None),
        ("docs/a/b", None),
        ("docs/a/b/deep.adoc", Some("= Deep\ntext")),
        ("docs/a/b/data.bin", Some("0101")),
        ("docs/a/top.adoc", Some("= Top\ntext")),
    ]);
    assert_eq!(world.build("docs"), Ok(()));
    let position = |line: &str| world.log.iter().position(|l| l == line).unwrap();
    assert!(position("mkdir build") < position("mkdir build/a"));
    assert!(position("mkdir build/a") < position("mkdir build/a/b"));
    assert!(position("mkdir build/a/b") < position("render docs/a/b/deep.adoc in build/a/b"));
    assert!(position("mkdir build/a/b") < position("write build/a/b/deep.html"));
    assert!(position("mkdir build/a/b") < position("copy docs/a/b/data.bin build/a/b/data.bin"));
    assert!(position("mkdir build/a") < position("write build/a/top.html"));
    assert!(position("rmtree build") < position("mkdir build"));
    assert!(position("check docs") < position("rmtree build"));
}

#[test]
fn actions_come_in_the_order_of_the_walk() {
    let mut world = small_tree();
    assert_eq!(world.build("docs"), Ok(()));
    assert_eq!(
        world.log,
        vec![
            "check docs",
            "rmtree build",
            "mkdir build",
            "render docs/a.adoc in build",
            "write build/a.html",
            "copy docs/image.png build/image.png",
            "mkdir build/sub",
            "render docs/sub/b.adoc in build/sub",
            "write build/sub/b.html",
            "write build/index.adoc",
            "render build/index.adoc in build",
            "write build/index.html",
            "rm build/index.adoc",
        ]
    );
}

#[test]
fn directory_named_like_a_document_is_mirrored() {
    let mut world = World::new(&[
        ("docs", None),
        ("docs/old.adoc", None),
        ("docs/old.adoc/note.adoc", Some("= Note\ntext")),
    ]);
    assert_eq!(world.build("docs"), Ok(()));
    assert_eq!(
        build_tree(&world),
        vec!["build", "build/index.html", "build/old.adoc", "build/old.adoc/note.html"]
    );
    assert!(world.text("build/index.html").unwrap().contains("<pre>\n* old.adoc\n** xref:old.adoc/note.html[Note]</pre>"));
}

#[test]
fn removal_failure_is_a_build_tree_error() {
    let mut world = small_tree();
    world.nodes.insert("build".to_string(), Node::Dir);
    world.fault = Fault::Removal;
    assert_eq!(world.build("docs"), Err(BuildError::BuildTreeError));
    assert_eq!(world.log, vec!["check docs", "rmtree build"]);
}

#[test]
fn absent_build_tree_is_no_error() {
    let mut world = small_tree();
    assert!(build_tree(&world).is_empty());
    assert_eq!(world.build("docs"), Ok(()));
}

#[test]
fn renderer_that_cannot_be_started_ends_the_build() {
    let mut world = small_tree();
    world.fault = Fault::RendererMissing;
    assert_eq!(world.build("docs"), Err(BuildError::RendererInvocationFailure(RendererFailure::NotStarted)));
    assert_eq!(build_tree(&world), vec!["build"]);
}

#[test]
fn renderer_exit_status_ends_the_build() {
    let mut world = World::new(&[("docs", None), ("docs/a.adoc", Some("!exit")), ("docs/b.adoc", Some("= B"))]);
    assert_eq!(world.build("docs"), Err(BuildError::RendererInvocationFailure(RendererFailure::ExitStatus)));
    assert_eq!(build_tree(&world), vec!["build"]);
}

#[test]
fn renderer_output_that_is_not_text_ends_the_build() {
    let mut world = World::new(&[("docs", None), ("docs/a.adoc", Some("!bytes")), ("docs/b.adoc", Some("= B"))]);
    assert_eq!(
        world.build("docs"),
        Err(BuildError::RendererInvocationFailure(RendererFailure::UndecodableOutput))
    );
    assert_eq!(build_tree(&world), vec!["build"]);
}

#[test]
fn file_system_failures_end_the_build() {
    for fault in [Fault::Walk, Fault::Write, Fault::Copy, Fault::RemoveFile] {
        let mut world = small_tree();
        world.fault = fault;
        assert_eq!(world.build("docs"), Err(BuildError::IoError), "{:?}", fault);
    }
}

#[test]
fn directory_that_cannot_be_created_is_a_build_tree_error() {
    let mut world = small_tree();
    world.fault = Fault::CreateDir;
    assert_eq!(world.build("docs"), Err(BuildError::BuildTreeError));
    assert_eq!(world.log, vec!["check docs", "rmtree build", "mkdir build"]);
    assert!(build_tree(&world).is_empty());
    let (build, _) = walking().step(entry("docs", true));
    let (_, action) = build.step(Event::Failed);
    assert_eq!(action, Action::Abort { error: BuildError::BuildTreeError });
    let (build, _) = walking().step(entry("docs/a/b", true));
    let (_, action) = build.step(Event::Missing);
    assert_eq!(action, Action::Abort { error: BuildError::BuildTreeError });
    let (build, _) = walking().step(entry("docs/a", true));
    let (_, action) = build.step(Event::EndOfTree);
    assert_eq!(action, Action::Abort { error: BuildError::OutOfSequence });
}

#[test]
fn failed_build_may_leave_a_part_of_the_tree() {
    let mut world = small_tree();
    world.fault = Fault::Copy;
    assert_eq!(world.build("docs"), Err(BuildError::IoError));
    assert_eq!(build_tree(&world), vec!["build", "build/a.html"]);
}

#[test]
fn build_begins_by_looking_for_the_source_root() {
    let (build, action) = Build::start("docs///", "out");
    assert_eq!(action, Action::CheckSource { path: "docs".to_string() });
    assert_eq!(build.source_root, "docs");
    assert_eq!(build.build_root, "out");
    assert_eq!(build.phase, Phase::CheckingSource);
    assert!(build.entries.is_empty());
    assert!(!build.is_over());
    assert_eq!(build.outline_path(), "out/index.adoc");
    assert_eq!(build.index_path(), "out/index.html");
    assert_eq!(BUILD_ROOT, "build");
}

fn walking() -> Build {
    let (build, _) = Build::start("docs", "build");
    let (build, action) = build.step(Event::Done);
    assert_eq!(action, Action::RemoveTree { path: "build".to_string() });
    assert_eq!(build.phase, Phase::Cleaning);
    let (build, action) = build.step(Event::Missing);
    assert_eq!(action, Action::NextEntry);
    assert_eq!(build.phase, Phase::Walking);
    build
}

fn entry(path: &str, is_dir: bool) -> Event {
    Event::Entry { path: path.to_string(), is_dir }
}

#[test]
fn entry_outside_the_source_root_is_passed_over() {
    let (build, action) = walking().step(entry("/var/tmp/x.adoc", false));
    assert_eq!(action, Action::NextEntry);
    assert_eq!(build.phase, Phase::Walking);
    assert!(build.entries.is_empty());
    let (build, action) = build.step(entry("docsy/x.adoc", false));
    assert_eq!(action, Action::NextEntry);
    assert!(build.entries.is_empty());
}

#[test]
fn document_is_rendered_in_the_directory_of_its_page() {
    let (build, action) = walking().step(entry("docs/guide/intro.adoc", false));
    assert_eq!(
        action,
        Action::Render { document: "docs/guide/intro.adoc".to_string(), working_dir: "build/guide".to_string() }
    );
    let page = b"<html><head><title>Intro</title></head><body></body></html>".to_vec();
    let (build, action) = build.step(Event::Rendered { success: true, output: page.clone() });
    assert_eq!(
        action,
        Action::WriteFile { path: "build/guide/intro.html".to_string(), text: String::from_utf8(page).unwrap() }
    );
    assert!(build.entries.is_empty());
    let (build, action) = build.step(Event::Done);
    assert_eq!(action, Action::NextEntry);
    assert_eq!(build.phase, Phase::Walking);
    assert_eq!(build.entries.len(), 1);
    assert_eq!(build.entries[0].level, 1);
    assert_eq!(build.entries[0].line(), "** xref:guide/intro.html[Intro]");
    assert_eq!(build.entries[0].label, "Intro");
    assert_eq!(build.entries[0].target, Some("guide/intro.html".to_string()));
}

#[test]
fn directory_is_listed_and_created() {
    let (build, action) = walking().step(entry("docs", true));
    assert_eq!(action, Action::CreateDir { path: "build".to_string() });
    assert_eq!(build.phase, Phase::CreatingDir);
    assert!(build.entries.is_empty());
    let (build, _) = build.step(Event::Done);
    let (build, action) = build.step(entry("docs/sub", true));
    assert_eq!(action, Action::CreateDir { path: "build/sub".to_string() });
    assert_eq!(build.entries.len(), 1);
    assert_eq!((build.entries[0].level, build.entries[0].label.as_str()), (0, "sub"));
    assert_eq!(build.entries[0].target, None);
    let (build, _) = build.step(Event::Done);
    let (build, action) = build.step(entry("docs/sub/deeper", true));
    assert_eq!(action, Action::CreateDir { path: "build/sub/deeper".to_string() });
    assert_eq!((build.entries[1].level, build.entries[1].label.as_str()), (1, "sub/deeper"));
}

#[test]
fn directory_that_is_there_already_is_no_error() {
    let (build, _) = walking().step(entry("docs/sub", true));
    let (build, action) = build.step(Event::Exists);
    assert_eq!(action, Action::NextEntry);
    assert_eq!(build.phase, Phase::Walking);
    assert_eq!(build.entries.len(), 1);
    let (build, _) = walking().step(entry("docs/image.png", false));
    let (_, action) = build.step(Event::Exists);
    assert_eq!(action, Action::Abort { error: BuildError::IoError });
}

#[test]
fn other_file_is_copied() {
    let (build, action) = walking().step(entry("docs/sub/image.png", false));
    assert_eq!(
        action,
        Action::CopyFile { from: "docs/sub/image.png".to_string(), to: "build/sub/image.png".to_string() }
    );
    assert_eq!(build.phase, Phase::Copying);
    let (build, action) = build.step(Event::Done);
    assert_eq!(action, Action::NextEntry);
    assert!(build.entries.is_empty());
}

#[test]
fn end_of_the_walk_brings_the_index() {
    let (build, action) = walking().step(Event::EndOfTree);
    assert_eq!(action, Action::WriteFile { path: "build/index.adoc".to_string(), text: "= Index\n\n".to_string() });
    let (build, action) = build.step(Event::Done);
    assert_eq!(
        action,
        Action::Render { document: "build/index.adoc".to_string(), working_dir: "build".to_string() }
    );
    let (build, action) = build.step(Event::Rendered { success: true, output: b"<html>index</html>".to_vec() });
    assert_eq!(
        action,
        Action::WriteFile { path: "build/index.html".to_string(), text: "<html>index</html>".to_string() }
    );
    let (build, action) = build.step(Event::Done);
    assert_eq!(action, Action::RemoveFile { path: "build/index.adoc".to_string() });
    let (build, action) = build.step(Event::Done);
    assert_eq!(action, Action::Finish);
    assert_eq!(build.phase, Phase::Finished);
    assert!(build.is_over());
    assert_eq!(build.failure(), None);
}

#[test]
fn index_page_needs_no_title() {
    let (build, _) = walking().step(Event::EndOfTree);
    let (build, _) = build.step(Event::Done);
    let (_, action) = build.step(Event::Rendered { success: true, output: b"<p>no title</p>".to_vec() });
    assert_eq!(
        action,
        Action::WriteFile { path: "build/index.html".to_string(), text: "<p>no title</p>".to_string() }
    );
}

#[test]
fn outcome_out_of_sequence_ends_the_build() {
    let (build, _) = Build::start("docs", "build");
    let (build, action) = build.step(Event::EndOfTree);
    assert_eq!(action, Action::Abort { error: BuildError::OutOfSequence });
    assert_eq!(build.failure(), Some(BuildError::OutOfSequence));
    let (_, action) = walking().step(Event::Done);
    assert_eq!(action, Action::Abort { error: BuildError::OutOfSequence });
    let (_, action) = walking().step(Event::Rendered { success: true, output: Vec::new() });
    assert_eq!(action, Action::Abort { error: BuildError::OutOfSequence });
    let (build, _) = walking().step(entry("docs/a.adoc", false));
    let (_, action) = build.step(entry("docs/b.adoc", false));
    assert_eq!(action, Action::Abort { error: BuildError::OutOfSequence });
    let (build, _) = Build::start("docs", "build");
    let (build, _) = build.step(Event::Done);
    let (_, action) = build.step(Event::NotStarted);
    assert_eq!(action, Action::Abort { error: BuildError::OutOfSequence });
}

#[test]
fn build_that_is_over_stays_as_it_is() {
    let (build, _) = Build::start("docs", "build");
    let (build, action) = build.step(Event::Missing);
    assert_eq!(action, Action::Abort { error: BuildError::SourceNotFound });
    for event in [Event::Done, Event::Failed, Event::EndOfTree, entry("docs", true), Event::NotStarted] {
        let (again, action) = Build::step(
            Build {
                source_root: build.source_root.clone(),
                build_root: build.build_root.clone(),
                phase: Phase::Aborted { error: BuildError::SourceNotFound },
                entries: Vec::new(),
            },
            event,
        );
        assert_eq!(action, Action::Abort { error: BuildError::SourceNotFound });
        assert_eq!(again, build);
    }
    let finished = || Build {
        source_root: "docs".to_string(),
        build_root: "build".to_string(),
        phase: Phase::Finished,
        entries: Vec::new(),
    };
    for event in [Event::Done, Event::Failed, Event::EndOfTree, entry("docs", true)] {
        let (again, action) = finished().step(event);
        assert_eq!(action, Action::Finish);
        assert_eq!(again, finished());
    }
}

#[test]
fn failure_to_look_for_the_source_root_is_an_io_error() {
    let (build, _) = Build::start("docs", "build");
    let (_, action) = build.step(Event::Failed);
    assert_eq!(action, Action::Abort { error: BuildError::IoError });
}

#[test]
fn missing_file_during_the_walk_is_an_io_error() {
    let (build, _) = walking().step(entry("docs/image.png", false));
    let (_, action) = build.step(Event::Missing);
    assert_eq!(action, Action::Abort { error: BuildError::IoError });
    let (build, _) = walking().step(entry("docs/a.adoc", false));
    let (_, action) = build.step(Event::Failed);
    assert_eq!(action, Action::Abort { error: BuildError::IoError });
}

#[test]
fn untitled_page_is_written_before_the_build_ends() {
    let (build, _) = walking().step(entry("docs/a.adoc", false));
    let (build, action) = build.step(Event::Rendered { success: true, output: b"<p>untitled</p>".to_vec() });
    assert_eq!(action, Action::WriteFile { path: "build/a.html".to_string(), text: "<p>untitled</p>".to_string() });
    let (build, action) = build.step(Event::Done);
    assert_eq!(action, Action::Abort { error: BuildError::NoTitleFound });
    assert!(build.entries.is_empty());
    let (_, action) = build.step(Event::EndOfTree);
    assert_eq!(action, Action::Abort { error: BuildError::NoTitleFound });
}
