//! End-to-end scenarios: the engine driven against a small in-memory
//! filesystem, one operation capability per test, mirroring real use.

use std::collections::BTreeMap;
use std::collections::BTreeSet;

use wildcarding::engine::Action;
use wildcarding::engine::DirEntry;
use wildcarding::engine::Engine;
use wildcarding::engine::Event;
use wildcarding::engine::OpKind;
use wildcarding::WildcardingError;

/// A tiny filesystem: file path -> content, plus the set of directories.
struct FakeFs {
    files: BTreeMap<String, String>,
    dirs: BTreeSet<String>,
}

impl FakeFs {
    fn new() -> FakeFs {
        FakeFs { files: BTreeMap::new(), dirs: BTreeSet::new() }
    }

    fn mkdir(&mut self, path: &str) {
        self.dirs.insert(path.to_string());
    }

    fn write(&mut self, path: &str, content: &str) {
        self.files.insert(path.to_string(), content.to_string());
    }

    fn is_file(&self, path: &str) -> bool {
        self.files.contains_key(path)
    }

    fn is_dir(&self, path: &str) -> bool {
        self.dirs.contains(path)
    }

    fn content(&self, path: &str) -> Option<&String> {
        self.files.get(path)
    }

    /// The direct entries of `dir`, in name order.
    fn list(&self, dir: &str) -> Option<Vec<DirEntry>> {
        if !self.dirs.contains(dir) {
            return None;
        }
        let prefix = format!("{}/", dir);
        let mut out: Vec<DirEntry> = Vec::new();
        for p in self.files.keys() {
            if let Some(rest) = p.strip_prefix(&prefix) {
                if !rest.is_empty() && !rest.contains('/') {
                    out.push(DirEntry { name: Some(rest.to_string()), is_file: true });
                }
            }
        }
        for d in &self.dirs {
            if let Some(rest) = d.strip_prefix(&prefix) {
                if !rest.is_empty() && !rest.contains('/') {
                    out.push(DirEntry { name: Some(rest.to_string()), is_file: false });
                }
            }
        }
        Some(out)
    }

    /// The operation capability: one mutation per call.
    fn apply(&mut self, op: OpKind, source: &str, target: &str) -> bool {
        match op {
            OpKind::Copy => match self.files.get(source).cloned() {
                Some(c) => {
                    self.files.insert(target.to_string(), c);
                    true
                }
                None => false,
            },
            OpKind::Move => match self.files.remove(source) {
                Some(c) => {
                    self.files.insert(target.to_string(), c);
                    true
                }
                None => false,
            },
            OpKind::Delete => self.files.remove(source).is_some(),
        }
    }
}

/// Drive one whole call against the fake filesystem.
fn run(fs: &mut FakeFs, op: OpKind, source: &str, target: &str) -> Result<(), WildcardingError> {
    let mut eng = Engine::new(op, source.to_string(), target.to_string());
    let mut action = eng.start();
    loop {
        let ev = match action {
            Action::ProbeSource { path } => {
                Event::SourceKind { is_file: fs.is_file(&path), is_dir: fs.is_dir(&path) }
            }
            Action::ProbeTarget { path } => Event::TargetKind { is_dir: fs.is_dir(&path) },
            Action::ListDir { path } => Event::Listing { entries: fs.list(&path) },
            Action::Apply { source, target } => {
                Event::Applied { ok: fs.apply(op, &source, &target) }
            }
            Action::Stop { outcome } => return outcome,
        };
        let (next_eng, next_action) = eng.next(ev);
        eng = next_eng;
        action = next_action;
    }
}

fn cp(fs: &mut FakeFs, source: &str, target: &str) -> Result<(), WildcardingError> {
    run(fs, OpKind::Copy, source, target)
}

fn mv(fs: &mut FakeFs, source: &str, target: &str) -> Result<(), WildcardingError> {
    run(fs, OpKind::Move, source, target)
}

fn rm(fs: &mut FakeFs, source: &str) -> Result<(), WildcardingError> {
    // The delete capability ignores its target; hand it a scratch directory.
    run(fs, OpKind::Delete, source, "scratch")
}

#[test]
fn copy_file_to_file() {
    let mut fs = FakeFs::new();
    let wd = "cp-file-to-file";
    fs.mkdir(wd);
    fs.write(&format!("{}/source", wd), "this is source");

    cp(&mut fs, &format!("{}/source", wd), &format!("{}/target", wd)).unwrap();

    assert!(fs.is_file(&format!("{}/target", wd)));
    assert_eq!(fs.content(&format!("{}/target", wd)).unwrap(), "this is source");
    assert!(fs.is_file(&format!("{}/source", wd)));
}

#[test]
fn copy_file_to_dir() {
    let mut fs = FakeFs::new();
    let wd = "cp-file-to-dir";
    fs.mkdir(wd);
    fs.write(&format!("{}/source", wd), "this is source");
    let target = format!("{}/target", wd);
    fs.mkdir(&target);

    cp(&mut fs, &format!("{}/source", wd), &target).unwrap();

    assert!(fs.is_file(&format!("{}/source", target)));
    assert_eq!(fs.content(&format!("{}/source", target)).unwrap(), "this is source");
    assert!(fs.is_file(&format!("{}/source", wd)));
}

#[test]
fn copy_dir_to_dir() {
    let mut fs = FakeFs::new();
    let wd = "cp-dir-to-dir";
    let source = format!("{}/source", wd);
    let target = format!("{}/target", wd);
    fs.mkdir(&source);
    fs.mkdir(&target);
    fs.write(&format!("{}/file1", source), "this is file 1");
    fs.write(&format!("{}/file2", source), "this is file 2");

    cp(&mut fs, &source, &target).unwrap();

    assert!(fs.is_file(&format!("{}/file1", target)));
    assert!(fs.is_file(&format!("{}/file2", target)));
    assert_eq!(fs.content(&format!("{}/file1", target)).unwrap(), "this is file 1");
    assert_eq!(fs.content(&format!("{}/file2", target)).unwrap(), "this is file 2");
}

#[test]
fn copy_mask_to_dir() {
    let mut fs = FakeFs::new();
    let wd = "cp-mask-to-dir";
    let source = format!("{}/source", wd);
    let target = format!("{}/target", wd);
    fs.mkdir(&source);
    fs.mkdir(&target);
    fs.write(&format!("{}/file1.txt", source), "this is txt");
    fs.write(&format!("{}/file2.txt", source), "this is also txt");
    fs.write(&format!("{}/file1.glob", source), "this is not txt");

    cp(&mut fs, &format!("{}/*.txt", source), &target).unwrap();

    assert!(fs.is_file(&format!("{}/file1.txt", target)));
    assert!(fs.is_file(&format!("{}/file2.txt", target)));
    assert!(!fs.is_file(&format!("{}/file1.glob", target)));
    assert_eq!(fs.content(&format!("{}/file1.txt", target)).unwrap(), "this is txt");
    assert_eq!(fs.content(&format!("{}/file2.txt", target)).unwrap(), "this is also txt");
    assert!(fs.is_file(&format!("{}/file1.txt", source)));
    assert!(fs.is_file(&format!("{}/file2.txt", source)));
    assert!(fs.is_file(&format!("{}/file1.glob", source)));
}

#[test]
fn copy_star() {
    let mut fs = FakeFs::new();
    let wd = "cp-mask-star";
    let source = format!("{}/source", wd);
    let target = format!("{}/target", wd);
    fs.mkdir(&source);
    fs.mkdir(&target);
    fs.write(&format!("{}/file1", source), "this is 1");
    fs.write(&format!("{}/file2", source), "this is 2");

    cp(&mut fs, &format!("{}/*", source), &target).unwrap();

    assert!(fs.is_file(&format!("{}/file1", target)));
    assert!(fs.is_file(&format!("{}/file2", target)));
}

#[test]
fn move_file_to_file() {
    let mut fs = FakeFs::new();
    let wd = "mv-file-to-file";
    fs.mkdir(wd);
    let source = format!("{}/source.txt", wd);
    let target = format!("{}/target.txt", wd);
    fs.write(&source, "this is file");

    mv(&mut fs, &source, &target).unwrap();

    assert!(!fs.is_file(&source));
    assert!(fs.is_file(&target));
    assert_eq!(fs.content(&target).unwrap(), "this is file");
}

#[test]
fn move_file_to_dir() {
    let mut fs = FakeFs::new();
    let wd = "mv-file-to-dir";
    fs.mkdir(wd);
    let target = format!("{}/target", wd);
    fs.mkdir(&target);
    let source = format!("{}/source.txt", wd);
    fs.write(&source, "this is file");

    mv(&mut fs, &source, &target).unwrap();

    assert!(!fs.is_file(&source));
    assert!(fs.is_file(&format!("{}/source.txt", target)));
}

#[test]
fn move_dir_to_dir() {
    let mut fs = FakeFs::new();
    let wd = "mv-dir-to-dir";
    let source = format!("{}/source", wd);
    let target = format!("{}/target", wd);
    fs.mkdir(&source);
    fs.mkdir(&target);
    fs.write(&format!("{}/file1.txt", source), "this is one");
    fs.write(&format!("{}/file2.txt", source), "this is two");

    mv(&mut fs, &source, &target).unwrap();

    assert!(!fs.is_file(&format!("{}/file1.txt", source)));
    assert!(!fs.is_file(&format!("{}/file2.txt", source)));
    assert!(fs.is_file(&format!("{}/file1.txt", target)));
    assert!(fs.is_file(&format!("{}/file2.txt", target)));
}

#[test]
fn move_mask_to_dir() {
    let mut fs = FakeFs::new();
    let wd = "mv-mask-to-dir";
    let source = format!("{}/source", wd);
    let target = format!("{}/target", wd);
    fs.mkdir(&source);
    fs.mkdir(&target);
    fs.write(&format!("{}/file1.txt", source), "this is txt");
    fs.write(&format!("{}/file2.txt", source), "this is txt too");
    fs.write(&format!("{}/file1.glob", source), "this is not txt");

    mv(&mut fs, &format!("{}/*.txt", source), &target).unwrap();

    assert!(!fs.is_file(&format!("{}/file1.txt", source)));
    assert!(!fs.is_file(&format!("{}/file2.txt", source)));
    assert!(fs.is_file(&format!("{}/file1.glob", source)));
    assert!(fs.is_file(&format!("{}/file1.txt", target)));
    assert!(fs.is_file(&format!("{}/file2.txt", target)));
    assert!(!fs.is_file(&format!("{}/file1.glob", target)));
}

#[test]
fn remove_file() {
    let mut fs = FakeFs::new();
    let source = "del-file/source";
    fs.mkdir(source);
    let file = format!("{}/file.txt", source);
    fs.write(&file, "this is txt");

    rm(&mut fs, &file).unwrap();

    assert!(!fs.is_file(&file));
}

#[test]
fn remove_dir() {
    let mut fs = FakeFs::new();
    let source = "del-dir/source";
    fs.mkdir(source);
    fs.mkdir("scratch");
    let file = format!("{}/file1.txt", source);
    fs.write(&file, "this is txt");

    // Removing a directory removes its direct files, not the directory.
    rm(&mut fs, source).unwrap();

    assert!(!fs.is_file(&file));
    assert!(fs.is_dir(source));
}

#[test]
fn remove_mask() {
    let mut fs = FakeFs::new();
    let source = "del-mask/source";
    fs.mkdir(source);
    let file1 = format!("{}/file1.txt", source);
    let file2 = format!("{}/file2.txt", source);
    let file3 = format!("{}/file1.glob", source);
    fs.write(&file1, "this is txt");
    fs.write(&file2, "this is also txt");
    fs.write(&file3, "this is not txt");

    rm(&mut fs, &format!("{}/*.txt", source)).unwrap();

    assert!(!fs.is_file(&file1));
    assert!(!fs.is_file(&file2));
    assert!(fs.is_file(&file3));
}

#[test]
fn remove_mask_again_matches_nothing_and_succeeds() {
    let mut fs = FakeFs::new();
    let source = "del-twice/source";
    fs.mkdir(source);
    fs.write(&format!("{}/file1.txt", source), "this is txt");
    fs.write(&format!("{}/keep.glob", source), "kept");

    rm(&mut fs, &format!("{}/*.txt", source)).unwrap();
    // Nothing matches any more; the second call succeeds with zero matches.
    rm(&mut fs, &format!("{}/*.txt", source)).unwrap();

    assert!(fs.is_file(&format!("{}/keep.glob", source)));
}

#[test]
fn remove_dir_does_not_recurse() {
    let mut fs = FakeFs::new();
    let source = "del-shallow/source";
    fs.mkdir(source);
    fs.mkdir("scratch");
    let sub = format!("{}/sub", source);
    fs.mkdir(&sub);
    fs.write(&format!("{}/top.txt", source), "direct file");
    fs.write(&format!("{}/deep.txt", sub), "nested file");

    rm(&mut fs, source).unwrap();

    assert!(!fs.is_file(&format!("{}/top.txt", source)));
    assert!(fs.is_file(&format!("{}/deep.txt", sub)));
    assert!(fs.is_dir(&sub));
    assert!(fs.is_dir(source));
}

#[test]
fn dir_to_plain_file_target_is_invalid() {
    let mut fs = FakeFs::new();
    fs.mkdir("in");
    fs.write("in/a.txt", "a");
    fs.write("out.txt", "plain file");

    let r = cp(&mut fs, "in", "out.txt");

    assert_eq!(r, Err(WildcardingError::InvalidTarget("out.txt".to_string())));
    assert!(fs.is_file("in/a.txt"));
}

#[test]
fn missing_source_without_star_is_invalid() {
    let mut fs = FakeFs::new();
    fs.mkdir("out");

    let r = cp(&mut fs, "in/nothing.txt", "out");

    assert_eq!(r, Err(WildcardingError::InvalidSource("in/nothing.txt".to_string())));
}

#[test]
fn bare_mask_has_no_parent() {
    let mut fs = FakeFs::new();

    let r = rm(&mut fs, "*.txt");

    assert_eq!(r, Err(WildcardingError::NoParent("*.txt".to_string())));
}

#[test]
fn mask_over_unreadable_parent_is_read_error() {
    let mut fs = FakeFs::new();
    fs.mkdir("out");

    let r = cp(&mut fs, "nodir/*.txt", "out");

    assert_eq!(r, Err(WildcardingError::ReadError("nodir".to_string())));
}

#[test]
fn source_that_is_both_file_and_dir_is_unknown_format() {
    let mut fs = FakeFs::new();
    fs.write("odd", "content");
    fs.mkdir("odd");
    fs.mkdir("out");

    let r = cp(&mut fs, "odd", "out");

    assert_eq!(r, Err(WildcardingError::UnknownFormat("odd".to_string())));
}

#[test]
fn file_without_base_name_into_dir_fails_filename() {
    let mut fs = FakeFs::new();
    // A source registered under a name whose final segment is empty.
    fs.write("odd/", "content");
    fs.mkdir("out");

    let r = cp(&mut fs, "odd/", "out");

    assert_eq!(r, Err(WildcardingError::FilenameFail("odd/".to_string())));
}
