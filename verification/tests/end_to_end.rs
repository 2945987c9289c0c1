use dotter_actions::config::{
    CopyTarget, SymbolicTarget, TemplateTarget, UnixUser, Variables,
};
use dotter_actions::difference::{Diff, DiffLine};
use dotter_actions::filesystem::{
    FileHash, Filesystem, SymlinkComparison, TemplateComparison, TemplateDiff,
};
use dotter_actions::runner::{ActionRunner, RealActionRunner};
use handlebars::{to_json, Handlebars};
use std::collections::BTreeMap;
use std::path::{Path, PathBuf};

#[derive(Clone, PartialEq, Debug)]
enum Node {
    File(String),
    Link(PathBuf),
}

/// Files and links kept in memory.
struct Memory {
    nodes: BTreeMap<PathBuf, Node>,
}

impl Memory {
    fn new(source: &str) -> Memory {
        let mut nodes = BTreeMap::new();
        nodes.insert(PathBuf::from("src/file"), Node::File(String::from(source)));
        Memory { nodes }
    }

    fn text(&self, path: &str) -> Option<&str> {
        match self.nodes.get(Path::new(path)) {
            Some(Node::File(text)) => Some(text),
            _ => None,
        }
    }

    fn put(&mut self, path: &str, text: &str) {
        self.nodes.insert(PathBuf::from(path), Node::File(String::from(text)));
    }
}

impl Filesystem for Memory {
    type Error = String;

    fn compare_symlink(&mut self, source: &Path, link: &Path) -> Result<SymlinkComparison, String> {
        let source_exists = self.nodes.contains_key(source);
        Ok(match self.nodes.get(link) {
            Some(Node::Link(to)) if source_exists => {
                if to == source {
                    SymlinkComparison::Identical
                } else {
                    SymlinkComparison::Changed
                }
            }
            Some(Node::File(_)) if source_exists => SymlinkComparison::TargetNotSymlink,
            Some(_) => SymlinkComparison::OnlyTargetExists,
            None if source_exists => SymlinkComparison::OnlySourceExists,
            None => SymlinkComparison::BothMissing,
        })
    }

    fn compare_template(
        &mut self,
        target: &Path,
        cache: &Path,
    ) -> Result<TemplateComparison, String> {
        Ok(match (self.nodes.get(target), self.nodes.get(cache)) {
            (None, None) => TemplateComparison::BothMissing,
            (None, Some(_)) => TemplateComparison::OnlyCacheExists,
            (Some(_), None) => TemplateComparison::OnlyTargetExists,
            (Some(Node::Link(_)), Some(_)) => TemplateComparison::TargetNotRegularFile,
            (Some(one), Some(other)) if one == other => TemplateComparison::Identical,
            (Some(_), Some(_)) => TemplateComparison::Changed,
        })
    }

    fn checksum_file(&mut self, path: &Path) -> Result<FileHash, String> {
        Ok(match self.nodes.get(path) {
            Some(Node::File(text)) => {
                FileHash::Hash(text.bytes().fold(7, |sum: u64, byte| {
                    sum.wrapping_mul(31).wrapping_add(u64::from(byte))
                }))
            }
            Some(Node::Link(_)) => FileHash::NotRegularFile,
            None => FileHash::NotPresent,
        })
    }

    fn read_to_string(&mut self, path: &Path) -> Result<String, String> {
        match self.nodes.get(path) {
            Some(Node::File(text)) => Ok(text.clone()),
            _ => Err(String::from("cannot be read")),
        }
    }

    fn remove_file(&mut self, path: &Path) -> Result<(), String> {
        match self.nodes.remove(path) {
            Some(_) => Ok(()),
            None => Err(String::from("cannot be removed")),
        }
    }

    fn delete_parents(&mut self, _path: &Path, _no_ask: bool) -> Result<(), String> {
        Ok(())
    }

    fn create_dir_all(&mut self, _path: &Path, _owner: &Option<UnixUser>) -> Result<(), String> {
        Ok(())
    }

    fn make_symlink(
        &mut self,
        link: &Path,
        source: &Path,
        _owner: &Option<UnixUser>,
    ) -> Result<(), String> {
        if self.nodes.contains_key(link) {
            return Err(String::from("in the way"));
        }
        self.nodes.insert(link.to_path_buf(), Node::Link(source.to_path_buf()));
        Ok(())
    }

    fn copy_file(
        &mut self,
        source: &Path,
        target: &Path,
        _owner: &Option<UnixUser>,
    ) -> Result<(), String> {
        let text = self.read_to_string(source)?;
        self.nodes.insert(target.to_path_buf(), Node::File(text));
        Ok(())
    }

    fn copy_permissions(
        &mut self,
        _source: &Path,
        target: &Path,
        _owner: &Option<UnixUser>,
    ) -> Result<(), String> {
        self.read_to_string(target).map(|_| ())
    }

    fn set_owner(&mut self, path: &Path, _owner: &Option<UnixUser>) -> Result<(), String> {
        self.read_to_string(path).map(|_| ())
    }

    fn write(&mut self, path: &Path, content: String) -> Result<(), String> {
        self.nodes.insert(path.to_path_buf(), Node::File(content));
        Ok(())
    }
}

impl TemplateDiff for Memory {
    fn print_template_diff(
        &mut self,
        _source: &Path,
        _target: &TemplateTarget,
        _handlebars: &Handlebars<'_>,
        _variables: &Variables,
        _context_lines: usize,
    ) {
    }

    fn generate_template_diff(
        &mut self,
        source: &Path,
        target: &TemplateTarget,
        handlebars: &Handlebars<'_>,
        variables: &Variables,
        _source_to_target: bool,
    ) -> Result<Diff, String> {
        let text = target.apply_actions(self.read_to_string(source)?);
        let rendered = match handlebars.render_template(&text, variables) {
            Ok(rendered) => rendered,
            Err(error) => return Err(error.to_string()),
        };
        let present = self.read_to_string(&target.target)?;
        Ok(if present == rendered {
            vec![DiffLine::Both(present)]
        } else {
            vec![DiffLine::Left(rendered), DiffLine::Right(present)]
        })
    }

    fn info_enabled(&mut self) -> bool {
        false
    }

    fn print_diff(&mut self, _diff: &Diff, _context_lines: usize) {}
}

fn variables() -> Variables {
    let mut map: BTreeMap<String, String> = BTreeMap::new();
    map.insert(String::from("editor"), String::from("vi"));
    to_json(&map)
}

fn template_target() -> TemplateTarget {
    TemplateTarget {
        target: PathBuf::from("home/file"),
        owner: None,
        prepend: None,
        append: Some(String::from("!")),
    }
}

const SOURCE: &str = "src/file";
const CACHE: &str = "cache/file";

#[test]
fn template_lives_and_dies() {
    let handlebars = Handlebars::new();
    let variables = variables();
    let target = template_target();
    let mut fs = Memory::new("use {{editor}}");
    {
        let mut runner = RealActionRunner::new(&mut fs, &handlebars, &variables, false, 3);
        let created = runner.create_template(Path::new(SOURCE), Path::new(CACHE), &target);
        assert_eq!(created.unwrap(), true);
    }
    assert_eq!(fs.text("home/file"), Some("use vi!"));
    assert_eq!(fs.text(CACHE), Some("use vi!"));

    fs.put(SOURCE, "only {{editor}}");
    {
        let mut runner = RealActionRunner::new(&mut fs, &handlebars, &variables, false, 3);
        let updated = runner.update_template(Path::new(SOURCE), Path::new(CACHE), &target);
        assert_eq!(updated.unwrap(), true);
    }
    assert_eq!(fs.text("home/file"), Some("only vi!"));

    fs.put("home/file", "mine");
    {
        let mut runner = RealActionRunner::new(&mut fs, &handlebars, &variables, false, 3);
        let updated = runner.update_template(Path::new(SOURCE), Path::new(CACHE), &target);
        assert_eq!(updated.unwrap(), false);
        let deleted =
            runner.delete_template(Path::new(SOURCE), Path::new(CACHE), &target.target);
        assert_eq!(deleted.unwrap(), false);
    }
    assert_eq!(fs.text("home/file"), Some("mine"));
    assert_eq!(fs.text(CACHE), Some("only vi!"));

    {
        let mut runner = RealActionRunner::new(&mut fs, &handlebars, &variables, true, 3);
        let deleted =
            runner.delete_template(Path::new(SOURCE), Path::new(CACHE), &target.target);
        assert_eq!(deleted.unwrap(), true);
    }
    assert_eq!(fs.text("home/file"), None);
    assert_eq!(fs.text(CACHE), None);
    assert_eq!(fs.text(SOURCE), Some("only {{editor}}"));
}

#[test]
fn changed_target_that_equals_the_rendering_is_taken_over() {
    let handlebars = Handlebars::new();
    let variables = variables();
    let mut fs = Memory::new("use {{editor}}");
    fs.put(CACHE, "old");
    fs.put("home/file", "use vi!");
    let mut runner = RealActionRunner::new(&mut fs, &handlebars, &variables, false, 3);
    let updated = runner.update_template(Path::new(SOURCE), Path::new(CACHE), &template_target());
    assert_eq!(updated.unwrap(), true);
    assert_eq!(fs.text(CACHE), Some("use vi!"));
}

#[test]
fn copy_lives_and_dies() {
    let handlebars = Handlebars::new();
    let variables = variables();
    let target = CopyTarget { target: PathBuf::from("home/file"), owner: None };
    let mut fs = Memory::new("one");
    let entry = {
        let mut runner = RealActionRunner::new(&mut fs, &handlebars, &variables, false, 3);
        runner.create_copy(Path::new(SOURCE), &target).unwrap().unwrap()
    };
    assert_eq!(fs.text("home/file"), Some("one"));

    fs.put(SOURCE, "two");
    let entry = {
        let mut runner = RealActionRunner::new(&mut fs, &handlebars, &variables, false, 3);
        runner.update_copy(Path::new(SOURCE), &target, &entry).unwrap().unwrap()
    };
    assert_eq!(fs.text("home/file"), Some("two"));

    fs.put("home/file", "mine");
    {
        let mut runner = RealActionRunner::new(&mut fs, &handlebars, &variables, false, 3);
        let updated = runner.update_copy(Path::new(SOURCE), &target, &entry);
        assert!(updated.unwrap().is_none());
        assert_eq!(runner.delete_copy(Path::new(SOURCE), &entry).unwrap(), false);
    }
    assert_eq!(fs.text("home/file"), Some("mine"));

    fs.put("home/file", "two");
    let mut runner = RealActionRunner::new(&mut fs, &handlebars, &variables, false, 3);
    assert_eq!(runner.delete_copy(Path::new(SOURCE), &entry).unwrap(), true);
    assert_eq!(fs.text("home/file"), None);
    assert_eq!(fs.text(SOURCE), Some("two"));
}

#[test]
fn symlink_lives_and_dies() {
    let handlebars = Handlebars::new();
    let variables = variables();
    let target = SymbolicTarget { target: PathBuf::from("home/file"), owner: None };
    let mut fs = Memory::new("text");
    {
        let mut runner = RealActionRunner::new(&mut fs, &handlebars, &variables, false, 3);
        assert_eq!(runner.create_symlink(Path::new(SOURCE), &target).unwrap(), true);
        assert_eq!(runner.update_symlink(Path::new(SOURCE), &target).unwrap(), true);
    }
    assert_eq!(
        fs.nodes.get(Path::new("home/file")),
        Some(&Node::Link(PathBuf::from(SOURCE)))
    );

    fs.put("home/file", "mine");
    {
        let mut runner = RealActionRunner::new(&mut fs, &handlebars, &variables, false, 3);
        assert_eq!(runner.update_symlink(Path::new(SOURCE), &target).unwrap(), false);
    }
    assert_eq!(fs.text("home/file"), Some("mine"));
    {
        let mut runner = RealActionRunner::new(&mut fs, &handlebars, &variables, true, 3);
        assert_eq!(runner.update_symlink(Path::new(SOURCE), &target).unwrap(), true);
        assert_eq!(runner.delete_symlink(Path::new(SOURCE), &target.target).unwrap(), true);
    }
    assert!(fs.nodes.get(Path::new("home/file")).is_none());
}
