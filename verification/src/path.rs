//! Paths of the surrounding system, modelled as text.
//!
//! A path is its text; `Path` carries the installation's root directory
//! and joins file and folder names onto it.  The walk that discovers the
//! root on disk is split into a verified decision step driven by the
//! application.

use vstd::prelude::*;
use vstd::string::*;

verus! {

/// A file-system path, carried as its textual form.
pub struct SysPath {
    text: String,
}

impl View for SysPath {
    type V = Seq<char>;

    closed spec fn view(&self) -> Seq<char> {
        self.text@
    }
}

impl Clone for SysPath {
    fn clone(&self) -> (r: Self)
        ensures
            r@ == self@,
    {
        SysPath { text: self.text.clone() }
    }
}

impl SysPath {
    /// The path's text.
    pub fn as_str(&self) -> (r: &str)
        ensures
            r@ == self@,
    {
        self.text.as_str()
    }

    /// Appends one component, separated by `'/'`.
    pub fn push(&mut self, name: &str)
        ensures
            final(self)@ == old(self)@ + seq!['/'] + name@,
    {
        self.text.append("/");
        self.text.append(name);
        proof {
            reveal_strlit("/");
            assert(self@ =~= old(self)@ + seq!['/'] + name@);
        }
    }
}

/// `base` with every part of `parts` appended, each behind a `'/'`.
pub open spec fn join_parts(base: Seq<char>, parts: Seq<Seq<char>>) -> Seq<char>
    decreases parts.len(),
{
    if parts.len() == 0 {
        base
    } else {
        join_parts(base, parts.drop_last()) + seq!['/'] + parts.last()
    }
}

/// The root directory of the installation, and joining onto it.
pub struct Path {
    root: SysPath,
}

impl View for Path {
    type V = Seq<char>;

    /// A `Path` is abstractly the text of its root.
    closed spec fn view(&self) -> Seq<char> {
        self.root@
    }
}

/// One directory entry seen while searching for the installation root:
/// its bare name, whether it is a directory, and its full path.
pub struct DirEntryInfo {
    pub name: String,
    pub is_dir: bool,
    pub path: SysPath,
}

/// What to do next while walking up the file system looking for the root.
pub enum RootSearchStep {
    /// The root directory was found at this path.
    Found(SysPath),
    /// Not here: move to the parent directory and look again.
    Ascend,
    /// Too many attempts: stop searching.
    GiveUp,
}

/// Whether a directory entry is the installation root: a directory named
/// `lia-src`.
pub open spec fn is_root_entry(e: DirEntryInfo) -> bool {
    e.is_dir && e.name@ == "lia-src"@
}

impl Path {
    /// A path from its text.
    pub fn new(path: &str) -> (r: SysPath)
        ensures
            r@ == path@,
    {
        SysPath { text: String::from_str(path) }
    }

    /// A `Path` rooted at the given directory.
    pub fn from_root(root: SysPath) -> (r: Path)
        ensures
            r@ == root@,
    {
        Path { root }
    }

    /// The root this `Path` joins onto.
    pub fn root(&self) -> (r: &SysPath)
        ensures
            r@ == self@,
    {
        &self.root
    }

    /// Joins the given names onto the root, in order.
    pub fn join_root(&self, file_folder_names: Vec<&str>) -> (r: SysPath)
        ensures
            r@ == join_parts(self@, file_folder_names@.map_values(|s: &str| s@)),
    {
        let ghost all_parts: Seq<Seq<char>> = file_folder_names@.map_values(|s: &str| s@);
        let mut joined: SysPath = self.root.clone();
        let mut i: usize = 0;
        while i < file_folder_names.len()
            invariant
                i <= file_folder_names.len(),
                all_parts == file_folder_names@.map_values(|s: &str| s@),
                joined@ == join_parts(self.root@, all_parts.take(i as int)),
            decreases file_folder_names.len() - i,
        {
            joined.push(file_folder_names[i]);
            proof {
                assert(all_parts.take(i + 1).drop_last() =~= all_parts.take(i as int));
                assert(joined@ == join_parts(self.root@, all_parts.take(i + 1)));
            }
            i += 1;
        }
        proof {
            assert(all_parts.take(file_folder_names@.len() as int) =~= all_parts);
        }
        joined
    }

    /// One component joined onto a path.
    pub fn join(path: &SysPath, file_folder_name: String) -> (r: SysPath)
        ensures
            r@ == path@ + seq!['/'] + file_folder_name@,
    {
        let mut joined: SysPath = path.clone();
        joined.push(file_folder_name.as_str());
        joined
    }

    /// The directory holding the database migrations, under the root.
    pub fn get_migrations_path(&self) -> (r: SysPath)
        ensures
            r@ == join_parts(self@, seq!["back-end"@, "migrations"@]),
    {
        let names: Vec<&str> = vec!["back-end", "migrations"];
        proof {
            assert(names@.map_values(|s: &str| s@) =~= seq!["back-end"@, "migrations"@]);
        }
        self.join_root(names)
    }

    /// One step of the walk that locates the installation root: scan the
    /// entries of the current parent directory for a directory named
    /// `lia-src`; if none is there, ascend, unless ten parents have
    /// already been tried.
    pub fn find_root_step(entries: &Vec<DirEntryInfo>, tries: u8) -> (r: RootSearchStep)
        ensures
            (exists|i: int| 0 <= i < entries@.len() && is_root_entry(entries@[i])) ==> (r matches
                RootSearchStep::Found(p) && exists|i: int|
                0 <= i < entries@.len() && is_root_entry(entries@[i]) && p@ == entries@[i].path@
                    && (forall|j: int| 0 <= j < i ==> !is_root_entry(entries@[j]))),
            (forall|i: int| 0 <= i < entries@.len() ==> !is_root_entry(entries@[i])) ==> r == (
            if tries >= 10 {
                RootSearchStep::GiveUp
            } else {
                RootSearchStep::Ascend
            }),
    {
        let root_name: String = String::from_str("lia-src");
        let mut i: usize = 0;
        while i < entries.len()
            invariant
                i <= entries@.len(),
                root_name@ == "lia-src"@,
                forall|j: int| 0 <= j < i ==> !is_root_entry(entries@[j]),
            decreases entries@.len() - i,
        {
            let e = &entries[i];
            if e.is_dir && e.name == root_name {
                return RootSearchStep::Found(e.path.clone());
            }
            i += 1;
        }
        if tries >= 10 {
            RootSearchStep::GiveUp
        } else {
            RootSearchStep::Ascend
        }
    }
}

} // verus!
