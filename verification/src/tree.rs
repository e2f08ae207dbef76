//! The directory tree that the filter works on, and its mathematical model.

use vstd::prelude::*;

verus! {

/// A file of the tree. A file is known by its path alone.
#[derive(Debug, PartialEq, Eq)]
pub struct File {
    path: String,
}

impl View for File {
    type V = Seq<char>;

    /// The path of the file.
    closed spec fn view(&self) -> Seq<char> {
        self.path@
    }
}

/// The paths of a list of files, in the order of the list.
pub open spec fn paths_of(files: Seq<File>) -> Seq<Seq<char>> {
    files.map_values(|f: File| f@)
}

/// The model of a directory: its own path, the paths of its direct files and
/// the models of its direct sub-directories, each in order.
pub struct Tree {
    pub path: Seq<char>,
    pub files: Seq<Seq<char>>,
    pub children: Seq<Tree>,
}

/// Every file below `tree`: its direct files first, then those of each child in turn.
pub open spec fn all_files(tree: Tree) -> Seq<Seq<char>>
    decreases tree, 0nat,
{
    tree.files + forest_files(tree.children, tree.children.len())
}

/// Every file below the first `n` trees of `forest`.
pub open spec fn forest_files(forest: Seq<Tree>, n: nat) -> Seq<Seq<char>>
    decreases forest, n,
{
    if n == 0 || n > forest.len() {
        Seq::empty()
    } else {
        forest_files(forest, (n - 1) as nat) + all_files(forest[n - 1])
    }
}

/// A directory: a path, the files directly in it and its sub-directories.
#[derive(Debug, PartialEq, Eq)]
pub struct Directory {
    path: String,
    files: Vec<File>,
    sub_directories: Vec<Directory>,
}

/// The models of a list of directories, in the order of the list.
pub open spec fn trees_of(directories: Seq<Directory>) -> Seq<Tree> {
    directories.map_values(|d: Directory| d@)
}

/// The models of the first `n` of a list of directories.
pub closed spec fn children_of(directories: Seq<Directory>, n: nat) -> Seq<Tree>
    decreases directories, n,
{
    if n == 0 || n > directories.len() {
        Seq::empty()
    } else {
        children_of(directories, (n - 1) as nat).push(directories[n - 1]@)
    }
}

impl View for Directory {
    type V = Tree;

    closed spec fn view(&self) -> Tree
        decreases self, 0nat,
    {
        Tree {
            path: self.path@,
            files: paths_of(self.files@),
            children: children_of(self.sub_directories@, self.sub_directories@.len()),
        }
    }
}

/// The models of the first `n` directories, one by one, are the first `n`
/// of the models of all.
proof fn lemma_children_of(directories: Seq<Directory>, n: nat)
    requires
        n <= directories.len(),
    ensures
        children_of(directories, n) == trees_of(directories).take(n as int),
    decreases n,
{
    if n > 0 {
        lemma_children_of(directories, (n - 1) as nat);
        let models = trees_of(directories);
        assert(models.take(n as int) =~= models.take(n - 1).push(directories[n - 1]@));
    }
}

impl Directory {
    /// The model of a directory holds the models of its sub-directories.
    proof fn lemma_children(&self)
        ensures
            self@.children == trees_of(self.sub_directories@),
    {
        let subs = self.sub_directories@;
        lemma_children_of(subs, subs.len());
    }
}

impl File {
    /// A file with the given path.
    pub fn new(path: String) -> (file: File)
        ensures
            file@ == path@,
    {
        File { path }
    }

    /// The path of the file.
    pub fn path(&self) -> (path: &str)
        ensures
            path@ == self@,
    {
        self.path.as_str()
    }

    /// The path of the file, as a string of its own.
    pub fn as_string(&self) -> (path: String)
        ensures
            path@ == self@,
    {
        self.path.clone()
    }
}

impl Clone for File {
    fn clone(&self) -> (copy: File)
        ensures
            copy@ == self@,
    {
        File { path: self.path.clone() }
    }
}

/// Appending a file to a list appends its path to the paths of the list.
pub proof fn lemma_paths_of_push(files: Seq<File>, file: File)
    ensures
        paths_of(files.push(file)) == paths_of(files).push(file@),
{
}

impl Directory {
    /// A directory with the given path, direct files and sub-directories.
    pub fn new(path: String, files: Vec<File>, sub_directories: Vec<Directory>) -> (directory:
        Directory)
        ensures
            directory@.path == path@,
            directory@.files == paths_of(files@),
            directory@.children == trees_of(sub_directories@),
    {
        let directory = Directory { path, files, sub_directories };
        proof {
            directory.lemma_children();
        }
        directory
    }

    /// The path of the directory itself.
    pub fn path(&self) -> (path: &str)
        ensures
            path@ == self@.path,
    {
        self.path.as_str()
    }

    /// The path of the directory itself, as a string of its own.
    pub fn path_string(&self) -> (path: String)
        ensures
            path@ == self@.path,
    {
        self.path.clone()
    }

    /// The files directly in this directory, in order.
    pub fn each_file(&self) -> (files: &Vec<File>)
        ensures
            paths_of(files@) == self@.files,
    {
        &self.files
    }

    /// The direct sub-directories, in order. They are parts of this
    /// directory, so a function may recurse into them.
    pub fn each_sub_directory(&self) -> (sub_directories: &Vec<Directory>)
        ensures
            trees_of(sub_directories@) == self@.children,
            decreases_to!(self => sub_directories),
    {
        proof {
            self.lemma_children();
        }
        &self.sub_directories
    }

    /// Appends every file below this directory to `out`: the direct files
    /// first, then the files of each sub-directory in turn.
    pub fn collect_files(&self, out: &mut Vec<File>)
        ensures
            paths_of(final(out)@) == paths_of(old(out)@) + all_files(self@),
        decreases self,
    {
        let ghost before = paths_of(out@);
        let mut i: usize = 0;
        while i < self.files.len()
            invariant
                i <= self.files.len(),
                paths_of(out@) == before + paths_of(self.files@).subrange(0, i as int),
            decreases self.files.len() - i,
        {
            proof {
                lemma_paths_of_push(out@, self.files[i as int]);
                assert(paths_of(self.files@).subrange(0, i + 1) =~= paths_of(
                    self.files@,
                ).subrange(0, i as int).push(self.files[i as int]@));
            }
            out.push(self.files[i].clone());
            i += 1;
        }
        proof {
            self.lemma_children();
        }
        let mut j: usize = 0;
        while j < self.sub_directories.len()
            invariant
                j <= self.sub_directories.len(),
                self@.children == trees_of(self.sub_directories@),
                paths_of(out@) == before + self@.files + forest_files(self@.children, j as nat),
            decreases self.sub_directories.len() - j,
        {
            self.sub_directories[j].collect_files(out);
            j += 1;
        }
    }

    /// Every file below this directory.
    pub fn files(&self) -> (files: Vec<File>)
        ensures
            paths_of(files@) == all_files(self@),
    {
        let mut files: Vec<File> = Vec::new();
        self.collect_files(&mut files);
        files
    }

    /// The number of files below this directory.
    pub fn len(&self) -> (count: usize)
        ensures
            count == all_files(self@).len(),
    {
        let files = self.files();
        files.len()
    }
}

/// A copy of a list of files, with the same paths in the same order.
pub fn copy_files(files: &Vec<File>) -> (copy: Vec<File>)
    ensures
        paths_of(copy@) == paths_of(files@),
{
    let mut copy: Vec<File> = Vec::new();
    let mut i: usize = 0;
    while i < files.len()
        invariant
            i <= files.len(),
            paths_of(copy@) == paths_of(files@).take(i as int),
        decreases files.len() - i,
    {
        proof {
            assert(paths_of(files@).take(i + 1) =~= paths_of(files@).take(i as int).push(
                files[i as int]@,
            ));
        }
        copy.push(files[i].clone());
        i += 1;
    }
    copy
}

/// Whether two lists hold the same paths in the same order.
pub fn same_files(left: &Vec<File>, right: &Vec<File>) -> (same: bool)
    ensures
        same == (paths_of(left@) == paths_of(right@)),
{
    if left.len() != right.len() {
        return false;
    }
    let mut i: usize = 0;
    while i < left.len()
        invariant
            i <= left.len(),
            left.len() == right.len(),
            forall|k: int| 0 <= k < i ==> paths_of(left@)[k] == paths_of(right@)[k],
        decreases left.len() - i,
    {
        if !left[i].path.eq(&right[i].path) {
            assert(paths_of(left@)[i as int] != paths_of(right@)[i as int]);
            return false;
        }
        i += 1;
    }
    assert(paths_of(left@) =~= paths_of(right@));
    true
}

impl Clone for Directory {
    fn clone(&self) -> (copy: Directory)
        ensures
            copy@ == self@,
        decreases self,
    {
        let files = copy_files(&self.files);
        let mut sub_directories: Vec<Directory> = Vec::new();
        let mut j: usize = 0;
        while j < self.sub_directories.len()
            invariant
                j <= self.sub_directories.len(),
                trees_of(sub_directories@) == trees_of(self.sub_directories@).take(j as int),
            decreases self.sub_directories.len() - j,
        {
            let child = self.sub_directories[j].clone();
            proof {
                let models = trees_of(self.sub_directories@);
                assert(models.take(j + 1) =~= models.take(j as int).push(models[j as int]));
            }
            sub_directories.push(child);
            j += 1;
        }
        assert(trees_of(self.sub_directories@).take(j as int) =~= trees_of(self.sub_directories@));
        let copy = Directory { path: self.path.clone(), files, sub_directories };
        proof {
            copy.lemma_children();
            self.lemma_children();
        }
        copy
    }
}

} // verus!
