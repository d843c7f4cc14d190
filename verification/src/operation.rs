//! The operations that a plan asks its caller to perform.

use vstd::prelude::*;

verus! {

/// One step on the file system or one run of a tool. The library only
/// names them; whoever holds the plan carries them out, in order, and stops
/// at the first that fails.
#[derive(Clone, Debug, PartialEq, Eq)]
pub enum Operation {
    /// Remove the directory at `path` with all that it holds.
    RemoveTree { path: String },
    /// Create the directory `path`; its parent exists.
    CreateDir { path: String },
    /// Copy the file `from` to `to`, replacing what is there.
    CopyFile { from: String, to: String },
    /// Remove the file at `path`.
    RemoveFile { path: String },
    /// Start `program` with `arguments` and wait until it has ended,
    /// whatever its exit status.
    Run { program: String, arguments: Vec<String> },
}

/// An operation as plain values.
pub enum OperationModel {
    RemoveTree { path: Seq<char> },
    CreateDir { path: Seq<char> },
    CopyFile { from: Seq<char>, to: Seq<char> },
    RemoveFile { path: Seq<char> },
    Run { program: Seq<char>, arguments: Seq<Seq<char>> },
}

/// The views of the given texts.
pub open spec fn spec_texts(texts: Seq<String>) -> Seq<Seq<char>> {
    Seq::new(texts.len(), |i: int| texts[i]@)
}

impl View for Operation {
    type V = OperationModel;

    open spec fn view(&self) -> OperationModel {
        match self {
            Operation::RemoveTree { path } => OperationModel::RemoveTree { path: path@ },
            Operation::CreateDir { path } => OperationModel::CreateDir { path: path@ },
            Operation::CopyFile { from, to } => OperationModel::CopyFile { from: from@, to: to@ },
            Operation::RemoveFile { path } => OperationModel::RemoveFile { path: path@ },
            Operation::Run { program, arguments } => OperationModel::Run {
                program: program@,
                arguments: spec_texts(arguments@),
            },
        }
    }
}

/// The views of the given operations.
pub open spec fn spec_operations(operations: Seq<Operation>) -> Seq<OperationModel> {
    Seq::new(operations.len(), |i: int| operations[i]@)
}

/// `path` names something below the directory `root`: it is `root`, one
/// separator and more.
pub open spec fn spec_is_below(root: Seq<char>, path: Seq<char>) -> bool {
    &&& root.len() < path.len()
    &&& path.subrange(0, root.len() as int) == root
    &&& path[root.len() as int] == '/'
}

/// What is left of the paths in `tree` once the directory `path` is removed
/// with all that it holds.
pub open spec fn spec_remove_tree(tree: Set<Seq<char>>, path: Seq<char>) -> Set<Seq<char>> {
    Set::new(|held: Seq<char>| tree.contains(held) && held != path && !spec_is_below(path, held))
}

/// The paths in `tree` together with the new directory `path`.
pub open spec fn spec_create_dir(tree: Set<Seq<char>>, path: Seq<char>) -> Set<Seq<char>> {
    tree.insert(path)
}

} // verus!
