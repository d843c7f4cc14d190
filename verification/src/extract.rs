//! Planning the extraction of a container's members.
//!
//! Every member is materialized below the directory `extracted` of the
//! output root, at the place that its sanitized name gives. A member whose
//! stored name ends in a separator becomes a directory; any other becomes a
//! file that holds the member's bytes.

use crate::archive::spec_entries;
use crate::archive::spec_is_directory;
use crate::archive::ArchiveEntry;
use crate::archive::EntryModel;
use crate::error::spec_failure;
use crate::error::ErrorModel;
use crate::error::PipelineError;
use crate::operation::Operation;
use crate::operation::OperationModel;
use crate::paths::ends_with;
use crate::paths::join;
use crate::paths::parent;
use crate::paths::spec_has_parent_segment;
use crate::paths::spec_is_inside;
use crate::paths::spec_join;
use crate::paths::spec_parent;
use vstd::prelude::*;
use vstd::string::*;

verus! {

/// What materializing one member amounts to.
#[derive(Clone, Debug, PartialEq, Eq)]
pub enum Materialize {
    /// Create the destination and every directory above it that is missing.
    Directory,
    /// Create the directories above the destination that are missing, then
    /// create the destination, or empty it, and write `data` to it.
    File { parent: Option<String>, data: Vec<u8> },
}

/// [`Materialize`] as plain values.
pub enum MaterializeModel {
    Directory,
    File { parent: Option<Seq<char>>, data: Seq<u8> },
}

impl View for Materialize {
    type V = MaterializeModel;

    open spec fn view(&self) -> MaterializeModel {
        match self {
            Materialize::Directory => MaterializeModel::Directory,
            Materialize::File { parent, data } => MaterializeModel::File {
                parent: match parent {
                    Some(directory) => Some(directory@),
                    None => None,
                },
                data: data@,
            },
        }
    }
}

/// The plan for one member.
#[derive(Clone, Debug, PartialEq, Eq)]
pub struct ExtractStep {
    /// The member's index in the container.
    pub index: usize,
    /// Where the member goes.
    pub destination: String,
    /// The member's comment, where it has one that is not empty.
    pub comment: Option<String>,
    /// The uncompressed size that the container declares for the member.
    pub size: u64,
    /// What to do at the destination.
    pub action: Materialize,
}

/// A step as plain values.
pub struct StepModel {
    pub index: nat,
    pub destination: Seq<char>,
    pub comment: Option<Seq<char>>,
    pub size: u64,
    pub action: MaterializeModel,
}

impl View for ExtractStep {
    type V = StepModel;

    open spec fn view(&self) -> StepModel {
        StepModel {
            index: self.index as nat,
            destination: self.destination@,
            comment: match self.comment {
                Some(text) => Some(text@),
                None => None,
            },
            size: self.size,
            action: self.action@,
        }
    }
}

/// The views of the given steps.
pub open spec fn spec_steps(steps: Seq<ExtractStep>) -> Seq<StepModel> {
    Seq::new(steps.len(), |i: int| steps[i]@)
}

/// The plan for a whole container: the steps for the members that could be
/// read, the failure that ended the reading, and what to clean up once every
/// step has been carried out.
#[derive(Debug, PartialEq, Eq)]
pub struct Extraction {
    pub steps: Vec<ExtractStep>,
    pub failure: Option<PipelineError>,
    pub cleanup: Option<Operation>,
}

/// An extraction as plain values.
pub struct ExtractionModel {
    pub steps: Seq<StepModel>,
    pub failure: Option<ErrorModel>,
    pub cleanup: Option<OperationModel>,
}

impl View for Extraction {
    type V = ExtractionModel;

    open spec fn view(&self) -> ExtractionModel {
        ExtractionModel {
            steps: spec_steps(self.steps@),
            failure: spec_failure(self.failure),
            cleanup: match self.cleanup {
                Some(operation) => Some(operation@),
                None => None,
            },
        }
    }
}

/// The directory below `output` that receives the members.
pub open spec fn spec_extract_root(output: Seq<char>) -> Seq<char> {
    spec_join(output, "extracted"@)
}

/// Where the member with the sanitized name `sanitized` goes.
pub open spec fn spec_destination(output: Seq<char>, sanitized: Seq<char>) -> Seq<char> {
    spec_join(output, "extracted/"@ + sanitized)
}

/// The plan for the member `entry` at `index`.
pub open spec fn spec_plan_entry(output: Seq<char>, index: nat, entry: EntryModel) -> StepModel {
    let destination = spec_destination(output, entry.sanitized);
    StepModel {
        index,
        destination,
        comment: if entry.comment.len() == 0 {
            None
        } else {
            Some(entry.comment)
        },
        size: entry.size,
        action: if spec_is_directory(entry.name) {
            MaterializeModel::Directory
        } else {
            MaterializeModel::File { parent: spec_parent(destination), data: entry.data }
        },
    }
}

/// The plan for `entries`: one step for each, in their order.
pub open spec fn spec_plan_extraction(output: Seq<char>, entries: Seq<EntryModel>) -> Seq<
    StepModel,
> {
    Seq::new(entries.len(), |i: int| spec_plan_entry(output, i as nat, entries[i]))
}

/// A destination is the extraction root, one separator and the sanitized
/// name.
pub proof fn lemma_destination(output: Seq<char>, sanitized: Seq<char>)
    ensures
        spec_destination(output, sanitized) == spec_extract_root(output) + seq!['/'] + sanitized,
{
    reveal_strlit("extracted");
    reveal_strlit("extracted/");
    let relative = "extracted/"@ + sanitized;
    assert("extracted/"@ =~= "extracted"@ + seq!['/']);
    assert(relative[0] == 'e');
    assert("extracted"@[0] == 'e');
    if output.len() == 0 || output.last() == '/' {
        assert(output + relative =~= output + "extracted"@ + seq!['/'] + sanitized);
    } else {
        assert(output + seq!['/'] + relative =~= output + seq!['/'] + "extracted"@ + seq!['/']
            + sanitized);
    }
}

/// A name without `..` components leads to a destination inside the
/// extraction root, whatever the output root is.
pub proof fn lemma_destination_inside(output: Seq<char>, sanitized: Seq<char>)
    requires
        !spec_has_parent_segment(sanitized),
    ensures
        spec_is_inside(spec_extract_root(output), spec_destination(output, sanitized)),
{
    lemma_destination(output, sanitized);
    let root = spec_extract_root(output);
    let destination = spec_destination(output, sanitized);
    assert(destination.subrange(0, root.len() as int) =~= root);
    assert(destination.subrange(root.len() as int + 1, destination.len() as int) =~= sanitized);
}

/// The plan for one member.
pub fn plan_entry(output: &str, index: usize, entry: ArchiveEntry) -> (r: ExtractStep)
    ensures
        r@ == spec_plan_entry(output@, index as nat, entry@),
        entry@.wf() ==> spec_is_inside(spec_extract_root(output@), r.destination@),
{
    let ArchiveEntry { name, sanitized, comment, size, data } = entry;
    let mut relative = String::from_str("extracted/");
    relative.append(sanitized.as_str());
    let destination = join(output, relative.as_str());
    proof {
        reveal_strlit("/");
        assert("/"@ =~= seq!['/']);
        if !spec_has_parent_segment(sanitized@) {
            lemma_destination_inside(output@, sanitized@);
        }
    }
    let action = if ends_with(name.as_str(), "/") {
        Materialize::Directory
    } else {
        Materialize::File { parent: parent(destination.as_str()), data }
    };
    let comment = if comment.as_str().unicode_len() == 0 {
        None
    } else {
        Some(comment)
    };
    ExtractStep { index, destination, comment, size, action }
}

/// The plan for `entries`: one step for each, in their order.
pub fn plan_extraction(output: &str, entries: Vec<ArchiveEntry>) -> (r: Vec<ExtractStep>)
    ensures
        spec_steps(r@) == spec_plan_extraction(output@, spec_entries(entries@)),
        forall|i: int|
            0 <= i < r.len() && entries[i]@.wf() ==> spec_is_inside(
                spec_extract_root(output@),
                #[trigger] r[i].destination@,
            ),
{
    let ghost all = entries@;
    let mut steps: Vec<ExtractStep> = Vec::new();
    for entry in it: entries
        invariant
            it.seq() == all,
            steps.len() == it.index(),
            forall|i: int|
                0 <= i < steps.len() ==> (#[trigger] steps[i])@ == spec_plan_entry(
                    output@,
                    i as nat,
                    all[i]@,
                ),
            forall|i: int|
                0 <= i < steps.len() && all[i]@.wf() ==> spec_is_inside(
                    spec_extract_root(output@),
                    #[trigger] steps[i].destination@,
                ),
    {
        let index: usize = steps.len();
        let step = plan_entry(output, index, entry);
        steps.push(step);
    }
    assert(spec_steps(steps@) =~= spec_plan_extraction(output@, spec_entries(all)));
    steps
}

/// In a plan every member has its step, in the container's order; a
/// directory member writes no file, and a file member writes its bytes
/// once, as they were read. The step carries the size that the container
/// declares; the bytes are as many wherever the declared size is the true
/// one.
pub proof fn lemma_plan_covers_members(output: Seq<char>, entries: Seq<EntryModel>)
    ensures
        spec_plan_extraction(output, entries).len() == entries.len(),
        forall|i: int|
            0 <= i < entries.len() ==> {
                let step = #[trigger] spec_plan_extraction(output, entries)[i];
                &&& step.index == i
                &&& step.size == entries[i].size
                &&& spec_is_directory(entries[i].name) <==> step.action is Directory
                &&& !spec_is_directory(entries[i].name) ==> step.action->data == entries[i].data
            },
{
}

/// Where the stored name of a member holds a `..` component, its
/// destination still lies inside the extraction root.
pub proof fn lemma_traversal_is_confined(output: Seq<char>, index: nat, entry: EntryModel)
    requires
        entry.wf(),
        spec_has_parent_segment(entry.name),
    ensures
        spec_is_inside(
            spec_extract_root(output),
            spec_plan_entry(output, index, entry).destination,
        ),
{
    lemma_destination_inside(output, entry.sanitized);
}

} // verus!
