//! The job: one archive to decompile, and the plan of each stage.

use crate::archive::error_of;
use crate::archive::read_archive;
use crate::archive::spec_entries;
use crate::archive::spec_error_of;
use crate::archive::lemma_readable;
use crate::archive::spec_listing;
use crate::archive::spec_members;
use crate::archive::spec_read;
use crate::archive::DirectoryModel;
use crate::archive::zip_directory;
use crate::archive::FaultModel;
use crate::archive::Members;
use crate::error::ErrorKind;
use crate::error::ErrorModel;
use crate::error::PipelineError;
use crate::extract::plan_extraction;
use crate::extract::spec_extract_root;
use crate::extract::spec_plan_entry;
use crate::extract::spec_plan_extraction;
use crate::extract::spec_steps;
use crate::extract::Extraction;
use crate::extract::ExtractionModel;
use crate::operation::spec_create_dir;
use crate::operation::spec_is_below;
use crate::operation::spec_operations;
use crate::operation::spec_remove_tree;
use crate::operation::spec_texts;
use crate::operation::Operation;
use crate::operation::OperationModel;
use crate::paths::ends_with;
use crate::paths::extension;
use crate::paths::join;
use crate::paths::same_text;
use crate::paths::spec_ends_with;
use crate::paths::spec_extension;
use crate::paths::spec_has_parent_segment;
use crate::paths::spec_parent_segment_at;
use crate::paths::spec_is_inside;
use crate::paths::spec_join;
use crate::paths::spec_with_extension;
use crate::paths::with_extension;
use crate::pipeline::spec_advance;
use crate::pipeline::spec_run;
use crate::pipeline::spec_task;
use crate::pipeline::lemma_failure_aborts;
use crate::pipeline::Pipeline;
use crate::pipeline::Stage;
use crate::pipeline::Task;
use vstd::prelude::*;
use vstd::string::*;

verus! {

/// One archive to decompile: where it lies, where the tools lie, where the
/// work is done and whether the resources are left undecoded. The output
/// root is the directory `output` of the working directory.
#[derive(Debug)]
pub struct Decompiler {
    apk_path: String,
    current_dir: String,
    libs_dir: String,
    output_path: String,
    skip_extract_xml: bool,
}

/// A job as plain values.
pub struct JobModel {
    pub apk_path: Seq<char>,
    pub current_dir: Seq<char>,
    pub libs_dir: Seq<char>,
    pub output_path: Seq<char>,
    pub skip_extract_xml: bool,
}

impl JobModel {
    /// The output root is the directory `output` of the working directory.
    pub open spec fn wf(self) -> bool {
        self.output_path == spec_join(self.current_dir, "output"@)
    }

    /// The source path carries the extension of an archive.
    pub open spec fn recognized(self) -> bool {
        spec_extension(self.apk_path) == Some("apk"@)
    }

    /// Where the copy of the archive lies while it is read.
    pub open spec fn zip_path(self) -> Seq<char> {
        spec_with_extension(self.apk_path, "zip"@)
    }

    /// Where the intermediate archive lies.
    pub open spec fn jar_path(self) -> Seq<char> {
        spec_join(self.output_path, "app.jar"@)
    }

    /// What validating the source comes to, given whether it exists.
    pub open spec fn check_path(self, exists: bool) -> Result<(), ErrorModel> {
        if exists && self.recognized() {
            Ok(())
        } else {
            Err(
                ErrorModel {
                    kind: ErrorKind::InvalidInput,
                    cause: "The path to the apk is not correct"@,
                },
            )
        }
    }

    /// The plan that empties the output root, given whether it exists.
    pub open spec fn create_output(self, exists: bool) -> Seq<OperationModel> {
        let create = OperationModel::CreateDir { path: self.output_path };
        if exists {
            seq![OperationModel::RemoveTree { path: self.output_path }, create]
        } else {
            seq![create]
        }
    }

    /// The copy of the archive that the reader works on.
    pub open spec fn stage_archive(self) -> OperationModel {
        OperationModel::CopyFile { from: self.apk_path, to: self.zip_path() }
    }

    /// The plan of the extraction, given what the reader makes of the copy.
    pub open spec fn unzip(self, directory: Result<Members, FaultModel>) -> ExtractionModel {
        let listing = spec_listing(directory);
        ExtractionModel {
            steps: spec_plan_extraction(self.output_path, listing.entries),
            failure: match listing.failure {
                Some(fault) => Some(spec_error_of(fault)),
                None => None,
            },
            cleanup: if listing.failure is None {
                Some(OperationModel::RemoveFile { path: self.zip_path() })
            } else {
                None
            },
        }
    }

    /// The run of the tool that repackages the bytecode.
    pub open spec fn create_jar(self) -> OperationModel {
        OperationModel::Run {
            program: "sh"@,
            arguments: seq![
                spec_join(self.libs_dir, "dex2jar/d2j-dex2jar.sh"@),
                "-f"@,
                self.apk_path,
                "-o"@,
                self.jar_path(),
            ],
        }
    }

    /// The plan that moves the error report `name` from the working
    /// directory to the output root.
    pub open spec fn move_error_zip(self, name: Seq<char>) -> Seq<OperationModel> {
        let from = spec_join(self.current_dir, name);
        seq![
            OperationModel::CopyFile { from, to: spec_join(self.output_path, name) },
            OperationModel::RemoveFile { path: from },
        ]
    }

    /// The plan that decompiles the intermediate archive and removes it.
    pub open spec fn decompile_jar(self) -> Seq<OperationModel> {
        seq![
            OperationModel::Run {
                program: spec_join(self.libs_dir, "jd/jd-cli"@),
                arguments: seq![
                    "-od"@,
                    spec_join(self.output_path, "decompiled"@),
                    self.jar_path(),
                ],
            },
            OperationModel::RemoveFile { path: self.jar_path() },
        ]
    }

    /// The run of the tool that decodes the resources.
    pub open spec fn extract_xml(self) -> OperationModel {
        OperationModel::Run {
            program: spec_join(self.libs_dir, "apktool/apktool"@),
            arguments: seq!["d"@, self.apk_path, "-o"@, spec_join(self.output_path, "xml"@)],
        }
    }
}

/// `name` is the name of an error report of the repackaging tool.
pub open spec fn spec_is_error_artifact(name: Seq<char>) -> bool {
    spec_ends_with(name, "-error.zip"@)
}

/// `name` holds no separator.
pub open spec fn spec_is_plain_name(name: Seq<char>) -> bool {
    forall|i: int| 0 <= i < name.len() ==> name[i] != '/'
}

impl View for Decompiler {
    type V = JobModel;

    closed spec fn view(&self) -> JobModel {
        JobModel {
            apk_path: self.apk_path@,
            current_dir: self.current_dir@,
            libs_dir: self.libs_dir@,
            output_path: self.output_path@,
            skip_extract_xml: self.skip_extract_xml,
        }
    }
}

impl Decompiler {
    #[verifier::type_invariant]
    closed spec fn holds(self) -> bool {
        self@.wf()
    }

    /// The job for the archive at `apk_path`, with the tools below
    /// `libs_dir`, working in `current_dir`.
    pub fn new(apk_path: String, libs_dir: String, skip_extract_xml: bool, current_dir: String) -> (r:
        Decompiler)
        ensures
            r@ == (JobModel {
                apk_path: apk_path@,
                current_dir: current_dir@,
                libs_dir: libs_dir@,
                output_path: spec_join(current_dir@, "output"@),
                skip_extract_xml,
            }),
            r@.wf(),
    {
        let output_path = join(current_dir.as_str(), "output");
        Decompiler { apk_path, current_dir, libs_dir, output_path, skip_extract_xml }
    }

    /// Where the archive lies.
    pub fn apk_path(&self) -> (r: &str)
        ensures
            r@ == self@.apk_path,
    {
        self.apk_path.as_str()
    }

    /// The working directory.
    pub fn current_dir(&self) -> (r: &str)
        ensures
            r@ == self@.current_dir,
    {
        self.current_dir.as_str()
    }

    /// The directory that holds the tools.
    pub fn libs_dir(&self) -> (r: &str)
        ensures
            r@ == self@.libs_dir,
    {
        self.libs_dir.as_str()
    }

    /// The output root.
    pub fn output_path(&self) -> (r: &str)
        ensures
            r@ == self@.output_path,
            self@.wf(),
    {
        proof {
            use_type_invariant(self);
        }
        self.output_path.as_str()
    }

    /// Whether the resources are left undecoded.
    pub fn skip_extract_xml(&self) -> (r: bool)
        ensures
            r == self@.skip_extract_xml,
    {
        self.skip_extract_xml
    }

    /// The run of the pipeline for this job, at its start.
    pub fn start(&self) -> (r: Pipeline)
        ensures
            r.stage == Stage::Start,
            r.decode_resources == !self@.skip_extract_xml,
    {
        Pipeline::new(!self.skip_extract_xml)
    }

    /// Validates the source: it has to exist, which the caller reports, and
    /// to carry the extension `apk`.
    pub fn check_path(&self, exists: bool) -> (r: Result<(), PipelineError>)
        ensures
            r is Ok <==> exists && self@.recognized(),
            match r {
                Ok(_) => self@.check_path(exists) is Ok,
                Err(error) => self@.check_path(exists) == Err::<(), ErrorModel>(error@),
            },
    {
        let recognized = match extension(self.apk_path.as_str()) {
            Some(found) => same_text(found.as_str(), "apk"),
            None => false,
        };
        if exists && recognized {
            Ok(())
        } else {
            Err(PipelineError::new(ErrorKind::InvalidInput, "The path to the apk is not correct"))
        }
    }

    /// Plans a fresh output root: what is there is removed, then the
    /// directory is created.
    pub fn create_output(&self, exists: bool) -> (r: Vec<Operation>)
        ensures
            spec_operations(r@) == self@.create_output(exists),
    {
        let mut plan: Vec<Operation> = Vec::new();
        if exists {
            plan.push(Operation::RemoveTree { path: self.output_path.clone() });
        }
        plan.push(Operation::CreateDir { path: self.output_path.clone() });
        assert(spec_operations(plan@) =~= self@.create_output(exists));
        plan
    }

    /// Where the copy of the archive lies while it is read: beside the
    /// archive, with the extension `zip`.
    pub fn zip_path(&self) -> (r: String)
        ensures
            r@ == self@.zip_path(),
    {
        with_extension(self.apk_path.as_str(), "zip")
    }

    /// Plans the copy of the archive that the reader works on, so that the
    /// archive itself stays as it is for the later stages.
    pub fn stage_archive(&self) -> (r: Operation)
        ensures
            r@ == self@.stage_archive(),
    {
        Operation::CopyFile { from: self.apk_path.clone(), to: self.zip_path() }
    }

    /// Plans the extraction of the archive whose bytes are `archive`: one
    /// step for each member in index order up to the first that cannot be
    /// read, that member's failure, and the removal of the copy where all
    /// could be read.
    pub fn unzip(&self, archive: Vec<u8>) -> (r: Extraction)
        ensures
            r@ == self@.unzip(spec_read(zip_directory(archive@))),
            forall|i: int|
                0 <= i < r.steps.len() ==> spec_is_inside(
                    spec_extract_root(self@.output_path),
                    #[trigger] r.steps[i].destination@,
                ),
    {
        let listing = read_archive(archive);
        let ghost entries = listing.entries@;
        let steps = plan_extraction(self.output_path.as_str(), listing.entries);
        assert(spec_steps(steps@).len() == spec_plan_extraction(
            self@.output_path,
            spec_entries(entries),
        ).len());
        assert forall|i: int| 0 <= i < steps.len() implies spec_is_inside(
            spec_extract_root(self@.output_path),
            #[trigger] steps[i].destination@,
        ) by {
            assert(entries[i]@.wf());
        }
        match listing.failure {
            Some(fault) => Extraction { steps, failure: Some(error_of(fault)), cleanup: None },
            None => {
                let cleanup = Operation::RemoveFile { path: self.zip_path() };
                Extraction { steps, failure: None, cleanup: Some(cleanup) }
            },
        }
    }

    /// Plans the run of the tool that repackages the bytecode of the archive
    /// into the intermediate archive.
    pub fn create_jar(&self) -> (r: Operation)
        ensures
            r@ == self@.create_jar(),
    {
        let mut arguments: Vec<String> = Vec::new();
        arguments.push(join(self.libs_dir.as_str(), "dex2jar/d2j-dex2jar.sh"));
        arguments.push(String::from_str("-f"));
        arguments.push(self.apk_path.clone());
        arguments.push(String::from_str("-o"));
        arguments.push(join(self.output_path.as_str(), "app.jar"));
        assert(spec_texts(arguments@) =~= self@.create_jar()->Run_arguments);
        Operation::Run { program: String::from_str("sh"), arguments }
    }

    /// Moves the error report `error_file` of the repackaging tool from the
    /// working directory to the output root: it is copied first and removed
    /// where it lay only then.
    pub fn move_error_zip(&self, error_file: &str) -> (r: Vec<Operation>)
        ensures
            spec_operations(r@) == self@.move_error_zip(error_file@),
    {
        let mut plan: Vec<Operation> = Vec::new();
        plan.push(
            Operation::CopyFile {
                from: join(self.current_dir.as_str(), error_file),
                to: join(self.output_path.as_str(), error_file),
            },
        );
        plan.push(Operation::RemoveFile { path: join(self.current_dir.as_str(), error_file) });
        assert(spec_operations(plan@) =~= self@.move_error_zip(error_file@));
        plan
    }

    /// Decides what follows the repackaging tool, given the names found in
    /// the working directory in the order of their listing: where one of
    /// them is an error report, the first such is to be moved to the output
    /// root, and the stage goes on either way.
    pub fn relocate_error_artifact(&self, names: &Vec<String>) -> (r: Option<
        (usize, Vec<Operation>),
    >)
        ensures
            match r {
                Some((found, plan)) => {
                    &&& found < names.len()
                    &&& spec_is_error_artifact(names[found as int]@)
                    &&& forall|i: int| 0 <= i < found ==> !spec_is_error_artifact(names[i]@)
                    &&& spec_operations(plan@) == self@.move_error_zip(names[found as int]@)
                },
                None => forall|i: int|
                    0 <= i < names.len() ==> !spec_is_error_artifact(names[i]@),
            },
    {
        match find_error_artifact(names) {
            Some(found) => {
                let plan = self.move_error_zip(names[found].as_str());
                Some((found, plan))
            },
            None => None,
        }
    }

    /// Plans the decompiling of the intermediate archive, which is removed
    /// once the tool has run.
    pub fn decompile_jar(&self) -> (r: Vec<Operation>)
        ensures
            spec_operations(r@) == self@.decompile_jar(),
    {
        let mut arguments: Vec<String> = Vec::new();
        arguments.push(String::from_str("-od"));
        arguments.push(join(self.output_path.as_str(), "decompiled"));
        arguments.push(join(self.output_path.as_str(), "app.jar"));
        assert(spec_texts(arguments@) =~= self@.decompile_jar()[0]->Run_arguments);
        let mut plan: Vec<Operation> = Vec::new();
        plan.push(Operation::Run { program: join(self.libs_dir.as_str(), "jd/jd-cli"), arguments });
        plan.push(Operation::RemoveFile { path: join(self.output_path.as_str(), "app.jar") });
        assert(spec_operations(plan@) =~= self@.decompile_jar());
        plan
    }

    /// Plans the run of the tool that decodes the resources of the archive.
    pub fn extract_xml(&self) -> (r: Operation)
        ensures
            r@ == self@.extract_xml(),
    {
        let mut arguments: Vec<String> = Vec::new();
        arguments.push(String::from_str("d"));
        arguments.push(self.apk_path.clone());
        arguments.push(String::from_str("-o"));
        arguments.push(join(self.output_path.as_str(), "xml"));
        assert(spec_texts(arguments@) =~= self@.extract_xml()->Run_arguments);
        Operation::Run { program: join(self.libs_dir.as_str(), "apktool/apktool"), arguments }
    }
}

/// Finds the first error report of the repackaging tool among the names of
/// a directory listing, taken in the order of the listing.
pub fn find_error_artifact(names: &Vec<String>) -> (r: Option<usize>)
    ensures
        match r {
            Some(found) => {
                &&& found < names.len()
                &&& spec_is_error_artifact(names[found as int]@)
                &&& forall|i: int| 0 <= i < found ==> !spec_is_error_artifact(names[i]@)
            },
            None => forall|i: int| 0 <= i < names.len() ==> !spec_is_error_artifact(names[i]@),
        },
{
    let mut index: usize = 0;
    while index < names.len()
        invariant
            index <= names.len(),
            forall|i: int| 0 <= i < index ==> !spec_is_error_artifact(names[i]@),
        decreases names.len() - index,
    {
        if ends_with(names[index].as_str(), "-error.zip") {
            return Some(index);
        }
        index = index + 1;
    }
    None
}

/// A source without the archive extension is refused as invalid input,
/// whether it exists or not, and the run is over with that: it has failed at
/// its first stage, no later outcome changes this, and no task is asked for
/// any more, so that nothing is ever planned for the output root.
pub proof fn lemma_unrecognized_source_is_refused(job: JobModel, exists: bool, later: Seq<bool>)
    requires
        !job.recognized(),
    ensures
        job.check_path(exists) is Err,
        job.check_path(exists)->Err_0.kind == ErrorKind::InvalidInput,
        spec_task(Stage::Start, !job.skip_extract_xml) == Some(Task::Validate),
        spec_run(
            Stage::Start,
            !job.skip_extract_xml,
            seq![job.check_path(exists) is Ok] + later,
        ) == Stage::Failed,
        spec_task(Stage::Failed, !job.skip_extract_xml) is None,
{
    lemma_failure_aborts(Stage::Start, !job.skip_extract_xml, later);
}

/// Where every member of an archive can be read, the extraction has exactly
/// one step for each of them, in the order of their indices, it ends without
/// failure, and the copy of the archive is removed after it.
pub proof fn lemma_unzip_covers_archive(job: JobModel, directory: DirectoryModel)
    requires
        forall|i: int| 0 <= i < directory.headers.len() ==> spec_members(directory)[i] is Ok,
    ensures
        job.unzip(spec_read(Ok(directory))).steps.len() == directory.headers.len(),
        forall|i: int|
            0 <= i < directory.headers.len() ==> #[trigger] job.unzip(
                spec_read(Ok(directory)),
            ).steps[i] == spec_plan_entry(
                job.output_path,
                i as nat,
                spec_members(directory)[i]->Ok_0,
            ),
        job.unzip(spec_read(Ok(directory))).failure is None,
        job.unzip(spec_read(Ok(directory))).cleanup == Some(
            OperationModel::RemoveFile { path: job.zip_path() },
        ),
{
    let members = spec_members(directory);
    lemma_readable(members, members.len() as int);
}

/// Preparing the output root leaves nothing of an earlier run: where the
/// root exists the plan removes it with all that it holds and creates it
/// again, and once that is done the root is there and nothing lies below
/// it, whatever lay there before.
pub proof fn lemma_fresh_output_root(job: JobModel, tree: Set<Seq<char>>)
    ensures
        job.create_output(true) == seq![
            OperationModel::RemoveTree { path: job.output_path },
            OperationModel::CreateDir { path: job.output_path },
        ],
        spec_create_dir(spec_remove_tree(tree, job.output_path), job.output_path).contains(
            job.output_path,
        ),
        forall|path: Seq<char>| #[trigger]
            spec_is_below(job.output_path, path) ==> !spec_create_dir(
                spec_remove_tree(tree, job.output_path),
                job.output_path,
            ).contains(path),
{
}

/// An error report that the repackaging tool leaves in the working
/// directory is found, it is planned to be copied to a place inside the
/// output root under its own name and removed where it lay, and the run
/// goes on to decompiling all the same.
pub proof fn lemma_error_artifact_is_kept(job: JobModel, name: Seq<char>)
    requires
        job.wf(),
        spec_is_error_artifact(name),
        spec_is_plain_name(name),
    ensures
        job.move_error_zip(name) == seq![
            OperationModel::CopyFile {
                from: spec_join(job.current_dir, name),
                to: job.output_path + seq!['/'] + name,
            },
            OperationModel::RemoveFile { path: spec_join(job.current_dir, name) },
        ],
        spec_is_inside(job.output_path, job.output_path + seq!['/'] + name),
        spec_advance(Stage::Extracted, !job.skip_extract_xml, true) == Stage::Packaged,
        spec_task(Stage::Packaged, !job.skip_extract_xml) == Some(Task::Decompile),
{
    reveal_strlit("-error.zip");
    reveal_strlit("output");
    let output = job.output_path;
    let target = output + seq!['/'] + name;
    assert(name.len() >= 10);
    assert(name[0] != '/');
    assert("output"@[0] == 'o');
    assert(output.last() == 't') by {
        if job.current_dir.len() == 0 || job.current_dir.last() == '/' {
            assert(output == job.current_dir + "output"@);
        } else {
            assert(output == job.current_dir + seq!['/'] + "output"@);
        }
        assert(output[output.len() - 1] == "output"@[5]);
    }
    assert(spec_join(output, name) == target);
    assert(target.subrange(0, output.len() as int) =~= output);
    assert(target.subrange(output.len() as int + 1, target.len() as int) =~= name);
    assert(!spec_has_parent_segment(name)) by {
        if spec_has_parent_segment(name) {
            let at = choose|at: int| spec_parent_segment_at(name, at);
            assert(spec_parent_segment_at(name, at));
        }
    }
}

} // verus!
