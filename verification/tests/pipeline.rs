use apk_decompiler::error::ErrorKind;
use apk_decompiler::error::PipelineError;
use apk_decompiler::pipeline::Pipeline;
use apk_decompiler::pipeline::Stage;
use apk_decompiler::pipeline::Task;

fn failure() -> PipelineError {
    PipelineError::new(ErrorKind::IoError, "disk full")
}

fn run_to_the_end(decode_resources: bool) -> (Vec<Task>, Vec<Stage>) {
    let mut run = Pipeline::new(decode_resources);
    let mut tasks = Vec::new();
    let mut stages = vec![run.stage];
    while !run.is_terminal() {
        if let Some(task) = run.task() {
            tasks.push(task);
        }
        run.advance(&Ok(()));
        stages.push(run.stage);
    }
    (tasks, stages)
}

#[test]
fn a_run_with_resources_takes_every_stage_in_order() {
    let (tasks, stages) = run_to_the_end(true);
    assert_eq!(
        tasks,
        vec![
            Task::Validate,
            Task::PrepareOutput,
            Task::Extract,
            Task::Package,
            Task::Decompile,
            Task::DecodeResources
        ]
    );
    assert_eq!(
        stages,
        vec![
            Stage::Start,
            Stage::Validated,
            Stage::OutputReady,
            Stage::Extracted,
            Stage::Packaged,
            Stage::Decompiled,
            Stage::ResourcesDecoded,
            Stage::Finished
        ]
    );
}

#[test]
fn a_run_without_resources_leaves_only_the_decoding_out() {
    let (tasks, stages) = run_to_the_end(false);
    assert_eq!(
        tasks,
        vec![Task::Validate, Task::PrepareOutput, Task::Extract, Task::Package, Task::Decompile]
    );
    assert_eq!(
        stages,
        vec![
            Stage::Start,
            Stage::Validated,
            Stage::OutputReady,
            Stage::Extracted,
            Stage::Packaged,
            Stage::Decompiled,
            Stage::Finished
        ]
    );
}

#[test]
fn a_failure_ends_the_run_at_any_stage() {
    for steps in 0..7 {
        let mut run = Pipeline::new(true);
        for _ in 0..steps {
            run.advance(&Ok(()));
        }
        assert!(!run.is_terminal());
        run.advance(&Err(failure()));
        assert_eq!(run.stage, Stage::Failed);
        assert!(run.is_terminal());
        assert_eq!(run.task(), None);
    }
}

#[test]
fn nothing_leaves_a_failed_run() {
    let mut run = Pipeline::new(true);
    run.advance(&Err(failure()));
    run.advance(&Ok(()));
    assert_eq!(run.stage, Stage::Failed);
    run.advance(&Err(failure()));
    assert_eq!(run.stage, Stage::Failed);
}

#[test]
fn nothing_leaves_a_finished_run() {
    let mut run = Pipeline { stage: Stage::Finished, decode_resources: true };
    run.advance(&Err(failure()));
    assert_eq!(run.stage, Stage::Finished);
    run.advance(&Ok(()));
    assert_eq!(run.stage, Stage::Finished);
    assert_eq!(run.task(), None);
}

#[test]
fn the_result_of_a_run() {
    let under_way = Pipeline::new(true);
    assert_eq!(under_way.result(failure()), None);
    let finished = Pipeline { stage: Stage::Finished, decode_resources: false };
    assert_eq!(finished.result(failure()), Some(Ok(())));
    let failed = Pipeline { stage: Stage::Failed, decode_resources: false };
    assert_eq!(failed.result(failure()), Some(Err(failure())));
}

#[test]
fn the_flag_survives_every_step() {
    let mut run = Pipeline::new(false);
    for _ in 0..10 {
        run.advance(&Ok(()));
        assert!(!run.decode_resources);
    }
}
