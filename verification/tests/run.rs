use cph::commands::test::{judge, Action, Event, Report, Stage, Step, TestRun, Verdict};
use cph::utils::runner::{compile_command, Outcome, RunResult};
use cph::{Problem, TestCase};
use std::time::Duration;

fn case(input: &str, expected: &str) -> TestCase {
    TestCase { input: input.to_string(), expected_output: expected.to_string() }
}

fn problem(cases: Vec<TestCase>) -> Problem {
    Problem {
        name: "Example Problem".to_string(),
        test_cases: cases,
        time_limit: Duration::from_secs(2),
        memory_limit: 256,
    }
}

fn ran(success: bool, output: &str, millis: u64) -> RunResult {
    RunResult { success, output: output.to_string(), execution_time: Duration::from_millis(millis) }
}

fn execute(input: &str) -> Action {
    Action::Execute {
        executable: "test.cpp.out".to_string(),
        input: input.to_string(),
        time_limit: Duration::from_secs(2),
    }
}

#[test]
fn sum_of_two_integers_passes() {
    let elapsed = Duration::from_millis(4);
    let result = RunResult::from_outcome(
        Outcome::Exited { success: true, stdout: b"3\n".to_vec(), elapsed },
        Duration::from_secs(2),
    );
    let verdict = judge(1, &case("1\n2\n", "3\n"), result);
    assert_eq!(verdict, Verdict::Passed { index: 1, execution_time: elapsed });
}

#[test]
fn matching_output_passes_whatever_surrounds_it() {
    let verdict = judge(3, &case("x", "  42\n"), ran(true, "42\r\n\n", 9));
    assert_eq!(verdict, Verdict::Passed { index: 3, execution_time: Duration::from_millis(9) });
}

#[test]
fn different_output_is_a_wrong_answer() {
    let verdict = judge(2, &case("1 2", "1 2"), ran(true, "1  2", 5));
    assert_eq!(
        verdict,
        Verdict::WrongAnswer {
            index: 2,
            input: "1 2".to_string(),
            expected: "1 2".to_string(),
            got: "1  2".to_string(),
        }
    );
}

#[test]
fn failed_run_fails_even_with_expected_output() {
    let verdict = judge(1, &case("in", "3\n"), ran(false, "3\n", 8));
    assert_eq!(
        verdict,
        Verdict::RunFailed {
            index: 1,
            execution_time: Duration::from_millis(8),
            input: "in".to_string(),
            expected: "3\n".to_string(),
            got: "3\n".to_string(),
        }
    );
}

#[test]
fn timed_out_case_fails_with_limit_as_time() {
    let limit = Duration::from_secs_f64(0.001);
    let verdict = judge(1, &case("", "done"), RunResult::from_outcome(Outcome::TimedOut, limit));
    assert_eq!(
        verdict,
        Verdict::RunFailed {
            index: 1,
            execution_time: limit,
            input: "".to_string(),
            expected: "done".to_string(),
            got: "Time limit exceeded".to_string(),
        }
    );
}

#[test]
fn new_run_awaits_compilation() {
    let run = TestRun::new(problem(vec![case("a", "b")]), "test.cpp".to_string());
    assert_eq!(run.stage, Stage::Compiling);
    assert_eq!(run.pending(), Action::Compile(compile_command("test.cpp")));
}

#[test]
fn no_cases_gives_no_reports() {
    let mut run = TestRun::new(problem(Vec::new()), "test.cpp".to_string());
    let step = run.step(Event::Compiled(true));
    assert_eq!(step, Step { report: None, action: Action::Finish });
    assert_eq!(run.stage, Stage::Finished);
}

#[test]
fn failed_compilation_executes_nothing() {
    let cases = vec![case("1", "1"), case("2", "2"), case("3", "3")];
    let mut run = TestRun::new(problem(cases), "test.cpp".to_string());
    let step = run.step(Event::Compiled(false));
    assert_eq!(step, Step { report: Some(Report::CompilationFailed), action: Action::Finish });
    assert_eq!(run.stage, Stage::Finished);
    let later = run.step(Event::Executed(ran(true, "1", 1)));
    assert_eq!(later, Step { report: None, action: Action::Finish });
    let again = run.step(Event::Compiled(true));
    assert_eq!(again, Step { report: None, action: Action::Finish });
    assert_eq!(run.stage, Stage::Finished);
}

#[test]
fn every_case_is_run_in_order() {
    let cases = vec![case("1\n2\n", "3\n"), case("2\n2\n", "4\n"), case("0\n0\n", "0\n")];
    let mut run = TestRun::new(problem(cases), "test.cpp".to_string());

    let first = run.step(Event::Compiled(true));
    assert_eq!(first, Step { report: None, action: execute("1\n2\n") });
    assert_eq!(run.stage, Stage::Running { next: 0 });

    let second = run.step(Event::Executed(ran(true, "3", 10)));
    assert_eq!(
        second,
        Step {
            report: Some(Report::Case(Verdict::Passed {
                index: 1,
                execution_time: Duration::from_millis(10),
            })),
            action: execute("2\n2\n"),
        }
    );

    let third = run.step(Event::Executed(ran(false, "", 20)));
    assert_eq!(
        third,
        Step {
            report: Some(Report::Case(Verdict::RunFailed {
                index: 2,
                execution_time: Duration::from_millis(20),
                input: "2\n2\n".to_string(),
                expected: "4\n".to_string(),
                got: "".to_string(),
            })),
            action: execute("0\n0\n"),
        }
    );
    assert_eq!(run.stage, Stage::Running { next: 2 });

    let last = run.step(Event::Executed(ran(true, "1\n", 30)));
    assert_eq!(
        last,
        Step {
            report: Some(Report::Case(Verdict::WrongAnswer {
                index: 3,
                input: "0\n0\n".to_string(),
                expected: "0\n".to_string(),
                got: "1\n".to_string(),
            })),
            action: Action::Finish,
        }
    );
    assert_eq!(run.stage, Stage::Finished);
}

#[test]
fn unawaited_event_changes_nothing() {
    let mut run = TestRun::new(problem(vec![case("a", "b")]), "test.cpp".to_string());
    let early = run.step(Event::Executed(ran(true, "b", 1)));
    assert_eq!(early, Step { report: None, action: Action::Compile(compile_command("test.cpp")) });
    assert_eq!(run.stage, Stage::Compiling);
    run.step(Event::Compiled(true));
    let repeated = run.step(Event::Compiled(true));
    assert_eq!(repeated, Step { report: None, action: execute("a") });
    assert_eq!(run.stage, Stage::Running { next: 0 });
}

#[test]
fn position_past_the_last_case_awaits_nothing() {
    let mut run = TestRun {
        problem: problem(vec![case("a", "b")]),
        source_file: "test.cpp".to_string(),
        stage: Stage::Running { next: 1 },
    };
    assert_eq!(run.pending(), Action::Finish);
    let step = run.step(Event::Executed(ran(true, "b", 1)));
    assert_eq!(step, Step { report: None, action: Action::Finish });
    assert_eq!(run.stage, Stage::Finished);
}

#[test]
fn pending_repeats_the_awaited_execution() {
    let mut run = TestRun::new(problem(vec![case("a", "b"), case("c", "d")]), "s.cpp".to_string());
    run.step(Event::Compiled(true));
    run.step(Event::Executed(ran(true, "b", 1)));
    assert_eq!(
        run.pending(),
        Action::Execute {
            executable: "s.cpp.out".to_string(),
            input: "c".to_string(),
            time_limit: Duration::from_secs(2),
        }
    );
}
