//! The intake side: the payload that the browser helper sends, its mapping to
//! a problem, and the queue from which the most recent problem is fetched.

use crate::{Problem, TestCase};
use std::time::Duration;
use vstd::prelude::*;

verus! {

/// One test of a payload, under the payload's own field names.
#[derive(Clone, Debug, PartialEq, Eq)]
pub struct CompanionTest {
    pub input: String,
    pub output: String,
}

/// A parsed payload. The group, the address and the interactivity flag are
/// received and not used.
#[derive(Clone, Debug, PartialEq, Eq)]
pub struct CompanionInput {
    pub name: String,
    pub group: String,
    pub url: String,
    pub interactive: bool,
    pub memory_limit: i32,
    pub time_limit: Duration,
    pub tests: Vec<CompanionTest>,
}

/// The queue of received problems, oldest first.
///
/// Appending and fetching take the queue by `&mut`, so each of them has it to
/// itself; handlers that share one queue keep it behind a lock.
#[derive(Debug, PartialEq, Eq)]
pub struct CompanionServer {
    problems: Vec<Problem>,
}

/// The test case that a payload's test stands for: its `output` is the
/// expected output.
pub open spec fn case_of(test: CompanionTest) -> TestCase {
    TestCase { input: test.input, expected_output: test.output }
}

/// The queue after `problem` was appended.
pub open spec fn appended(queue: Seq<Problem>, problem: Problem) -> Seq<Problem> {
    queue.push(problem)
}

/// What a fetch from `queue` returns: the problem appended last, if any.
pub open spec fn latest(queue: Seq<Problem>) -> Option<Problem> {
    if queue.len() == 0 {
        None
    } else {
        Some(queue.last())
    }
}

/// The queue after a fetch: without the problem appended last.
pub open spec fn after_fetch(queue: Seq<Problem>) -> Seq<Problem> {
    if queue.len() == 0 {
        queue
    } else {
        queue.drop_last()
    }
}

impl CompanionInput {
    /// Whether `problem` is the problem that this payload describes: the same
    /// name and limits, and the same tests in the same order.
    pub open spec fn describes(self, problem: Problem) -> bool {
        &&& problem.name == self.name
        &&& problem.time_limit == self.time_limit
        &&& problem.memory_limit == self.memory_limit
        &&& problem.test_cases@ == self.tests@.map_values(|t: CompanionTest| case_of(t))
    }

    /// Maps the payload to the problem it describes.
    pub fn into_problem(self) -> (problem: Problem)
        ensures
            self.describes(problem),
    {
        let mut test_cases: Vec<TestCase> = Vec::new();
        let mut i: usize = 0;
        while i < self.tests.len()
            invariant
                i <= self.tests@.len(),
                test_cases@ == self.tests@.take(i as int).map_values(|t: CompanionTest| case_of(t)),
            decreases self.tests@.len() - i,
        {
            let test = &self.tests[i];
            test_cases.push(
                TestCase { input: test.input.clone(), expected_output: test.output.clone() },
            );
            i += 1;
            assert(test_cases@ =~= self.tests@.take(i as int).map_values(
                |t: CompanionTest| case_of(t),
            ));
        }
        assert(self.tests@.take(i as int) =~= self.tests@);
        Problem {
            name: self.name,
            test_cases,
            time_limit: self.time_limit,
            memory_limit: self.memory_limit,
        }
    }
}

impl View for CompanionServer {
    type V = Seq<Problem>;

    closed spec fn view(&self) -> Seq<Problem> {
        self.problems@
    }
}

impl CompanionServer {
    /// A server whose queue is empty.
    pub fn new() -> (server: Self)
        ensures
            server@ == Seq::<Problem>::empty(),
    {
        CompanionServer { problems: Vec::new() }
    }

    /// The number of problems that wait in the queue.
    pub fn len(&self) -> (n: usize)
        ensures
            n == self@.len(),
    {
        self.problems.len()
    }

    /// Appends `problem` to the queue.
    pub fn add_problem(&mut self, problem: Problem)
        ensures
            final(self)@ == appended(old(self)@, problem),
    {
        self.problems.push(problem);
    }

    /// Takes in what one connection delivered: a payload that parsed is mapped
    /// to its problem and appended; one that did not parse is dropped, and the
    /// queue stays as it was. Returns whether a problem was appended.
    pub fn receive(&mut self, payload: Option<CompanionInput>) -> (accepted: bool)
        ensures
            accepted == payload.is_some(),
            payload is None ==> final(self)@ == old(self)@,
            payload matches Some(input) ==> {
                &&& final(self)@.len() == old(self)@.len() + 1
                &&& input.describes(final(self)@.last())
                &&& final(self)@ == appended(old(self)@, final(self)@.last())
            },
    {
        match payload {
            Some(input) => {
                let problem = input.into_problem();
                self.add_problem(problem);
                true
            },
            None => false,
        }
    }

    /// Removes and returns the problem appended last, or returns `None` where
    /// the queue is empty. A problem that was fetched is not fetched again.
    pub fn get_latest_problem(&mut self) -> (problem: Option<Problem>)
        ensures
            problem == latest(old(self)@),
            final(self)@ == after_fetch(old(self)@),
    {
        self.problems.pop()
    }
}

/// A fetch returns the problem appended last and leaves the queue as it was
/// before that append.
pub proof fn lemma_fetch_undoes_append(queue: Seq<Problem>, problem: Problem)
    ensures
        latest(appended(queue, problem)) == Some(problem),
        after_fetch(appended(queue, problem)) == queue,
{
    assert(queue.push(problem).drop_last() =~= queue);
}

/// Fetching consumes: after one append to an empty queue the first fetch
/// returns the problem, and the second finds nothing.
pub proof fn lemma_fetch_consumes(problem: Problem)
    ensures
        latest(appended(Seq::empty(), problem)) == Some(problem),
        latest(after_fetch(appended(Seq::empty(), problem))) == None::<Problem>,
{
    lemma_fetch_undoes_append(Seq::empty(), problem);
}

/// The last one in is the first one out: after two appends a fetch returns the
/// second problem, and the first is still there for the fetch after it.
pub proof fn lemma_fetch_returns_last_appended(queue: Seq<Problem>, first: Problem, second: Problem)
    ensures
        latest(appended(appended(queue, first), second)) == Some(second),
        latest(after_fetch(appended(appended(queue, first), second))) == Some(first),
{
    lemma_fetch_undoes_append(appended(queue, first), second);
    lemma_fetch_undoes_append(queue, first);
}

} // verus!
