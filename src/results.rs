//! The outcome vocabulary every validator reports into.
use vstd::prelude::*;

verus! {

/// One check's outcome: `Ok` carries the success message, `Err` the failure.
#[derive(Debug)]
pub struct TestCase {
    pub name: String,
    pub result: Result<String, String>,
}

pub open spec fn outcome_view(r: Result<String, String>) -> Result<Seq<char>, Seq<char>> {
    match r {
        Ok(s) => Ok(s@),
        Err(e) => Err(e@),
    }
}

impl TestCase {
    pub open spec fn outcome(&self) -> Result<Seq<char>, Seq<char>> {
        outcome_view(self.result)
    }

    pub fn passed(&self) -> (r: bool)
        ensures
            r == self.result is Ok,
    {
        self.result.is_ok()
    }

    /// The success or failure message, whichever is present.
    pub fn message(&self) -> (r: &str)
        ensures
            r@ == match self.result {
                Ok(s) => s@,
                Err(e) => e@,
            },
    {
        match &self.result {
            Ok(s) => s.as_str(),
            Err(e) => e.as_str(),
        }
    }
}

pub open spec fn count_passed(s: Seq<TestCase>) -> nat
    decreases s.len(),
{
    if s.len() == 0 {
        0
    } else {
        count_passed(s.drop_last()) + if s.last().result is Ok {
            1nat
        } else {
            0nat
        }
    }
}

/// The cases of one task run, in the order they were recorded.
#[derive(Debug)]
pub struct TestResults {
    pub tests: Vec<TestCase>,
}

impl TestResults {
    pub fn new() -> (r: TestResults)
        ensures
            r.tests@.len() == 0,
    {
        TestResults { tests: Vec::new() }
    }

    /// Appends a case; earlier cases are kept as they were.
    pub fn push(&mut self, case: TestCase)
        ensures
            final(self).tests@ == old(self).tests@.push(case),
    {
        self.tests.push(case);
    }

    pub fn total(&self) -> (r: usize)
        ensures
            r == self.tests@.len(),
    {
        self.tests.len()
    }

    pub fn passed(&self) -> (r: usize)
        ensures
            r == count_passed(self.tests@),
    {
        let mut k: usize = 0;
        let mut n: usize = 0;
        while k < self.tests.len()
            invariant
                k <= self.tests@.len(),
                n == count_passed(self.tests@.subrange(0, k as int)),
                n <= k,
            decreases self.tests@.len() - k,
        {
            assert(self.tests@.subrange(0, k + 1).drop_last() =~= self.tests@.subrange(0, k as int));
            if self.tests[k].passed() {
                n = n + 1;
            }
            k = k + 1;
        }
        assert(self.tests@.subrange(0, k as int) =~= self.tests@);
        n
    }

    pub fn failed(&self) -> (r: usize)
        ensures
            r == self.tests@.len() - count_passed(self.tests@),
    {
        let p = self.passed();
        proof {
            lemma_passed_le(self.tests@);
        }
        self.tests.len() - p
    }

    pub fn all_passed(&self) -> (r: bool)
        ensures
            r == (count_passed(self.tests@) == self.tests@.len()),
    {
        self.passed() == self.tests.len()
    }
}

proof fn lemma_passed_le(s: Seq<TestCase>)
    ensures
        count_passed(s) <= s.len(),
    decreases s.len(),
{
    if s.len() > 0 {
        lemma_passed_le(s.drop_last());
    }
}

} // verus!
