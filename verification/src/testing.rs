//! Test doubles: a scriptable stage for orchestration tests (preset outputs
//! are consumed in order, failures can be injected, calls are counted) and a
//! ready-made dangerous verdict.

use std::collections::VecDeque;
use std::marker::PhantomData;

use vstd::prelude::*;
use vstd::string::*;

use crate::contract::StageError;
use crate::verdict::{Verdict, VerdictLevel, SCORE_ONE_BITS};

verus! {

/// Test helper: a verdict that blocks, giving `reason`.
pub fn dangerous_verdict(reason: &str) -> (v: Verdict)
    ensures
        v.is_bare(VerdictLevel::Block, SCORE_ONE_BITS, seq![reason@]),
{
    Verdict::block(reason)
}

/// The `Debug` text of a value (format `{:?}`; nothing is promised of it).
#[verifier::external_body]
fn debug_text<T: core::fmt::Debug>(v: &T) -> String {
    format!("{v:?}")
}

/// A stage double. Outputs are consumed front to back; the last remaining one is
/// repeated (by kind, since errors are not `Clone`).
#[derive(Debug)]
pub struct MockStage<I, O> {
    pub id: &'static str,
    /// Preset outputs, front first.
    pub outputs: VecDeque<Result<O, StageError>>,
    pub calls: usize,
    pub init_calls: usize,
    pub shutdown_calls: usize,
    /// `Debug` text of each input received.
    pub inputs: Vec<String>,
    pub _marker: PhantomData<I>,
}

/// `r` repeats the output `o` (a clone of an `Ok` value, the same kind and text for an error).
pub open spec fn repeats<O: Clone>(r: Result<O, StageError>, o: Result<O, StageError>) -> bool {
    match o {
        Ok(v) => r matches Ok(x) && cloned(v, x),
        Err(StageError::Recoverable(m)) => r matches Err(StageError::Recoverable(n)) && n@ == m@,
        Err(StageError::Fatal(m)) => r matches Err(StageError::Fatal(n)) && n@ == m@,
        Err(StageError::Cancelled) => r matches Err(StageError::Cancelled),
    }
}

impl<I: core::fmt::Debug, O: Clone> MockStage<I, O> {
    pub fn new(id: &'static str, outputs: Vec<Result<O, StageError>>) -> (s: MockStage<I, O>)
        ensures
            s.id == id,
            s.outputs@ == outputs@,
            s.calls == 0,
            s.init_calls == 0,
            s.shutdown_calls == 0,
            s.inputs@.len() == 0,
    {
        let ghost all = outputs@;
        let mut q: VecDeque<Result<O, StageError>> = VecDeque::new();
        for o in it: outputs.into_iter()
            invariant
                it.seq() == all,
                q@ == all.subrange(0, it.index() as int),
        {
            let ghost i = it.index();
            q.push_back(o);
            assert(q@ =~= all.subrange(0, i + 1));
        }
        assert(all.subrange(0, all.len() as int) =~= all);
        MockStage {
            id,
            outputs: q,
            calls: 0,
            init_calls: 0,
            shutdown_calls: 0,
            inputs: Vec::new(),
            _marker: PhantomData,
        }
    }

    pub fn call_count(&self) -> (n: usize)
        ensures
            n == self.calls,
    {
        self.calls
    }

    pub fn init(&mut self)
        ensures
            final(self).init_calls == vstd::wrapping::usize_specs::wrapping_add(
                old(self).init_calls,
                1,
            ),
            final(self).outputs@ == old(self).outputs@,
            final(self).calls == old(self).calls,
            final(self).shutdown_calls == old(self).shutdown_calls,
    {
        self.init_calls = self.init_calls.wrapping_add(1);
    }

    pub fn shutdown(&mut self)
        ensures
            final(self).shutdown_calls == vstd::wrapping::usize_specs::wrapping_add(
                old(self).shutdown_calls,
                1,
            ),
            final(self).outputs@ == old(self).outputs@,
            final(self).calls == old(self).calls,
            final(self).init_calls == old(self).init_calls,
    {
        self.shutdown_calls = self.shutdown_calls.wrapping_add(1);
    }

    /// Run once: count the call, record the input's `Debug` text, and produce
    /// the next preset output (an error when none is preset).
    pub fn process(&mut self, input: I) -> (r: Result<O, StageError>)
        ensures
            final(self).calls == vstd::wrapping::usize_specs::wrapping_add(old(self).calls, 1),
            final(self).inputs@.len() == old(self).inputs@.len() + 1,
            final(self).inputs@.subrange(0, old(self).inputs@.len() as int) == old(self).inputs@,
            final(self).id == old(self).id,
            final(self).init_calls == old(self).init_calls,
            final(self).shutdown_calls == old(self).shutdown_calls,
            old(self).outputs@.len() == 0 ==> {
                &&& r matches Err(StageError::Recoverable(m))
                &&& m@ == old(self).id@ + " 无预置输出"@
                &&& final(self).outputs@ == old(self).outputs@
            },
            old(self).outputs@.len() == 1 ==> {
                &&& repeats(r, old(self).outputs@[0])
                &&& final(self).outputs@ == old(self).outputs@
            },
            old(self).outputs@.len() > 1 ==> {
                &&& r == old(self).outputs@[0]
                &&& final(self).outputs@ == old(self).outputs@.drop_first()
            },
    {
        self.calls = self.calls.wrapping_add(1);
        let text = debug_text(&input);
        self.inputs.push(text);
        let n = self.outputs.len();
        if n == 0 {
            let mut m = String::from_str(self.id);
            m.append(" 无预置输出");
            return Err(StageError::Recoverable(m));
        }
        if n == 1 {
            match &self.outputs[0] {
                Ok(v) => Ok(v.clone()),
                Err(StageError::Recoverable(m)) => Err(StageError::Recoverable(m.clone())),
                Err(StageError::Fatal(m)) => Err(StageError::Fatal(m.clone())),
                Err(StageError::Cancelled) => Err(StageError::Cancelled),
            }
        } else {
            match self.outputs.pop_front() {
                Some(r) => {
                    assert(old(self).outputs@.subrange(1, n as int) =~= old(self).outputs@.drop_first());
                    r
                },
                None => Err(StageError::Cancelled),
            }
        }
    }
}

} // verus!
