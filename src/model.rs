//! Registered tests and the outcome of running one.
use vstd::prelude::*;
use crate::duration::Elapsed;

verus! {

#[verifier::external_type_specification]
#[verifier::external_body]
pub struct ExError(anyhow::Error);

/// The two shapes of a test body: `Void` reports failure only by faulting,
/// `Result` also by returning an error. The engine never calls a body itself:
/// the invoker handed to it does.
#[derive(Debug, Clone, Copy)]
pub enum TestFunction<V, R> {
    Void(V),
    Result(R),
}

/// The identity of a registered test and its body.
#[derive(Debug, Clone)]
pub struct TestInfo<V, R> {
    pub init_db: bool,
    pub name: String,
    pub path: String,
    pub func: TestFunction<V, R>,
}

impl<V: Copy, R: Copy> TestInfo<V, R> {
    /// A copy of this record, field for field.
    pub fn duplicate(&self) -> (r: TestInfo<V, R>)
        ensures
            r == *self,
    {
        TestInfo {
            init_db: self.init_db,
            name: self.name.clone(),
            path: self.path.clone(),
            func: self.func,
        }
    }
}

/// What running one test gave: `None` for a body without a result channel that
/// returned normally, else the returned or fault-derived result.
pub type Outcome = Option<Result<(), anyhow::Error>>;

/// Whether an outcome counts as a pass.
pub open spec fn passed(res: Outcome) -> bool {
    match res {
        Some(Err(_)) => false,
        _ => true,
    }
}

/// The outcome of running one registered test.
#[derive(Debug)]
pub struct TestResult<V, R> {
    pub info: TestInfo<V, R>,
    pub res: Outcome,
    pub duration: Elapsed,
}

/// Relies on anyhow's `Debug` impl of `Error` for the error's rendered text.
#[verifier::external_body]
pub(crate) fn render_error(e: &anyhow::Error) -> (r: String) {
    format!("{:?}", e)
}

/// Relies on `anyhow::Error::msg` for a new opaque error carrying `text`.
#[verifier::external_body]
fn error_from_text(text: String) -> (r: anyhow::Error) {
    anyhow::Error::msg(text)
}

/// Detaches an outcome from its error value: an error is re-rendered to its
/// text and wrapped in a new opaque error, so that its original type is lost.
pub fn detach_outcome(res: &Outcome) -> (r: Outcome)
    ensures
        r.is_none() == res.is_none(),
        passed(r) == passed(*res),
{
    match res {
        Some(Ok(())) => Some(Ok(())),
        Some(Err(e)) => Some(Err(error_from_text(render_error(e)))),
        None => None,
    }
}

impl<V: Copy, R: Copy> TestResult<V, R> {
    /// A copy whose info and duration equal this one's and whose outcome is
    /// detached: a pass stays a pass, a failure stays a failure with its
    /// rendered text, no longer the original error value.
    pub fn detached(&self) -> (r: TestResult<V, R>)
        ensures
            r.info == self.info,
            r.duration == self.duration,
            r.res.is_none() == self.res.is_none(),
            passed(r.res) == passed(self.res),
    {
        TestResult {
            info: self.info.duplicate(),
            res: detach_outcome(&self.res),
            duration: Elapsed { secs: self.duration.secs, nanos: self.duration.nanos },
        }
    }
}

impl<V: Copy, R: Copy> Clone for TestResult<V, R> {
    /// The detaching copy: see `detached`.
    fn clone(&self) -> (r: Self)
        ensures
            r.info == self.info,
            r.duration == self.duration,
            r.res.is_none() == self.res.is_none(),
            passed(r.res) == passed(self.res),
    {
        self.detached()
    }
}

} // verus!
