//! The three optional hook slots: before the setup of a test that asks for
//! it, before each test, and after each test.
use vstd::prelude::*;

verus! {

/// Hook slots; `I` is called with a test's info, `E` with its result.
pub struct Hooks<I, E> {
    pub init_db: Option<I>,
    pub start: Option<I>,
    pub end: Option<E>,
}

impl<I, E> Hooks<I, E> {
    /// Slots with no hook installed.
    pub fn new() -> (r: Hooks<I, E>)
        ensures
            r.init_db.is_none(),
            r.start.is_none(),
            r.end.is_none(),
    {
        Hooks { init_db: None, start: None, end: None }
    }
}

/// Installs the pre-setup hook, replacing any earlier one.
pub fn set_init_db_hook<I, E>(hooks: &mut Hooks<I, E>, init_db: I)
    ensures
        final(hooks).init_db == Some(init_db),
        final(hooks).start == old(hooks).start,
        final(hooks).end == old(hooks).end,
{
    hooks.init_db = Some(init_db);
}

/// Installs the pre-test hook, replacing any earlier one.
pub fn set_test_start_hook<I, E>(hooks: &mut Hooks<I, E>, callback: I)
    ensures
        final(hooks).start == Some(callback),
        final(hooks).init_db == old(hooks).init_db,
        final(hooks).end == old(hooks).end,
{
    hooks.start = Some(callback);
}

/// Installs the post-test hook, replacing any earlier one.
pub fn set_test_end_hook<I, E>(hooks: &mut Hooks<I, E>, callback: E)
    ensures
        final(hooks).end == Some(callback),
        final(hooks).init_db == old(hooks).init_db,
        final(hooks).start == old(hooks).start,
{
    hooks.end = Some(callback);
}

} // verus!
