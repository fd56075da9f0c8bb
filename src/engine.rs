//! The run engine: runs every registered test once, modules in ascending path
//! order and tests in registration order, with the installed hooks around
//! each test.
//!
//! The engine does not call a test body itself. Its caller hands it an
//! invoker, which calls the body, catches a fault (a panic) and times the
//! call, and a log sink. The invoker swaps a process-wide fault reporter, so
//! the engine must not run on two threads at once.
use vstd::prelude::*;
use vstd::string::*;
use crate::duration::{duration_to_str, took_text, Elapsed};
use crate::hooks::Hooks;
use crate::model::{passed, render_error, Outcome, TestFunction, TestInfo, TestResult};
use crate::order::path_lt;
use crate::registry::{lemma_tests_at_index, modules_view, modules_wf, tests_at, ModuleView, Registry};

verus! {

/// What an invoker reports for one call of a test body: the body's own result
/// channel where it returned, or the fault as an error where it did not.
pub type Invocation = Result<Outcome, anyhow::Error>;

pub open spec fn settled(raw: Invocation) -> Outcome {
    match raw {
        Ok(res) => res,
        Err(fault) => Some(Err(fault)),
    }
}

/// Turns what the invoker reported into the test's outcome: a returned
/// result channel is kept as it is, a fault becomes an error.
pub fn settle(raw: Invocation) -> (r: Outcome)
    ensures
        r == settled(raw),
{
    match raw {
        Ok(res) => res,
        Err(fault) => Some(Err(fault)),
    }
}

/// A body without a result channel that returns normally has no result and
/// passes; a returned success passes; a returned error is kept as it is and
/// fails; a fault becomes an error and fails.
pub proof fn law_outcomes(returned: anyhow::Error, fault: anyhow::Error)
    ensures
        settled(Ok(None)) == None::<Result<(), anyhow::Error>>,
        passed(settled(Ok(None))),
        settled(Ok(Some(Ok(())))) == Some(Ok::<(), anyhow::Error>(())),
        passed(settled(Ok(Some(Ok(()))))),
        settled(Ok(Some(Err(returned)))) == Some(Err::<(), anyhow::Error>(returned)),
        !passed(settled(Ok(Some(Err(returned))))),
        settled(Err(fault)) == Some(Err::<(), anyhow::Error>(fault)),
        !passed(settled(Err(fault))),
{
}

pub open spec fn report_head(path: Seq<char>, name: Seq<char>) -> Seq<char> {
    seq!['t', 'e', 's', 't', ' ', '['] + path + seq![':', ':'] + name + seq![']', ' ', 'i', 's', ' ']
}

/// The log line of a passing test.
pub open spec fn ok_line(path: Seq<char>, name: Seq<char>, took: Seq<char>) -> Seq<char> {
    report_head(path, name) + seq!['o', 'k', ' ', 'i', 'n', ' '] + took
}

/// The start of the log line of a failing test; the error text follows it.
pub open spec fn failed_prefix(path: Seq<char>, name: Seq<char>, took: Seq<char>) -> Seq<char> {
    report_head(path, name) + seq!['f', 'a', 'i', 'l', 'e', 'd', ' ', 'i', 'n', ' '] + took + seq![
        '!',
        ' ',
        'e',
        'r',
        'r',
        ':',
        ' ',
    ]
}

/// The log line for one finished test and whether it is logged as an error.
pub fn report_line(path: &String, name: &String, took: &String, res: &Outcome) -> (r: (bool, String))
    ensures
        r.0 == !passed(*res),
        passed(*res) ==> r.1@ == ok_line(path@, name@, took@),
        !passed(*res) ==> r.1@.len() >= failed_prefix(path@, name@, took@).len() && r.1@.subrange(
            0,
            failed_prefix(path@, name@, took@).len() as int,
        ) == failed_prefix(path@, name@, took@),
{
    let mut s = String::from_str("test [");
    s.append(path.as_str());
    s.append("::");
    s.append(name.as_str());
    s.append("] is ");
    proof {
        reveal_strlit("test [");
        reveal_strlit("::");
        reveal_strlit("] is ");
        reveal_strlit("ok in ");
        reveal_strlit("failed in ");
        reveal_strlit("! err: ");
    }
    match res {
        Some(Err(e)) => {
            s.append("failed in ");
            s.append(took.as_str());
            s.append("! err: ");
            let ghost head = s@;
            assert(head =~= failed_prefix(path@, name@, took@));
            let text = render_error(e);
            s.append(text.as_str());
            assert(s@.subrange(0, head.len() as int) =~= head);
            (true, s)
        },
        _ => {
            s.append("ok in ");
            s.append(took.as_str());
            assert(s@ =~= ok_line(path@, name@, took@));
            (false, s)
        },
    }
}

/// Whether `result` is what running `info` gave with invoker `invoke`: the
/// info itself, and the settled outcome and the time of one report that the
/// invoker can give for the body.
pub open spec fn reported_by<V, R, X: Fn(TestFunction<V, R>) -> (Invocation, Elapsed)>(
    invoke: X,
    info: TestInfo<V, R>,
    result: TestResult<V, R>,
) -> bool {
    &&& result.info == info
    &&& exists|o: (Invocation, Elapsed)|
        invoke.ensures((info.func,), o) && result.res == settled(o.0) && result.duration == o.1
}

/// The results of the tests of one module, in registration order.
pub struct ModuleResults<V, R> {
    pub path: String,
    pub results: Vec<TestResult<V, R>>,
}

/// What the engine does for one test, as it happens: calls of the hooks and
/// of the invoker, and lines handed to the log sink.
pub enum Event<V, R> {
    /// The pre-setup hook was called with this info.
    InitDb(TestInfo<V, R>),
    /// The pre-test hook was called with this info.
    Start(TestInfo<V, R>),
    /// The invoker was called on this body.
    Execute(TestFunction<V, R>),
    /// The log sink got this line, flagged as an error or not.
    Log(bool, Seq<char>),
    /// The post-test hook was called with a result of this info and duration,
    /// with or without an outcome, passing or not.
    End(TestInfo<V, R>, Elapsed, bool, bool),
}

/// The events of one test whose result is `result` and whose log line is
/// `line`: the pre-setup hook where the test asks for it and the hook is
/// installed, the pre-test hook where installed, the one call of the body, its
/// log line, and the post-test hook where installed.
pub open spec fn test_events<V, R>(
    info: TestInfo<V, R>,
    has_init_db: bool,
    has_start: bool,
    has_end: bool,
    result: TestResult<V, R>,
    line: Seq<char>,
) -> Seq<Event<V, R>> {
    (if info.init_db && has_init_db { seq![Event::InitDb(info)] } else { Seq::empty() })
        + (if has_start { seq![Event::Start(info)] } else { Seq::empty() })
        + seq![Event::Execute(info.func), Event::Log(!passed(result.res), line)]
        + (if has_end {
            seq![Event::End(result.info, result.duration, result.res.is_some(), passed(result.res))]
        } else {
            Seq::empty()
        })
}

/// The log line of a finished test: the success line where it passed, else a
/// line that starts with the failure prefix.
pub open spec fn log_line_ok<V, R>(result: TestResult<V, R>, line: Seq<char>) -> bool {
    let p = result.info.path@;
    let n = result.info.name@;
    let took = took_text(result.duration);
    &&& passed(result.res) ==> line == ok_line(p, n, took)
    &&& !passed(result.res) ==> line.len() >= failed_prefix(p, n, took).len() && line.subrange(
        0,
        failed_prefix(p, n, took).len() as int,
    ) == failed_prefix(p, n, took)
}

/// Whether `events` is what the engine does for `info` with hooks installed as
/// the flags say, given its result.
pub open spec fn test_trace_ok<V, R>(
    events: Seq<Event<V, R>>,
    info: TestInfo<V, R>,
    has_init_db: bool,
    has_start: bool,
    has_end: bool,
    result: TestResult<V, R>,
) -> bool {
    exists|line: Seq<char>|
        events == test_events(info, has_init_db, has_start, has_end, result, line) && log_line_ok(
            result,
            line,
        )
}

/// For every test: the body is called exactly once; an installed pre-test hook
/// is called exactly once, with the test's info, before the body; the log line
/// follows the body; an installed post-test hook is called exactly once, last,
/// with the test's info and duration and an outcome of the same kind; the
/// pre-setup hook is called first, with the test's info, where the test asks
/// for setup, and never where it does not.
pub proof fn law_hook_order<V, R>(
    info: TestInfo<V, R>,
    has_init_db: bool,
    has_start: bool,
    has_end: bool,
    result: TestResult<V, R>,
    line: Seq<char>,
)
    ensures
        ({
            let s = test_events(info, has_init_db, has_start, has_end, result, line);
            let at = (if info.init_db && has_init_db { 1int } else { 0int }) + (if has_start { 1int } else { 0int });
            &&& s[at] == Event::<V, R>::Execute(info.func)
            &&& forall|i: int| 0 <= i < s.len() && #[trigger] s[i] is Execute ==> i == at
            &&& s[at + 1] is Log
            &&& forall|i: int| 0 <= i < s.len() && #[trigger] s[i] is Log ==> i == at + 1
            &&& has_start ==> s[at - 1] == Event::<V, R>::Start(info)
            &&& forall|i: int| 0 <= i < s.len() && #[trigger] s[i] is Start ==> has_start && i == at - 1
            &&& has_end ==> s.len() == at + 3 && s[at + 2] == Event::<V, R>::End(
                result.info,
                result.duration,
                result.res.is_some(),
                passed(result.res),
            )
            &&& !has_end ==> s.len() == at + 2
            &&& forall|i: int| 0 <= i < s.len() && #[trigger] s[i] is End ==> has_end && i == at + 2
            &&& info.init_db && has_init_db ==> s[0] == Event::<V, R>::InitDb(info)
            &&& forall|i: int| 0 <= i < s.len() && #[trigger] s[i] is InitDb ==> info.init_db && has_init_db && i == 0
        }),
{
    let s = test_events(info, has_init_db, has_start, has_end, result, line);
    let a: Seq<Event<V, R>> = if info.init_db && has_init_db { seq![Event::InitDb(info)] } else { Seq::empty() };
    let b: Seq<Event<V, R>> = if has_start { seq![Event::Start(info)] } else { Seq::empty() };
    let m: Seq<Event<V, R>> = seq![Event::Execute(info.func), Event::Log(!passed(result.res), line)];
    let c: Seq<Event<V, R>> = if has_end {
        seq![Event::End(result.info, result.duration, result.res.is_some(), passed(result.res))]
    } else {
        Seq::empty()
    };
    assert(s == a + b + m + c);
    let at = a.len() + b.len();
    assert forall|i: int| 0 <= i < s.len() implies (if i < a.len() {
        s[i] == a[i]
    } else if i < at {
        s[i] == b[i - a.len()]
    } else if i < at + 2 {
        s[i] == m[i - at]
    } else {
        s[i] == c[i - at - 2]
    }) by {}
}

/// Whether the hooks installed in `hooks` were the ones called for a test of
/// `info` whose result is `result`: each called hook's own postcondition holds
/// of the argument it got.
pub open spec fn hooks_called<V, R, I: Fn(TestInfo<V, R>), E: Fn(TestResult<V, R>)>(
    hooks: Hooks<I, E>,
    info: TestInfo<V, R>,
    result: TestResult<V, R>,
) -> bool {
    &&& info.init_db && hooks.init_db is Some ==> hooks.init_db->0.ensures((info,), ())
    &&& hooks.start is Some ==> hooks.start->0.ensures((info,), ())
    &&& hooks.end is Some ==> exists|d: TestResult<V, R>|
        d.info == result.info && d.duration == result.duration && d.res.is_none() == result.res.is_none()
            && passed(d.res) == passed(result.res) && hooks.end->0.ensures((d,), ())
}

/// Runs one test: the hooks around it, one call of the invoker, one log line.
fn run_one<V: Copy, R: Copy, I: Fn(TestInfo<V, R>), E: Fn(TestResult<V, R>), X: Fn(TestFunction<V, R>) -> (Invocation, Elapsed), L: Fn(bool, String)>(
    info: &TestInfo<V, R>,
    hooks: &Hooks<I, E>,
    invoke: &X,
    log: &L,
) -> (r: (TestResult<V, R>, Ghost<Seq<Event<V, R>>>))
    requires
        forall|i: TestInfo<V, R>| hooks.init_db is Some ==> hooks.init_db->0.requires((i,)),
        forall|i: TestInfo<V, R>| hooks.start is Some ==> hooks.start->0.requires((i,)),
        forall|t: TestResult<V, R>| hooks.end is Some ==> hooks.end->0.requires((t,)),
        forall|f: TestFunction<V, R>| invoke.requires((f,)),
        forall|f: TestFunction<V, R>, o: (Invocation, Elapsed)| invoke.ensures((f,), o) ==> o.1.wf(),
        forall|b: bool, s: String| log.requires((b, s)),
    ensures
        reported_by(*invoke, *info, r.0),
        test_trace_ok(
            r.1@,
            *info,
            hooks.init_db.is_some(),
            hooks.start.is_some(),
            hooks.end.is_some(),
            r.0,
        ),
        hooks_called(*hooks, *info, r.0),
{
    let ghost mut events: Seq<Event<V, R>> = Seq::empty();
    if info.init_db {
        if let Some(hook) = &hooks.init_db {
            let given = info.duplicate();
            proof {
                events = events.push(Event::InitDb(given));
            }
            hook(given);
        }
    }
    if let Some(hook) = &hooks.start {
        let given = info.duplicate();
        proof {
            events = events.push(Event::Start(given));
        }
        hook(given);
    }
    let out = invoke(info.func);
    proof {
        events = events.push(Event::Execute(info.func));
    }
    let ghost report = out;
    let (raw, duration) = out;
    let res = settle(raw);
    let took = duration_to_str(&duration);
    let (failed, line) = report_line(&info.path, &info.name, &took, &res);
    let ghost text = line@;
    proof {
        events = events.push(Event::Log(failed, line@));
    }
    log(failed, line);
    let result = TestResult { info: info.duplicate(), res, duration };
    assert(invoke.ensures((info.func,), report) && result.res == settled(report.0) && result.duration
        == report.1);
    if let Some(hook) = &hooks.end {
        let given = result.detached();
        let ghost handed = given;
        proof {
            events = events.push(
                Event::End(given.info, given.duration, given.res.is_some(), passed(given.res)),
            );
        }
        hook(given);
        assert(hooks.end->0.ensures((handed,), ()));
    }
    assert(events =~= test_events(
        *info,
        hooks.init_db.is_some(),
        hooks.start.is_some(),
        hooks.end.is_some(),
        result,
        text,
    ));
    assert(took@ == took_text(result.duration));
    assert(log_line_ok(result, text));
    (result, Ghost(events))
}

/// What `run` reports for registry contents `v`: one module of results per
/// registered module, in the same (ascending) order and with the same path,
/// and per test, in registration order, what the invoker reported for it.
pub open spec fn run_post<V, R, X: Fn(TestFunction<V, R>) -> (Invocation, Elapsed)>(
    v: Seq<ModuleView<V, R>>,
    invoke: X,
    r: Seq<ModuleResults<V, R>>,
) -> bool {
    &&& r.len() == v.len()
    &&& forall|m: int| 0 <= m < r.len() ==> (#[trigger] r[m]).path@ == v[m].0
    &&& forall|m: int| 0 <= m < r.len() ==> (#[trigger] r[m]).results@.len() == v[m].1.len()
    &&& forall|m: int, t: int|
        0 <= m < r.len() && 0 <= t < r[m].results@.len() ==> reported_by(
            invoke,
            v[m].1[t],
            #[trigger] r[m].results@[t],
        )
    &&& forall|m: int, n: int| 0 <= m < n < r.len() ==> path_lt(#[trigger] r[m].path@, #[trigger] r[n].path@)
}

/// The tests registered under a path come back from a run as one list of
/// results of the same length, in registration order, each the settled report
/// of the invoker for that test; a path with no tests has no list.
pub proof fn law_results_follow_registration<V, R, X: Fn(TestFunction<V, R>) -> (Invocation, Elapsed)>(
    v: Seq<ModuleView<V, R>>,
    invoke: X,
    r: Seq<ModuleResults<V, R>>,
    path: Seq<char>,
)
    requires
        modules_wf(v),
        run_post(v, invoke, r),
    ensures
        tests_at(v, path).len() > 0 ==> exists|m: int|
            0 <= m < r.len() && #[trigger] r[m].path@ == path && r[m].results@.len() == tests_at(v, path).len()
                && forall|t: int|
                0 <= t < tests_at(v, path).len() ==> #[trigger] r[m].results@[t].info == tests_at(v, path)[t]
                    && reported_by(invoke, tests_at(v, path)[t], r[m].results@[t]),
        tests_at(v, path).len() == 0 ==> forall|m: int| 0 <= m < r.len() ==> #[trigger] r[m].path@ != path,
{
    if exists|i: int| 0 <= i < v.len() && v[i].0 == path {
        let m = choose|i: int| 0 <= i < v.len() && v[i].0 == path;
        lemma_tests_at_index(v, m);
        assert(r[m].path@ == path);
        assert forall|t: int| 0 <= t < tests_at(v, path).len() implies #[trigger] r[m].results@[t].info
            == tests_at(v, path)[t] && reported_by(invoke, tests_at(v, path)[t], r[m].results@[t]) by {
            assert(reported_by(invoke, v[m].1[t], r[m].results@[t]));
        }
    } else {
        assert forall|m: int| 0 <= m < r.len() implies #[trigger] r[m].path@ != path by {
            assert(r[m].path@ == v[m].0);
        }
    }
}

/// The sequences of `s`, one after another.
pub open spec fn concat_all<A>(s: Seq<Seq<A>>) -> Seq<A>
    decreases s.len(),
{
    if s.len() == 0 {
        Seq::empty()
    } else {
        concat_all(s.drop_last()) + s.last()
    }
}

/// The events of a whole run in the order they happen, from their grouping by
/// module and, within a module, by test.
pub open spec fn chronology<V, R>(groups: Seq<Seq<Seq<Event<V, R>>>>) -> Seq<Event<V, R>> {
    concat_all(groups.map_values(|g: Seq<Seq<Event<V, R>>>| concat_all(g)))
}

/// Whether `groups` holds, per registered module and per test in it, the
/// events that the engine owes that test given its result in `r`.
pub open spec fn run_trace_ok<V, R>(
    v: Seq<ModuleView<V, R>>,
    has_init_db: bool,
    has_start: bool,
    has_end: bool,
    r: Seq<ModuleResults<V, R>>,
    groups: Seq<Seq<Seq<Event<V, R>>>>,
) -> bool {
    &&& groups.len() == v.len()
    &&& forall|m: int| 0 <= m < v.len() ==> (#[trigger] groups[m]).len() == v[m].1.len()
    &&& forall|m: int, t: int|
        0 <= m < v.len() && 0 <= t < v[m].1.len() ==> test_trace_ok(
            #[trigger] groups[m][t],
            v[m].1[t],
            has_init_db,
            has_start,
            has_end,
            r[m].results@[t],
        )
}

proof fn lemma_concat_push<A>(s: Seq<Seq<A>>, x: Seq<A>)
    ensures
        concat_all(s.push(x)) == concat_all(s) + x,
{
    assert(s.push(x).drop_last() =~= s);
}

/// Runs every registered test once: modules in ascending path order, the tests
/// of a module in registration order. No failure or fault stops the run.
/// `invoke` calls a test body and `log` receives each log line and whether it
/// is an error. Besides the results it returns the events of the run in the
/// order they happened: for each module in turn, for each of its tests in
/// turn, the events of `test_events`.
pub fn run<
    V: Copy,
    R: Copy,
    I: Fn(TestInfo<V, R>),
    E: Fn(TestResult<V, R>),
    X: Fn(TestFunction<V, R>) -> (Invocation, Elapsed),
    L: Fn(bool, String),
>(registry: &Registry<V, R>, hooks: &Hooks<I, E>, invoke: X, log: L) -> (r: (
    Vec<ModuleResults<V, R>>,
    Ghost<Seq<Event<V, R>>>,
))
    requires
        forall|i: TestInfo<V, R>| hooks.init_db is Some ==> hooks.init_db->0.requires((i,)),
        forall|i: TestInfo<V, R>| hooks.start is Some ==> hooks.start->0.requires((i,)),
        forall|t: TestResult<V, R>| hooks.end is Some ==> hooks.end->0.requires((t,)),
        forall|f: TestFunction<V, R>| invoke.requires((f,)),
        forall|f: TestFunction<V, R>, o: (Invocation, Elapsed)| invoke.ensures((f,), o) ==> o.1.wf(),
        forall|b: bool, s: String| log.requires((b, s)),
    ensures
        run_post(registry@, invoke, r.0@),
        exists|groups: Seq<Seq<Seq<Event<V, R>>>>|
            run_trace_ok(
                registry@,
                hooks.init_db.is_some(),
                hooks.start.is_some(),
                hooks.end.is_some(),
                r.0@,
                groups,
            ) && r.1@ == chronology(groups),
        forall|m: int, t: int|
            0 <= m < registry@.len() && 0 <= t < registry@[m].1.len() ==> hooks_called(
                *hooks,
                registry@[m].1[t],
                #[trigger] r.0@[m].results@[t],
            ),
{
    let modules = registry.snapshot();
    let ghost v = registry@;
    let ghost hi = hooks.init_db.is_some();
    let ghost hs = hooks.start.is_some();
    let ghost he = hooks.end.is_some();
    let ghost mut done: Seq<Seq<Seq<Event<V, R>>>> = Seq::empty();
    let ghost mut trace: Seq<Event<V, R>> = Seq::empty();
    let mut out: Vec<ModuleResults<V, R>> = Vec::new();
    let mut m: usize = 0;
    while m < modules.len()
        invariant
            modules_view(modules@) == v,
            modules_wf(v),
            hi == hooks.init_db.is_some(),
            hs == hooks.start.is_some(),
            he == hooks.end.is_some(),
            m <= modules@.len(),
            out@.len() == m,
            done.len() == m,
            trace == chronology(done),
            forall|a: int| 0 <= a < m ==> (#[trigger] out@[a]).path@ == v[a].0,
            forall|a: int| 0 <= a < m ==> (#[trigger] out@[a]).results@.len() == v[a].1.len(),
            forall|a: int| 0 <= a < m ==> (#[trigger] done[a]).len() == v[a].1.len(),
            forall|a: int, t: int|
                0 <= a < m && 0 <= t < out@[a].results@.len() ==> reported_by(
                    invoke,
                    v[a].1[t],
                    #[trigger] out@[a].results@[t],
                ),
            forall|a: int, t: int|
                0 <= a < m && 0 <= t < v[a].1.len() ==> hooks_called(
                    *hooks,
                    v[a].1[t],
                    #[trigger] out@[a].results@[t],
                ),
            forall|a: int, t: int|
                0 <= a < m && 0 <= t < v[a].1.len() ==> test_trace_ok(
                    #[trigger] done[a][t],
                    v[a].1[t],
                    hi,
                    hs,
                    he,
                    out@[a].results@[t],
                ),
            forall|i: TestInfo<V, R>| hooks.init_db is Some ==> hooks.init_db->0.requires((i,)),
            forall|i: TestInfo<V, R>| hooks.start is Some ==> hooks.start->0.requires((i,)),
            forall|t: TestResult<V, R>| hooks.end is Some ==> hooks.end->0.requires((t,)),
            forall|f: TestFunction<V, R>| invoke.requires((f,)),
            forall|f: TestFunction<V, R>, o: (Invocation, Elapsed)| invoke.ensures((f,), o) ==> o.1.wf(),
            forall|b: bool, s: String| log.requires((b, s)),
        decreases modules@.len() - m,
    {
        let module = &modules[m];
        assert(module.tests@ == v[m as int].1 && module.path@ == v[m as int].0);
        let ghost mut cur: Seq<Seq<Event<V, R>>> = Seq::empty();
        let mut results: Vec<TestResult<V, R>> = Vec::new();
        let mut t: usize = 0;
        while t < module.tests.len()
            invariant
                module.tests@ == v[m as int].1,
                hi == hooks.init_db.is_some(),
                hs == hooks.start.is_some(),
                he == hooks.end.is_some(),
                t <= module.tests@.len(),
                results@.len() == t,
                cur.len() == t,
                trace == chronology(done) + concat_all(cur),
                forall|u: int| 0 <= u < t ==> reported_by(invoke, v[m as int].1[u], #[trigger] results@[u]),
                forall|u: int| 0 <= u < t ==> hooks_called(*hooks, v[m as int].1[u], #[trigger] results@[u]),
                forall|u: int|
                    0 <= u < t ==> test_trace_ok(#[trigger] cur[u], v[m as int].1[u], hi, hs, he, results@[u]),
                forall|i: TestInfo<V, R>| hooks.init_db is Some ==> hooks.init_db->0.requires((i,)),
                forall|i: TestInfo<V, R>| hooks.start is Some ==> hooks.start->0.requires((i,)),
                forall|t: TestResult<V, R>| hooks.end is Some ==> hooks.end->0.requires((t,)),
                forall|f: TestFunction<V, R>| invoke.requires((f,)),
                forall|f: TestFunction<V, R>, o: (Invocation, Elapsed)| invoke.ensures((f,), o) ==> o.1.wf(),
                forall|b: bool, s: String| log.requires((b, s)),
            decreases module.tests@.len() - t,
        {
            let (result, events) = run_one(&module.tests[t], hooks, &invoke, &log);
            proof {
                lemma_concat_push(cur, events@);
                assert(trace + events@ =~= chronology(done) + concat_all(cur.push(events@)));
                trace = trace + events@;
                cur = cur.push(events@);
            }
            results.push(result);
            t = t + 1;
        }
        proof {
            let f = |g: Seq<Seq<Event<V, R>>>| concat_all(g);
            assert(done.push(cur).map_values(f) =~= done.map_values(f).push(f(cur)));
            lemma_concat_push(done.map_values(f), f(cur));
            done = done.push(cur);
        }
        out.push(ModuleResults { path: module.path.clone(), results });
        m = m + 1;
    }
    proof {
        assert forall|a: int, b: int| 0 <= a < b < out@.len() implies path_lt(
            #[trigger] out@[a].path@,
            #[trigger] out@[b].path@,
        ) by {
            assert(path_lt(v[a].0, v[b].0));
        }
        assert(run_trace_ok(v, hi, hs, he, out@, done));
    }
    (out, Ghost(trace))
}

} // verus!
