use std::cell::RefCell;
use std::rc::Rc;

use tarantool_test::duration::{duration_to_str, render_duration, Elapsed};
use tarantool_test::engine::{report_line, run, settle, Invocation, ModuleResults};
use tarantool_test::hooks::{set_init_db_hook, set_test_end_hook, set_test_start_hook, Hooks};
use tarantool_test::model::{detach_outcome, TestFunction, TestInfo, TestResult};
use tarantool_test::order::{compare_paths, PathOrder};
use tarantool_test::registry::{__collect_test_void, __collect_test_with_result, collect_test, Registry};

type Void = fn();
type Fallible = fn() -> Result<(), anyhow::Error>;
type Func = TestFunction<Void, Fallible>;
type Info = TestInfo<Void, Fallible>;
type Outcome = TestResult<Void, Fallible>;

fn passes() {}

fn faults() {
    panic!("fault inside a test");
}

fn returns_ok() -> Result<(), anyhow::Error> {
    Ok(())
}

fn returns_err() -> Result<(), anyhow::Error> {
    Err(anyhow::Error::msg("returned failure"))
}

fn quick() -> Elapsed {
    Elapsed::new(0, 1_500_000)
}

/// Calls the body; a `Void` body that is `faults` is reported as a fault
/// instead of being called, so that no panic happens inside the test process.
fn invoke(f: Func) -> (Invocation, Elapsed) {
    match f {
        TestFunction::Void(g) => {
            if g as usize == faults as Void as usize {
                (Err(anyhow::Error::msg("fault inside a test")), quick())
            } else {
                g();
                (Ok(None), quick())
            }
        }
        TestFunction::Result(g) => (Ok(Some(g())), quick()),
    }
}

fn no_hooks() -> Hooks<fn(Info), fn(Outcome)> {
    Hooks::new()
}

fn run_plain(registry: &Registry<Void, Fallible>) -> Vec<ModuleResults<Void, Fallible>> {
    run(registry, &no_hooks(), invoke, |_: bool, _: String| {}).0
}

#[test]
fn formats_microseconds() {
    assert_eq!(duration_to_str(&Elapsed::new(0, 5_000_000)), "5000us");
    assert_eq!(duration_to_str(&Elapsed::new(0, 0)), "0us");
    assert_eq!(duration_to_str(&Elapsed::new(0, 9_999_999)), "9999us");
}

#[test]
fn formats_milliseconds() {
    assert_eq!(duration_to_str(&Elapsed::new(0, 250_000_000)), "250ms");
    assert_eq!(duration_to_str(&Elapsed::new(0, 10_000_000)), "10ms");
    assert_eq!(duration_to_str(&Elapsed::new(0, 999_999_999)), "999ms");
}

#[test]
fn formats_seconds() {
    assert_eq!(duration_to_str(&Elapsed::new(45, 0)), "45s");
    assert_eq!(duration_to_str(&Elapsed::new(1, 0)), "1s");
    assert_eq!(duration_to_str(&Elapsed::new(59, 999_999_999)), "59s");
}

#[test]
fn formats_minutes_humanized() {
    assert_eq!(duration_to_str(&Elapsed::new(125, 0)), "in 2 minutes");
}

#[test]
fn formats_unrepresentable_as_fractional_minutes() {
    assert_eq!(duration_to_str(&Elapsed::new(u64::MAX, 0)), "307445734561825860.25min");
}

#[test]
fn render_uses_phrase_only_from_a_minute() {
    let phrase = Some("a while".to_string());
    assert_eq!(render_duration(&Elapsed::new(125, 0), phrase.clone()), "a while");
    assert_eq!(render_duration(&Elapsed::new(59, 0), phrase), "59s");
    assert_eq!(render_duration(&Elapsed::new(150, 0), None), "2.50min");
}

#[test]
fn orders_paths_as_strings() {
    assert!(matches!(compare_paths("a::b", "a::c"), PathOrder::Less));
    assert!(matches!(compare_paths("a", "a::b"), PathOrder::Less));
    assert!(matches!(compare_paths("b", "a::z"), PathOrder::Greater));
    assert!(matches!(compare_paths("mod", "mod"), PathOrder::Equal));
    assert!(matches!(compare_paths("Z", "a"), PathOrder::Less));
}

#[test]
fn same_path_keeps_registration_order() {
    let mut registry: Registry<Void, Fallible> = Registry::new();
    for name in ["first", "second", "third", "fourth"] {
        __collect_test_void(&mut registry, "suite::module", name, passes, false);
    }
    let modules = run_plain(&registry);
    assert_eq!(modules.len(), 1);
    assert_eq!(modules[0].path, "suite::module");
    let names: Vec<&str> = modules[0].results.iter().map(|r| r.info.name.as_str()).collect();
    assert_eq!(names, vec!["first", "second", "third", "fourth"]);
}

#[test]
fn duplicate_registrations_both_run() {
    let mut registry: Registry<Void, Fallible> = Registry::new();
    __collect_test_void(&mut registry, "m", "twice", passes, false);
    __collect_test_void(&mut registry, "m", "twice", passes, false);
    let modules = run_plain(&registry);
    assert_eq!(modules[0].results.len(), 2);
}

#[test]
fn modules_come_out_in_ascending_order() {
    let mut registry: Registry<Void, Fallible> = Registry::new();
    for path in ["zeta", "alpha::inner", "mid", "alpha", "beta"] {
        __collect_test_void(&mut registry, path, "t", passes, false);
    }
    let modules = run_plain(&registry);
    let paths: Vec<&str> = modules.iter().map(|m| m.path.as_str()).collect();
    assert_eq!(paths, vec!["alpha", "alpha::inner", "beta", "mid", "zeta"]);
}

#[test]
fn void_test_has_no_result() {
    let mut registry: Registry<Void, Fallible> = Registry::new();
    __collect_test_void(&mut registry, "m", "plain", passes, true);
    let lines: Rc<RefCell<Vec<(bool, String)>>> = Rc::new(RefCell::new(Vec::new()));
    let sink = lines.clone();
    let modules = run(&registry, &no_hooks(), invoke, move |e: bool, s: String| sink.borrow_mut().push((e, s))).0;
    let r = &modules[0].results[0];
    assert!(r.res.is_none());
    assert!(r.info.init_db);
    assert!(matches!(r.info.func, TestFunction::Void(_)));
    assert_eq!(lines.borrow().len(), 1);
    assert!(!lines.borrow()[0].0);
    assert_eq!(lines.borrow()[0].1, "test [m::plain] is ok in 1500us");
}

#[test]
fn fallible_results_are_kept() {
    let mut registry: Registry<Void, Fallible> = Registry::new();
    __collect_test_with_result(&mut registry, "m", "good", returns_ok, false);
    __collect_test_with_result(&mut registry, "m", "bad", returns_err, false);
    let modules = run_plain(&registry);
    let good = &modules[0].results[0];
    let bad = &modules[0].results[1];
    assert!(matches!(good.res, Some(Ok(()))));
    match &bad.res {
        Some(Err(e)) => assert_eq!(e.to_string(), "returned failure"),
        _ => panic!("expected an error"),
    }
}

#[test]
fn fault_is_isolated_and_next_test_runs() {
    let mut registry: Registry<Void, Fallible> = Registry::new();
    __collect_test_void(&mut registry, "m", "a_faults", faults, false);
    __collect_test_with_result(&mut registry, "m", "b_after", returns_ok, false);
    let lines: Rc<RefCell<Vec<(bool, String)>>> = Rc::new(RefCell::new(Vec::new()));
    let sink = lines.clone();
    let modules = run(&registry, &no_hooks(), invoke, move |e: bool, s: String| sink.borrow_mut().push((e, s))).0;
    let results = &modules[0].results;
    assert_eq!(results.len(), 2);
    match &results[0].res {
        Some(Err(e)) => assert_eq!(e.to_string(), "fault inside a test"),
        _ => panic!("expected a fault"),
    }
    assert!(matches!(results[1].res, Some(Ok(()))));
    assert!(lines.borrow()[0].0);
    assert!(lines.borrow()[0].1.starts_with("test [m::a_faults] is failed in 1500us! err: "));
    assert!(!lines.borrow()[1].0);
}

#[test]
fn settle_maps_faults_to_errors() {
    assert!(settle(Ok(None)).is_none());
    assert!(matches!(settle(Ok(Some(Ok(())))), Some(Ok(()))));
    match settle(Err(anyhow::Error::msg(""))) {
        Some(Err(e)) => assert_eq!(e.to_string(), ""),
        _ => panic!("a fault must fail"),
    }
}

#[test]
fn hooks_wrap_each_test() {
    let events: Rc<RefCell<Vec<String>>> = Rc::new(RefCell::new(Vec::new()));
    let mut hooks: Hooks<Box<dyn Fn(Info)>, Box<dyn Fn(Outcome)>> = Hooks::new();
    let e1 = events.clone();
    set_init_db_hook(&mut hooks, Box::new(move |i: Info| e1.borrow_mut().push(format!("init {}", i.name))));
    let e2 = events.clone();
    set_test_start_hook(&mut hooks, Box::new(move |i: Info| e2.borrow_mut().push(format!("start {}", i.name))));
    let e3 = events.clone();
    set_test_end_hook(
        &mut hooks,
        Box::new(move |r: Outcome| e3.borrow_mut().push(format!("end {} {}", r.info.name, r.res.is_some()))),
    );
    let mut registry: Registry<Void, Fallible> = Registry::new();
    __collect_test_void(&mut registry, "m", "with_db", passes, true);
    __collect_test_with_result(&mut registry, "m", "without_db", returns_ok, false);
    let e4 = events.clone();
    let modules = run(
        &registry,
        &hooks,
        move |f: Func| {
            e4.borrow_mut().push("body".to_string());
            invoke(f)
        },
        |_: bool, _: String| {},
    )
    .0;
    assert_eq!(modules[0].results.len(), 2);
    assert_eq!(
        *events.borrow(),
        vec![
            "init with_db",
            "start with_db",
            "body",
            "end with_db false",
            "start without_db",
            "body",
            "end without_db true",
        ]
    );
}

#[test]
fn replacing_a_hook_drops_the_old_one() {
    let mut hooks: Hooks<u8, u8> = Hooks::new();
    set_test_start_hook(&mut hooks, 1);
    set_test_start_hook(&mut hooks, 2);
    assert_eq!(hooks.start, Some(2));
    assert_eq!(hooks.init_db, None);
    assert_eq!(hooks.end, None);
}

#[test]
fn clone_detaches_errors() {
    let info: Info = TestInfo { init_db: false, name: "n".to_string(), path: "p".to_string(), func: TestFunction::Result(returns_err) };
    let failing = TestResult { info: info.clone(), res: Some(Err(anyhow::Error::msg("original text"))), duration: quick() };
    let copy = failing.clone();
    match &copy.res {
        Some(Err(e)) => {
            assert!(e.to_string().contains("original text"));
            assert!(e.downcast_ref::<&str>().is_none());
        }
        _ => panic!("a failure must stay a failure"),
    }
    assert_eq!(copy.info.name, "n");
    assert_eq!(copy.duration, quick());
    let passing = TestResult { info, res: Some(Ok(())), duration: quick() };
    assert!(matches!(passing.clone().res, Some(Ok(()))));
    assert!(detach_outcome(&None).is_none());
}

#[test]
fn report_line_texts() {
    let ok = report_line(&"a::b".to_string(), &"t".to_string(), &"5ms".to_string(), &None);
    assert_eq!(ok, (false, "test [a::b::t] is ok in 5ms".to_string()));
    let failed = report_line(&"a".to_string(), &"t".to_string(), &"2s".to_string(), &Some(Err(anyhow::Error::msg("bad"))));
    assert!(failed.0);
    assert!(failed.1.starts_with("test [a::t] is failed in 2s! err: bad"));
}

#[test]
fn collect_test_builds_info() {
    let mut registry: Registry<Void, Fallible> = Registry::new();
    collect_test(&mut registry, "x", "y", TestFunction::Void(passes), true);
    let snap = registry.snapshot();
    assert_eq!(snap.len(), 1);
    assert_eq!(snap[0].tests[0].path, "x");
    assert_eq!(snap[0].tests[0].name, "y");
    assert!(snap[0].tests[0].init_db);
}

#[test]
fn registration_order_across_modules_does_not_matter() {
    let mut one: Registry<Void, Fallible> = Registry::new();
    __collect_test_void(&mut one, "b", "x", passes, false);
    __collect_test_void(&mut one, "a", "y", passes, false);
    __collect_test_void(&mut one, "b", "z", passes, false);
    let mut two: Registry<Void, Fallible> = Registry::new();
    __collect_test_void(&mut two, "a", "y", passes, false);
    __collect_test_void(&mut two, "b", "x", passes, false);
    __collect_test_void(&mut two, "b", "z", passes, false);
    let flatten = |modules: Vec<ModuleResults<Void, Fallible>>| -> Vec<(String, String)> {
        modules
            .into_iter()
            .flat_map(|m| m.results.into_iter().map(move |r| (m.path.clone(), r.info.name)))
            .collect()
    };
    let first = flatten(run_plain(&one));
    assert_eq!(first, flatten(run_plain(&two)));
    assert_eq!(
        first,
        vec![("a".to_string(), "y".to_string()), ("b".to_string(), "x".to_string()), ("b".to_string(), "z".to_string())]
    );
}
