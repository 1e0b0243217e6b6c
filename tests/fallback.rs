use deskd::fallback::InputMethod::{Libei, Portal, XTest, Ydotool};
use deskd::fallback::{
    AttemptOutcome, ClickButton, InputExecutor, InputMethod, InputMethodPriority, Step,
};

#[test]
fn test_input_method_priority() {
    let priority = InputMethodPriority::default_order();
    let methods: Vec<_> = priority.iter().collect();
    assert_eq!(*methods[0], InputMethod::Portal);
    assert_eq!(*methods[1], InputMethod::CompositorIPC);
}

#[test]
fn test_click_button_enum() {
    assert_eq!(ClickButton::Left, ClickButton::Left);
    assert_ne!(ClickButton::Left, ClickButton::Right);
}

/// Runs one operation, where `works` says which methods succeed.
fn run(exec: &mut InputExecutor, works: &[InputMethod]) -> (Vec<InputMethod>, Step) {
    let (mut inv, mut step) = exec.begin();
    let mut attempts = Vec::new();
    while let Step::Attempt(m) = step {
        attempts.push(m);
        let outcome = if works.contains(&m) {
            AttemptOutcome::Succeeded
        } else {
            AttemptOutcome::Failed
        };
        step = exec.advance(&mut inv, outcome);
    }
    (attempts, step)
}

#[test]
fn fallback_sticky_and_reprobe() {
    let mut exec = InputExecutor::new(InputMethodPriority::custom(vec![Portal, Libei, XTest]));
    let (attempts, step) = run(&mut exec, &[XTest]);
    assert_eq!(attempts, vec![Portal, Libei, XTest]);
    assert_eq!(step, Step::Done(XTest));
    assert_eq!(exec.working_method(), Some(XTest));

    let (attempts, step) = run(&mut exec, &[XTest]);
    assert_eq!(attempts, vec![XTest]);
    assert_eq!(step, Step::Done(XTest));

    let (attempts, step) = run(&mut exec, &[]);
    assert_eq!(attempts, vec![XTest, Portal, Libei]);
    assert_eq!(step, Step::Exhausted);
    assert_eq!(exec.working_method(), None);

    let (attempts, _) = run(&mut exec, &[]);
    assert_eq!(attempts, vec![Portal, Libei, XTest]);
}

#[test]
fn fallback_sticky_failure_moves_to_front() {
    let mut exec = InputExecutor::new(InputMethodPriority::custom(vec![Portal, Libei, XTest]));
    run(&mut exec, &[XTest]);
    let (attempts, step) = run(&mut exec, &[Libei]);
    assert_eq!(attempts, vec![XTest, Portal, Libei]);
    assert_eq!(step, Step::Done(Libei));
    assert_eq!(exec.working_method(), Some(Libei));
}

#[test]
fn fallback_fatal_aborts() {
    let mut exec = InputExecutor::new(InputMethodPriority::default_order());
    let (mut inv, step) = exec.begin();
    assert_eq!(step, Step::Attempt(Portal));
    let step = exec.advance(&mut inv, AttemptOutcome::Fatal);
    assert_eq!(step, Step::Aborted);
    assert_eq!(inv.tried(), &[Portal]);
    assert_eq!(exec.working_method(), None);
}

#[test]
fn fallback_empty_priority_is_exhausted() {
    let exec = InputExecutor::new(InputMethodPriority::custom(vec![]));
    let (inv, step) = exec.begin();
    assert_eq!(step, Step::Exhausted);
    assert!(inv.tried().is_empty());
}

#[test]
fn fallback_duplicate_methods_tried_once() {
    let mut exec = InputExecutor::new(InputMethodPriority::custom(vec![Portal, Portal, Ydotool]));
    let (attempts, step) = run(&mut exec, &[]);
    assert_eq!(attempts, vec![Portal, Ydotool]);
    assert_eq!(step, Step::Exhausted);
}
