use oh_my_shell::pipeline::{Orchestrator, PipeEnds};

fn sorted(mut v: Vec<i32>) -> Vec<i32> {
    v.sort();
    v
}

#[test]
fn three_stage_run_closes_every_pipe_end() {
    let mut o = Orchestrator::new(3);
    let mut opened: Vec<i32> = Vec::new();
    let mut closed: Vec<i32> = Vec::new();
    let pipes = [PipeEnds { read: 3, write: 4 }, PipeEnds { read: 5, write: 6 }];

    assert!(o.has_next() && o.needs_pipe());
    let p0 = Some(pipes[0]);
    let plan = o.plan_stage(p0);
    assert_eq!((plan.stage, plan.stdin, plan.stdout), (0, None, Some(4)));
    assert_eq!(plan.close, vec![3]);
    opened.extend([3, 4]);
    let c = o.spawned(p0, 100);
    assert_eq!(c, vec![4]);
    closed.extend(c);

    assert!(o.has_next() && o.needs_pipe());
    let p1 = Some(pipes[1]);
    let plan = o.plan_stage(p1);
    assert_eq!((plan.stage, plan.stdin, plan.stdout), (1, Some(3), Some(6)));
    assert_eq!(plan.close, vec![5]);
    opened.extend([5, 6]);
    let c = o.spawned(p1, 101);
    assert_eq!(c, vec![6, 3]);
    closed.extend(c);

    assert!(o.has_next() && !o.needs_pipe());
    let plan = o.plan_stage(None);
    assert_eq!((plan.stage, plan.stdin, plan.stdout), (2, Some(5), None));
    assert!(plan.close.is_empty());
    let c = o.spawned(None, 102);
    assert_eq!(c, vec![5]);
    closed.extend(c);

    assert!(!o.has_next());
    assert_eq!(sorted(opened), sorted(closed));
    assert_eq!(o.children(), &vec![100, 101, 102]);
}

#[test]
fn single_stage_needs_no_pipe() {
    let mut o = Orchestrator::new(1);
    assert!(o.has_next() && !o.needs_pipe());
    let plan = o.plan_stage(None);
    assert_eq!((plan.stdin, plan.stdout), (None, None));
    assert!(o.spawned(None, 42).is_empty());
    assert!(!o.has_next());
    assert_eq!(o.children(), &vec![42]);
}

#[test]
fn two_stage_run_keeps_both_children() {
    let mut o = Orchestrator::new(2);
    let p = Some(PipeEnds { read: 8, write: 9 });
    o.plan_stage(p);
    assert_eq!(o.spawned(p, 1), vec![9]);
    assert_eq!(o.plan_stage(None).stdin, Some(8));
    assert_eq!(o.spawned(None, 2), vec![8]);
    assert!(!o.has_next());
    assert_eq!(o.children().len(), 2);
}

#[test]
fn spawn_failure_closes_all_and_stops() {
    let mut o = Orchestrator::new(3);
    let p0 = Some(PipeEnds { read: 3, write: 4 });
    o.spawned(p0, 10);
    let p1 = Some(PipeEnds { read: 5, write: 6 });
    let c = o.spawn_failed(p1);
    assert_eq!(c, vec![5, 6, 3]);
    assert!(!o.has_next());
    assert_eq!(o.children(), &vec![10]);
}

#[test]
fn pipe_failure_closes_held_end_and_stops() {
    let mut o = Orchestrator::new(3);
    let p0 = Some(PipeEnds { read: 3, write: 4 });
    o.spawned(p0, 10);
    assert_eq!(o.pipe_failed(), vec![3]);
    assert!(!o.has_next());
    assert_eq!(o.children(), &vec![10]);
}
