use backend::run::{PlanRunner, Step};
use backend::sql::{Batch, SqlValue};

fn batch(rows: usize) -> Batch {
    Batch {
        sql: "S".to_string(),
        param_rows: (0..rows).map(|i| vec![SqlValue::Integer(i as i64)]).collect(),
    }
}

#[test]
fn successful_run_takes_every_step_in_order() {
    let plan = vec![batch(2), batch(0), batch(1)];
    let mut runner = PlanRunner::new(&plan);
    let mut seen = Vec::new();
    loop {
        let step = runner.current();
        if step == Step::Finished || step == Step::Failed {
            seen.push(step);
            break;
        }
        seen.push(step);
        runner.report(true);
    }
    assert_eq!(
        seen,
        vec![
            Step::Prepare(0),
            Step::Execute(0, 0),
            Step::Execute(0, 1),
            Step::Prepare(1),
            Step::Prepare(2),
            Step::Execute(2, 0),
            Step::Finished,
        ]
    );
}

#[test]
fn empty_plan_is_finished_at_once() {
    let runner = PlanRunner::new(&Vec::new());
    assert_eq!(runner.current(), Step::Finished);
}

#[test]
fn failure_stops_the_run() {
    let plan = vec![batch(3), batch(1)];
    let mut runner = PlanRunner::new(&plan);
    runner.report(true);
    assert_eq!(runner.current(), Step::Execute(0, 0));
    runner.report(false);
    assert_eq!(runner.current(), Step::Failed);
    runner.report(true);
    assert_eq!(runner.current(), Step::Failed);
}

#[test]
fn finished_run_stays_finished() {
    let plan = vec![batch(0)];
    let mut runner = PlanRunner::new(&plan);
    assert_eq!(runner.current(), Step::Prepare(0));
    runner.report(true);
    assert_eq!(runner.current(), Step::Finished);
    runner.report(false);
    assert_eq!(runner.current(), Step::Finished);
}
