use rustpad_server::database::{
    ConnectionError, Database, Progress, StartupAction, StartupStep, Statement, StepOutcome,
    MAX_CONNECTIONS,
};

fn failed(cause: &str) -> StepOutcome {
    StepOutcome::Failed(String::from(cause))
}

/// Runs a startup over the outcomes, and returns where it stands and the steps it took.
fn run(outcomes: Vec<StepOutcome>) -> (Progress, Vec<StartupStep>) {
    let mut taken = Vec::new();
    let mut startup = Database::new("postgres://db/pad");
    let mut outcomes = outcomes.into_iter();
    loop {
        let outcome = match outcomes.next() {
            Some(outcome) => outcome,
            None => return (Progress::Continue(startup), taken),
        };
        taken.push(startup.pending());
        match startup.advance(outcome) {
            Progress::Continue(next) => startup = next,
            ended => return (ended, taken),
        }
    }
}

#[test]
fn a_new_startup_opens_the_bounded_pool_first() {
    let startup = Database::new("postgres://db/pad");
    assert_eq!(startup.pending(), StartupStep::Connect);
    assert_eq!(MAX_CONNECTIONS, 5);
    assert_eq!(
        startup.action(),
        StartupAction::OpenPool { uri: String::from("postgres://db/pad"), max_connections: 5 }
    );
}

#[test]
fn the_steps_come_in_order_with_their_statements() {
    let mut startup = Database::new("postgres://db/pad");
    let expected = [
        (StartupStep::Probe, Statement::Probe),
        (StartupStep::EnsureSchema, Statement::EnsureSchema),
        (StartupStep::CheckTable, Statement::CheckTable),
    ];
    for (step, statement) in expected {
        startup = match startup.advance(StepOutcome::Succeeded) {
            Progress::Continue(next) => next,
            other => panic!("ended early: {:?}", other),
        };
        assert_eq!(startup.pending(), step);
        assert_eq!(startup.action(), StartupAction::Execute(statement));
    }
    assert!(matches!(startup.advance(StepOutcome::Succeeded), Progress::Ready(_)));
}

#[test]
fn all_steps_succeeding_yields_a_handle() {
    let (progress, taken) = run(vec![
        StepOutcome::Succeeded,
        StepOutcome::Succeeded,
        StepOutcome::Succeeded,
        StepOutcome::Succeeded,
    ]);
    assert!(matches!(progress, Progress::Ready(_)));
    assert_eq!(
        taken,
        vec![
            StartupStep::Connect,
            StartupStep::Probe,
            StartupStep::EnsureSchema,
            StartupStep::CheckTable
        ]
    );
}

#[test]
fn a_failed_connect_ends_the_startup() {
    let (progress, taken) = run(vec![failed("connection refused"), StepOutcome::Succeeded]);
    match progress {
        Progress::Failed(error) => assert_eq!(
            error,
            ConnectionError { step: StartupStep::Connect, cause: String::from("connection refused") }
        ),
        other => panic!("expected a failure, got {:?}", other),
    }
    assert_eq!(taken, vec![StartupStep::Connect]);
}

#[test]
fn a_failed_probe_ends_the_startup() {
    let (progress, taken) = run(vec![
        StepOutcome::Succeeded,
        failed("probe timed out"),
        StepOutcome::Succeeded,
        StepOutcome::Succeeded,
    ]);
    match progress {
        Progress::Failed(error) => {
            assert_eq!(error.step, StartupStep::Probe);
            assert_eq!(error.cause, "probe timed out");
        }
        other => panic!("expected a failure, got {:?}", other),
    }
    assert_eq!(taken, vec![StartupStep::Connect, StartupStep::Probe]);
}

#[test]
fn a_failed_schema_step_ends_the_startup() {
    let (progress, taken) = run(vec![
        StepOutcome::Succeeded,
        StepOutcome::Succeeded,
        failed("permission denied"),
        StepOutcome::Succeeded,
    ]);
    match progress {
        Progress::Failed(error) => {
            assert_eq!(error.step, StartupStep::EnsureSchema);
            assert_eq!(error.cause, "permission denied");
        }
        other => panic!("expected a failure, got {:?}", other),
    }
    assert_eq!(
        taken,
        vec![StartupStep::Connect, StartupStep::Probe, StartupStep::EnsureSchema]
    );
}

#[test]
fn a_failed_look_at_the_table_does_not_fail_the_startup() {
    let (progress, taken) = run(vec![
        StepOutcome::Succeeded,
        StepOutcome::Succeeded,
        StepOutcome::Succeeded,
        failed("relation is not readable"),
    ]);
    assert!(matches!(progress, Progress::Ready(_)));
    assert_eq!(taken.len(), 4);
}

#[test]
fn a_startup_with_steps_left_is_still_pending() {
    let (progress, _) = run(vec![StepOutcome::Succeeded, StepOutcome::Succeeded]);
    match progress {
        Progress::Continue(startup) => assert_eq!(startup.pending(), StartupStep::EnsureSchema),
        other => panic!("expected a pending startup, got {:?}", other),
    }
}
