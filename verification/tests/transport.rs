use mcp_pool::transport::{bind, first_bind_step, BindNext, BindStep, StepOutcome};

/// The steps that are run, and the end, where each step ends as `outcome` says.
fn bound(outcome: fn(BindStep) -> StepOutcome) -> (Vec<BindStep>, BindNext) {
    let mut steps = Vec::new();
    let mut next = BindNext::Run(first_bind_step(true));
    while let BindNext::Run(step) = next {
        steps.push(step);
        next = bind(step, outcome(step));
    }
    (steps, next)
}

#[test]
fn a_free_address_is_bound() {
    let (steps, end) = bound(|_| StepOutcome::Done);
    assert_eq!(steps, vec![BindStep::CreateDirectory, BindStep::Bind]);
    assert_eq!(end, BindNext::Listening);
    assert_eq!(first_bind_step(false), BindStep::Bind);
}

#[test]
fn a_live_owner_keeps_its_socket() {
    let (steps, end) = bound(|step| match step {
        BindStep::Bind => StepOutcome::AddressInUse,
        _ => StepOutcome::Done,
    });
    assert_eq!(steps, vec![BindStep::CreateDirectory, BindStep::Bind, BindStep::Probe]);
    assert_eq!(end, BindNext::FailWithBindError);
}

#[test]
fn a_stale_file_is_replaced_once() {
    let all = vec![
        BindStep::CreateDirectory,
        BindStep::Bind,
        BindStep::Probe,
        BindStep::RemoveStale,
        BindStep::Rebind,
    ];
    let (steps, end) = bound(|step| match step {
        BindStep::Bind => StepOutcome::AddressInUse,
        BindStep::Probe | BindStep::RemoveStale => StepOutcome::Failed,
        _ => StepOutcome::Done,
    });
    assert_eq!(steps, all);
    assert_eq!(end, BindNext::Listening);
    let (steps, end) = bound(|step| match step {
        BindStep::Bind | BindStep::Rebind => StepOutcome::AddressInUse,
        BindStep::Probe => StepOutcome::Failed,
        _ => StepOutcome::Done,
    });
    assert_eq!(steps, all);
    assert_eq!(end, BindNext::FailWithLastError);
}

#[test]
fn other_errors_end_binding() {
    let (steps, end) = bound(|_| StepOutcome::Failed);
    assert_eq!(steps, vec![BindStep::CreateDirectory]);
    assert_eq!(end, BindNext::FailWithLastError);
    assert_eq!(bind(BindStep::Bind, StepOutcome::Failed), BindNext::FailWithLastError);
}
