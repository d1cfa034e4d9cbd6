use mapped_fileio::{Action, MapError, Primitive, Procedure};

fn run(procedure: Procedure) -> Vec<Primitive> {
    let mut performed = Vec::new();
    loop {
        match procedure.next(performed.len(), Ok(())) {
            Action::Perform(primitive) => performed.push(primitive),
            Action::Finish => return performed,
            other => panic!("unexpected action {:?}", other),
        }
    }
}

#[test]
fn open_opens_then_measures_then_maps() {
    assert_eq!(
        run(Procedure::Open),
        vec![Primitive::OpenFile, Primitive::QueryLength, Primitive::EstablishMapping]
    );
}

#[test]
fn flush_syncs_the_region_then_the_descriptor() {
    assert_eq!(run(Procedure::Flush), vec![Primitive::SyncMapping, Primitive::SyncDescriptor]);
}

#[test]
fn teardown_flushes_then_unmaps_then_closes() {
    assert_eq!(
        run(Procedure::Teardown),
        vec![
            Primitive::SyncMapping,
            Primitive::SyncDescriptor,
            Primitive::ReleaseMapping,
            Primitive::CloseDescriptor
        ]
    );
}

#[test]
fn a_finished_procedure_stays_finished() {
    assert_eq!(Procedure::Open.next(3, Ok(())), Action::Finish);
    assert_eq!(Procedure::Flush.next(2, Ok(())), Action::Finish);
    assert_eq!(Procedure::Teardown.next(4, Ok(())), Action::Finish);
    assert_eq!(Procedure::Teardown.next(usize::MAX, Ok(())), Action::Finish);
}

#[test]
fn a_failure_while_opening_or_flushing_is_returned() {
    assert_eq!(Procedure::Open.next(0, Err(2)), Action::Fail(MapError::Os(2)));
    assert_eq!(Procedure::Open.next(2, Err(12)), Action::Fail(MapError::Os(12)));
    assert_eq!(Procedure::Flush.next(0, Err(5)), Action::Fail(MapError::Os(5)));
    assert_eq!(Procedure::Flush.next(1, Err(5)), Action::Fail(MapError::Os(5)));
}

#[test]
fn a_failure_during_teardown_is_fatal() {
    assert_eq!(Procedure::Teardown.next(0, Err(5)), Action::Abort(MapError::Os(5)));
    assert_eq!(Procedure::Teardown.next(3, Err(9)), Action::Abort(MapError::Os(9)));
}
