use acontrol::system::{acontrol_system_end, acontrol_system_init_drivers, DriverSlot, LoadedDrivers, SequenceStep};

fn loaded(except: &[DriverSlot]) -> LoadedDrivers {
    LoadedDrivers {
        log: !except.contains(&DriverSlot::Log),
        bluetooth: !except.contains(&DriverSlot::Bluetooth),
        fingerprint: !except.contains(&DriverSlot::Fingerprint),
        nfc: !except.contains(&DriverSlot::Nfc),
        audio: !except.contains(&DriverSlot::Audio),
        display: !except.contains(&DriverSlot::Display),
        persist: !except.contains(&DriverSlot::Persist),
    }
}

/// Runs a start-up or a shutdown the way the runner does: calls each driver
/// the library names, `failing` ones answering with an error, until the run
/// ends. Gives how it ended and the drivers called, in order.
fn run(
    step: fn(LoadedDrivers, &Vec<Result<(), String>>) -> SequenceStep,
    drivers: LoadedDrivers,
    failing: &[DriverSlot],
) -> (SequenceStep, Vec<DriverSlot>) {
    let mut answers: Vec<Result<(), String>> = Vec::new();
    let mut called = Vec::new();
    loop {
        match step(drivers, &answers) {
            SequenceStep::Call(slot) => {
                called.push(slot);
                answers.push(if failing.contains(&slot) { Err(format!("{:?} failed", slot)) } else { Ok(()) });
            },
            end => return (end, called),
        }
    }
}

#[test]
fn shutdown_unloads_every_driver() {
    let (end, called) = run(acontrol_system_end, loaded(&[DriverSlot::Fingerprint]), &[]);
    let order = vec![DriverSlot::Bluetooth, DriverSlot::Audio, DriverSlot::Nfc, DriverSlot::Persist, DriverSlot::Log];
    assert_eq!(end, SequenceStep::Finished(order.clone()));
    assert_eq!(called, order);
}

#[test]
fn shutdown_stops_at_the_first_failure() {
    let (end, called) = run(acontrol_system_end, loaded(&[]), &[DriverSlot::Nfc, DriverSlot::Log]);
    assert_eq!(end, SequenceStep::Failed(DriverSlot::Nfc, vec![DriverSlot::Bluetooth, DriverSlot::Audio]));
    assert_eq!(called, vec![DriverSlot::Bluetooth, DriverSlot::Audio, DriverSlot::Nfc]);
}

#[test]
fn shutdown_with_nothing_loaded_is_done_at_once() {
    let nothing = loaded(&[
        DriverSlot::Log,
        DriverSlot::Bluetooth,
        DriverSlot::Fingerprint,
        DriverSlot::Nfc,
        DriverSlot::Audio,
        DriverSlot::Display,
        DriverSlot::Persist,
    ]);
    assert_eq!(acontrol_system_end(nothing, &Vec::new()), SequenceStep::Finished(Vec::new()));
    assert_eq!(acontrol_system_init_drivers(nothing, &Vec::new()), SequenceStep::Finished(Vec::new()));
}

#[test]
fn start_up_starts_every_driver_in_order() {
    let (end, called) = run(acontrol_system_init_drivers, loaded(&[]), &[]);
    let order = vec![
        DriverSlot::Log,
        DriverSlot::Bluetooth,
        DriverSlot::Fingerprint,
        DriverSlot::Nfc,
        DriverSlot::Audio,
        DriverSlot::Display,
    ];
    assert_eq!(end, SequenceStep::Finished(order.clone()));
    assert_eq!(called, order);
}

#[test]
fn start_up_stops_at_the_first_failure() {
    let (end, called) = run(acontrol_system_init_drivers, loaded(&[DriverSlot::Nfc]), &[DriverSlot::Display]);
    assert_eq!(
        end,
        SequenceStep::Failed(
            DriverSlot::Display,
            vec![DriverSlot::Log, DriverSlot::Bluetooth, DriverSlot::Fingerprint, DriverSlot::Audio]
        )
    );
    assert_eq!(called.len(), 5);
    let (end, called) = run(acontrol_system_init_drivers, loaded(&[]), &[DriverSlot::Log]);
    assert_eq!(end, SequenceStep::Failed(DriverSlot::Log, Vec::new()));
    assert_eq!(called, vec![DriverSlot::Log]);
}
