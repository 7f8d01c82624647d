use buzzcurse::scan::{handle_scanning, ScanEvent, ScanStep};

#[test]
fn added_device_is_shown_by_name_and_does_not_end_the_scan() {
    let step: ScanStep = handle_scanning(&ScanEvent::DeviceAdded(String::from("Test Device")));
    assert_eq!(step.message, "device added: Test Device");
    assert!(!step.finished);
    let unnamed: ScanStep = handle_scanning(&ScanEvent::DeviceAdded(String::new()));
    assert_eq!(unnamed.message, "device added: ");
    assert!(!unnamed.finished);
}

#[test]
fn finished_scan_ends_the_waiting() {
    let step: ScanStep = handle_scanning(&ScanEvent::ScanningFinished);
    assert_eq!(
        step,
        ScanStep { message: String::from("scanning finished signaled!"), finished: true }
    );
}

#[test]
fn disconnect_is_shown_and_does_not_end_the_scan() {
    let step: ScanStep = handle_scanning(&ScanEvent::ServerDisconnected);
    assert_eq!(step, ScanStep { message: String::from("server disconnected!"), finished: false });
}

#[test]
fn other_scan_events_are_shown_and_do_not_end_the_scan() {
    let step: ScanStep = handle_scanning(&ScanEvent::Other);
    assert_eq!(step, ScanStep { message: String::from("something happened!"), finished: false });
}

#[test]
fn scan_runs_until_the_first_finish() {
    let events: Vec<ScanEvent> = vec![
        ScanEvent::DeviceAdded(String::from("a")),
        ScanEvent::ServerDisconnected,
        ScanEvent::DeviceAdded(String::from("b")),
        ScanEvent::ScanningFinished,
        ScanEvent::DeviceAdded(String::from("late")),
    ];
    let mut shown: Vec<String> = Vec::new();
    for event in &events {
        let step: ScanStep = handle_scanning(event);
        shown.push(step.message);
        if step.finished {
            break;
        }
    }
    assert_eq!(
        shown,
        vec![
            "device added: a",
            "server disconnected!",
            "device added: b",
            "scanning finished signaled!",
        ]
    );
}
