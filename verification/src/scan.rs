//! Device discovery: what to do with each event that arrives while the
//! scan runs.

use vstd::prelude::*;

verus! {

/// An event of the device server while it scans.
#[derive(Debug, PartialEq, Eq)]
pub enum ScanEvent {
    /// A device was found; its name.
    DeviceAdded(String),
    /// The scan is over.
    ScanningFinished,
    /// The server went away.
    ServerDisconnected,
    /// Anything else.
    Other,
}

/// What to do with a scan event.
#[derive(Debug, PartialEq, Eq)]
pub struct ScanStep {
    /// The line to show.
    pub message: String,
    /// Whether to stop waiting for further events.
    pub finished: bool,
}

/// The line to show for `event`.
pub open spec fn scan_message(event: ScanEvent) -> Seq<char> {
    match event {
        ScanEvent::DeviceAdded(name) => "device added: "@ + name@,
        ScanEvent::ScanningFinished => "scanning finished signaled!"@,
        ScanEvent::ServerDisconnected => "server disconnected!"@,
        ScanEvent::Other => "something happened!"@,
    }
}

/// Takes in one scan event: every event is shown, and only the end of the
/// scan ends the waiting. A device that is found or a server that goes away
/// does not.
pub fn handle_scanning(event: &ScanEvent) -> (step: ScanStep)
    ensures
        step.message@ == scan_message(*event),
        step.finished == (*event is ScanningFinished),
{
    match event {
        ScanEvent::DeviceAdded(name) => {
            let mut message: String = String::from_str("device added: ");
            message.append(name.as_str());
            ScanStep { message, finished: false }
        },
        ScanEvent::ScanningFinished => ScanStep {
            message: String::from_str("scanning finished signaled!"),
            finished: true,
        },
        ScanEvent::ServerDisconnected => ScanStep {
            message: String::from_str("server disconnected!"),
            finished: false,
        },
        ScanEvent::Other => ScanStep {
            message: String::from_str("something happened!"),
            finished: false,
        },
    }
}

} // verus!
