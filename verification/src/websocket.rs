//! The control plane towards the local user interface.
//!
//! Frames are JSON text. Turning text into messages and back is the
//! caller's part; what a message does to the server, and which messages a
//! tick sends, is decided here.

use vstd::prelude::*;
use crate::config::GlobalConfig;
use crate::id_map::spec_position;
use crate::main_server::MainServer;
use crate::tracker::{Tracker, TrackerInfo, TrackerInternal};

verus! {

/// The port the control plane listens on, on the loopback interface.
pub const WEBSOCKET_PORT: u16 = 8298;

/// A message from the client.
pub enum WebsocketClientMessage {
    /// Text to write to the serial port of a connected tracker.
    SerialSend { data: String },
    /// The user removed the tracker with this id.
    RemoveTracker { id: String },
    /// The user changed the configuration.
    UpdateConfig { config: GlobalConfig },
}

/// A message to the client, by kind. The caller fills in what the message
/// carries from the state of the server.
#[derive(Debug, PartialEq, Eq)]
pub enum WebsocketServerMessage {
    /// The trackers that changed since the last tick, by their position in
    /// the registry.
    TrackerUpdate { trackers: Vec<usize> },
    /// Everything a client needs when it connects.
    InitialState,
    /// The pose of every bone.
    SkeletonUpdate,
    /// The configuration in force.
    ConfigUpdate,
    /// A line read from the serial port.
    SerialLog,
    /// The serial port was plugged in or out.
    SerialPortChanged,
    /// The error of the last tick.
    Error,
}

/// The tracker once the user removed it.
pub open spec fn spec_marked_for_removal(tracker: Tracker) -> Tracker {
    Tracker {
        info: TrackerInfo { to_be_removed: true, ..tracker.info },
        internal: TrackerInternal { was_updated: true, ..tracker.internal },
        ..tracker
    }
}

/// The positions, among the first `n`, of the trackers that count as
/// updated.
pub open spec fn spec_updated(entries: Seq<(Seq<char>, Tracker)>, n: nat) -> Seq<usize>
    decreases n,
{
    if n == 0 {
        Seq::empty()
    } else {
        let earlier = spec_updated(entries, (n - 1) as nat);
        if entries[n - 1].1.internal.was_updated {
            earlier.push((n - 1) as usize)
        } else {
            earlier
        }
    }
}

/// Whether `message` is the tracker update that lists `trackers`.
pub open spec fn spec_is_tracker_update(message: WebsocketServerMessage, trackers: Seq<usize>) -> bool {
    message matches WebsocketServerMessage::TrackerUpdate { trackers: listed } && listed@
        == trackers
}

/// Takes a message from the client. Returns the text to write to the serial
/// port, if the message asks for that.
///
/// Removing a tracker only marks it: it leaves the registry when the tick
/// ends. A new configuration only waits: it is applied when the next tick
/// starts.
pub fn handle_ws_message(main: &mut MainServer, message: WebsocketClientMessage) -> (r: Option<
    String,
>)
    requires
        old(main).wf(),
        message matches WebsocketClientMessage::UpdateConfig { config } ==> config.wf(),
    ensures
        final(main).wf(),
        final(main).config == old(main).config,
        final(main).skeleton_manager == old(main).skeleton_manager,
        final(main).updates.error == old(main).updates.error,
        match message {
            WebsocketClientMessage::SerialSend { data } => {
                &&& r == Some(data)
                &&& final(main).trackers@ == old(main).trackers@
                &&& final(main).updates.config == old(main).updates.config
            },
            WebsocketClientMessage::RemoveTracker { id } => {
                &&& r.is_none()
                &&& final(main).updates.config == old(main).updates.config
                &&& final(main).trackers@ == match spec_position(old(main).trackers@, id@) {
                    Some(k) => old(main).trackers@.update(
                        k,
                        (id@, spec_marked_for_removal(old(main).trackers@[k].1)),
                    ),
                    None => old(main).trackers@,
                }
            },
            WebsocketClientMessage::UpdateConfig { config } => {
                &&& r.is_none()
                &&& final(main).trackers@ == old(main).trackers@
                &&& final(main).updates.config == Some(config)
            },
        },
{
    match message {
        WebsocketClientMessage::SerialSend { data } => Some(data),
        WebsocketClientMessage::RemoveTracker { id } => {
            if let Some(k) = main.trackers.index_of(&id) {
                main.trackers.value_at_mut(k).update_info().to_be_removed = true;
            }
            None
        },
        WebsocketClientMessage::UpdateConfig { config } => {
            main.updates.config = Some(config);
            None
        },
    }
}

/// The messages a tick sends to an attached client, in order: the trackers
/// that changed, the skeleton, then what the serial port and the last tick
/// have to report, if anything.
pub fn send_ws_messages(main: &MainServer, port_changed: bool, has_serial_log: bool) -> (r: Vec<
    WebsocketServerMessage,
>)
    requires
        main.wf(),
    ensures
        r@.len() == 2 + (if port_changed {
            1nat
        } else {
            0nat
        }) + (if has_serial_log {
            1nat
        } else {
            0nat
        }) + (if main.updates.error.is_some() {
            1nat
        } else {
            0nat
        }),
        spec_is_tracker_update(r@[0], spec_updated(main.trackers@, main.trackers@.len())),
        r@[1] == WebsocketServerMessage::SkeletonUpdate,
        port_changed ==> r@[2] == WebsocketServerMessage::SerialPortChanged,
        has_serial_log ==> r@[if port_changed {
            3int
        } else {
            2int
        }] == WebsocketServerMessage::SerialLog,
        main.updates.error.is_some() ==> r@.last() == WebsocketServerMessage::Error,
{
    let mut trackers: Vec<usize> = Vec::new();
    let n = main.trackers.len();
    let mut i: usize = 0;
    while i < n
        invariant
            i <= n,
            n == main.trackers@.len(),
            main.wf(),
            trackers@ == spec_updated(main.trackers@, i as nat),
        decreases n - i,
    {
        if main.trackers.value_at(i).internal().was_updated {
            trackers.push(i);
        }
        i += 1;
    }
    let mut messages: Vec<WebsocketServerMessage> = Vec::new();
    messages.push(WebsocketServerMessage::TrackerUpdate { trackers });
    messages.push(WebsocketServerMessage::SkeletonUpdate);
    if port_changed {
        messages.push(WebsocketServerMessage::SerialPortChanged);
    }
    if has_serial_log {
        messages.push(WebsocketServerMessage::SerialLog);
    }
    if main.updates.error.is_some() {
        messages.push(WebsocketServerMessage::Error);
    }
    messages
}

} // verus!
