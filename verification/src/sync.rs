//! The synchronization loop as a state machine.
//!
//! The loop's driver performs the remote work — opening the bus, resolving
//! the device, watching the three change-notification streams — and feeds
//! every outcome back here as an event. `sync_step` decides the next state
//! and which fire-and-forget actions the driver performs; the decisions are
//! verified, the plumbing around them is not.

use vstd::prelude::*;

verus! {

/// The lifecycle of the synchronization loop.
pub enum SyncState {
    /// No bus connection yet.
    BusDisconnected,
    /// Bus open; the wireless device is being resolved.
    BusConnected,
    /// Wireless device found; the startup scan was requested and the initial
    /// radio-state read is outstanding.
    DeviceResolved { device: String },
    /// Steady state for the rest of the session: every watch event rebuilds
    /// the view or updates the toggle.
    Watching { device: String },
    /// No bus or no wireless device; the panel renders empty for the whole
    /// session, with no automatic retry.
    Unavailable,
}

/// Model of a [`SyncState`].
#[verifier::ext_equal]
pub enum SyncStateView {
    BusDisconnected,
    BusConnected,
    DeviceResolved { device: Seq<char> },
    Watching { device: Seq<char> },
    Unavailable,
}

impl View for SyncState {
    type V = SyncStateView;

    open spec fn view(&self) -> SyncStateView {
        match self {
            SyncState::BusDisconnected => SyncStateView::BusDisconnected,
            SyncState::BusConnected => SyncStateView::BusConnected,
            SyncState::DeviceResolved { device } => SyncStateView::DeviceResolved {
                device: device@,
            },
            SyncState::Watching { device } => SyncStateView::Watching { device: device@ },
            SyncState::Unavailable => SyncStateView::Unavailable,
        }
    }
}

/// An outcome of the driver's remote work, fed into the loop.
pub enum SyncEvent {
    /// The attempt to open the system bus finished.
    BusOpened { ok: bool },
    /// Device resolution finished, successfully or not.
    DeviceFound { device: Option<String> },
    /// The initial read of the radio-enabled property finished; a failed
    /// read is reported as disabled.
    RadioRead { enabled: bool },
    /// The radio-enabled property changed.
    RadioChanged { enabled: bool },
    /// The visible access-point list changed.
    ApListChanged,
    /// The active access point changed.
    ActiveApChanged,
}

/// Model of a [`SyncEvent`].
#[verifier::ext_equal]
pub enum SyncEventView {
    BusOpened { ok: bool },
    DeviceFound { device: Option<Seq<char>> },
    RadioRead { enabled: bool },
    RadioChanged { enabled: bool },
    ApListChanged,
    ActiveApChanged,
}

impl View for SyncEvent {
    type V = SyncEventView;

    open spec fn view(&self) -> SyncEventView {
        match self {
            SyncEvent::BusOpened { ok } => SyncEventView::BusOpened { ok: *ok },
            SyncEvent::DeviceFound { device } => SyncEventView::DeviceFound {
                device: device.deep_view(),
            },
            SyncEvent::RadioRead { enabled } => SyncEventView::RadioRead { enabled: *enabled },
            SyncEvent::RadioChanged { enabled } => SyncEventView::RadioChanged {
                enabled: *enabled,
            },
            SyncEvent::ApListChanged => SyncEventView::ApListChanged,
            SyncEvent::ActiveApChanged => SyncEventView::ActiveApChanged,
        }
    }
}

/// One fire-and-forget effect the driver performs for the loop. Its error is
/// observed only by logging, never returned to the loop.
#[derive(Clone, Copy, Debug, PartialEq, Eq, Structural)]
pub enum SyncAction {
    /// Resolve the wireless device.
    ResolveDevice,
    /// Ask the device to refresh its access-point list.
    RequestScan,
    /// Read the radio-enabled property once to initialize the toggle.
    ReadRadioState,
    /// Write the toggle control; with `suppress_handler` the control's own
    /// change handler must not fire for the duration of the write.
    SetToggle { enabled: bool, suppress_handler: bool },
    /// Rebuild the whole snapshot and hand it to the renderer.
    Rebuild,
    /// Hand the renderer an empty view.
    RenderEmpty,
}

/// The loop's transition function: the next state and the actions the driver
/// performs. An event that does not belong to the current state is ignored.
pub open spec fn spec_sync_step(state: SyncStateView, event: SyncEventView) -> (
    SyncStateView,
    Seq<SyncAction>,
) {
    match (state, event) {
        (SyncStateView::BusDisconnected, SyncEventView::BusOpened { ok }) => {
            if ok {
                (SyncStateView::BusConnected, seq![SyncAction::ResolveDevice])
            } else {
                (SyncStateView::Unavailable, seq![SyncAction::RenderEmpty])
            }
        },
        (SyncStateView::BusConnected, SyncEventView::DeviceFound { device }) => {
            match device {
                Some(device) => (
                    SyncStateView::DeviceResolved { device },
                    seq![SyncAction::RequestScan, SyncAction::ReadRadioState],
                ),
                None => (SyncStateView::Unavailable, seq![SyncAction::RenderEmpty]),
            }
        },
        (SyncStateView::DeviceResolved { device }, SyncEventView::RadioRead { enabled }) => (
            SyncStateView::Watching { device },
            seq![SyncAction::SetToggle { enabled, suppress_handler: true }],
        ),
        (SyncStateView::Watching { device }, SyncEventView::RadioChanged { enabled }) => (
            SyncStateView::Watching { device },
            seq![SyncAction::SetToggle { enabled, suppress_handler: true }],
        ),
        (SyncStateView::Watching { device }, SyncEventView::ApListChanged) => (
            SyncStateView::Watching { device },
            seq![SyncAction::Rebuild],
        ),
        (SyncStateView::Watching { device }, SyncEventView::ActiveApChanged) => (
            SyncStateView::Watching { device },
            seq![SyncAction::Rebuild],
        ),
        (state, _) => (state, Seq::empty()),
    }
}

/// Advance the loop by one event.
pub fn sync_step(state: SyncState, event: SyncEvent) -> (r: (SyncState, Vec<SyncAction>))
    ensures
        r.0@ == spec_sync_step(state@, event@).0,
        r.1@ == spec_sync_step(state@, event@).1,
{
    match (state, event) {
        (SyncState::BusDisconnected, SyncEvent::BusOpened { ok }) => {
            if ok {
                let mut actions: Vec<SyncAction> = Vec::new();
                actions.push(SyncAction::ResolveDevice);
                proof {
                    assert(actions@ =~= seq![SyncAction::ResolveDevice]);
                }
                (SyncState::BusConnected, actions)
            } else {
                let mut actions: Vec<SyncAction> = Vec::new();
                actions.push(SyncAction::RenderEmpty);
                proof {
                    assert(actions@ =~= seq![SyncAction::RenderEmpty]);
                }
                (SyncState::Unavailable, actions)
            }
        },
        (SyncState::BusConnected, SyncEvent::DeviceFound { device }) => {
            match device {
                Some(device) => {
                    let mut actions: Vec<SyncAction> = Vec::new();
                    actions.push(SyncAction::RequestScan);
                    actions.push(SyncAction::ReadRadioState);
                    proof {
                        assert(actions@ =~= seq![
                            SyncAction::RequestScan,
                            SyncAction::ReadRadioState,
                        ]);
                    }
                    (SyncState::DeviceResolved { device }, actions)
                },
                None => {
                    let mut actions: Vec<SyncAction> = Vec::new();
                    actions.push(SyncAction::RenderEmpty);
                    proof {
                        assert(actions@ =~= seq![SyncAction::RenderEmpty]);
                    }
                    (SyncState::Unavailable, actions)
                },
            }
        },
        (SyncState::DeviceResolved { device }, SyncEvent::RadioRead { enabled }) => {
            let mut actions: Vec<SyncAction> = Vec::new();
            actions.push(SyncAction::SetToggle { enabled, suppress_handler: true });
            proof {
                assert(actions@ =~= seq![
                    SyncAction::SetToggle { enabled, suppress_handler: true },
                ]);
            }
            (SyncState::Watching { device }, actions)
        },
        (SyncState::Watching { device }, SyncEvent::RadioChanged { enabled }) => {
            let mut actions: Vec<SyncAction> = Vec::new();
            actions.push(SyncAction::SetToggle { enabled, suppress_handler: true });
            proof {
                assert(actions@ =~= seq![
                    SyncAction::SetToggle { enabled, suppress_handler: true },
                ]);
            }
            (SyncState::Watching { device }, actions)
        },
        (SyncState::Watching { device }, SyncEvent::ApListChanged) => {
            let mut actions: Vec<SyncAction> = Vec::new();
            actions.push(SyncAction::Rebuild);
            proof {
                assert(actions@ =~= seq![SyncAction::Rebuild]);
            }
            (SyncState::Watching { device }, actions)
        },
        (SyncState::Watching { device }, SyncEvent::ActiveApChanged) => {
            let mut actions: Vec<SyncAction> = Vec::new();
            actions.push(SyncAction::Rebuild);
            proof {
                assert(actions@ =~= seq![SyncAction::Rebuild]);
            }
            (SyncState::Watching { device }, actions)
        },
        (other, _) => (other, Vec::new()),
    }
}

/// The radio toggle control: the state it displays, and whether its own
/// change handler is suppressed at the moment.
pub struct RadioToggle {
    /// The state the control displays.
    pub enabled: bool,
    /// While set, the control's change handler must not fire.
    pub suppressed: bool,
}

impl RadioToggle {
    /// A fresh toggle, displaying the given state, handler armed.
    pub fn new(enabled: bool) -> (r: Self)
        ensures
            r.enabled == enabled,
            !r.suppressed,
    {
        RadioToggle { enabled, suppressed: false }
    }

    /// The control's change handler: the radio write to submit to the
    /// daemon, or nothing while the handler is suppressed.
    pub fn change_handler(&self, enabled: bool) -> (dispatched: Option<bool>)
        ensures
            dispatched == (if self.suppressed {
                None::<bool>
            } else {
                Some(enabled)
            }),
    {
        if self.suppressed {
            None
        } else {
            Some(enabled)
        }
    }

    /// Apply an externally observed radio state to the control: the handler
    /// is suppressed for the duration of the write and re-armed afterwards,
    /// so nothing is ever dispatched back to the daemon.
    pub fn apply_external(&mut self, enabled: bool) -> (dispatched: Option<bool>)
        ensures
            final(self).enabled == enabled,
            !final(self).suppressed,
            dispatched is None,
    {
        self.suppressed = true;
        self.enabled = enabled;
        let dispatched = self.change_handler(enabled);
        self.suppressed = false;
        dispatched
    }

    /// Apply a user action to the control: the handler fires and the new
    /// state is dispatched to the daemon.
    pub fn apply_user(&mut self, enabled: bool) -> (dispatched: Option<bool>)
        ensures
            final(self).enabled == enabled,
            final(self).suppressed == old(self).suppressed,
            dispatched == (if old(self).suppressed {
                None::<bool>
            } else {
                Some(enabled)
            }),
    {
        self.enabled = enabled;
        self.change_handler(enabled)
    }
}

/// Law: an externally observed radio change never reaches the daemon again.
/// Whatever state the loop is in, the only actions a radio-change event
/// produces are toggle writes with the change handler suppressed — never a
/// rebuild, and never a write back to the daemon.
pub proof fn lemma_radio_change_suppresses_feedback(state: SyncStateView, enabled: bool)
    ensures
        forall|k: int|
            0 <= k < spec_sync_step(state, SyncEventView::RadioChanged { enabled }).1.len()
                ==> spec_sync_step(state, SyncEventView::RadioChanged { enabled }).1[k]
                == (SyncAction::SetToggle { enabled, suppress_handler: true }),
{
    let actions = spec_sync_step(state, SyncEventView::RadioChanged { enabled }).1;
    match state {
        SyncStateView::Watching { device } => {
            assert(actions == seq![SyncAction::SetToggle { enabled, suppress_handler: true }]);
        },
        _ => {
            assert(actions == Seq::<SyncAction>::empty());
        },
    }
}

} // verus!
