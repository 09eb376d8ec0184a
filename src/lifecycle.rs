use vstd::prelude::*;

verus! {

/// Why key capture ended up disabled.
#[derive(Debug, Clone, Copy, PartialEq, Eq, Structural)]
pub enum CaptureFailure {
    /// Input-monitoring authorization was declined or is undetermined.
    PermissionDenied,
    /// The OS refused to create the event tap.
    TapCreationFailed,
    /// No capture backend exists for the host OS.
    UnsupportedPlatform,
}

/// Phase of the process-wide key capture.
#[derive(Debug, Clone, Copy, PartialEq, Eq, Structural)]
pub enum ListenerState {
    Uninstalled,
    Installing,
    Running,
    Failed(CaptureFailure),
}

/// What the capture's surroundings report back to the lifecycle.
#[derive(Debug, Clone, Copy, PartialEq, Eq, Structural)]
pub enum LifecycleEvent {
    /// The authorization check (and prompt) on the main thread finished.
    AuthorizationChecked { granted: bool },
    /// The capture thread tried to create the passive tap.
    TapCreated { ok: bool },
    /// The host OS has no capture backend.
    PlatformUnsupported,
}

/// What the surroundings must do next.
#[derive(Debug, Clone, Copy, PartialEq, Eq, Structural)]
pub enum LifecycleAction {
    /// Spawn the capture thread and create the listen-only tap on it.
    InstallTap,
    /// Enable the tap and block in the run loop for the process lifetime.
    RunLoop,
    /// Log the failure; capture stays disabled and is not retried.
    Report(CaptureFailure),
    /// Nothing to do: the event does not apply in this phase.
    Ignore,
}

/// One step of the capture lifecycle. Installation starts only from
/// `Uninstalled` after authorization was granted; every failure is terminal.
pub open spec fn next(state: ListenerState, event: LifecycleEvent) -> (ListenerState, LifecycleAction) {
    match (state, event) {
        (ListenerState::Uninstalled, LifecycleEvent::AuthorizationChecked { granted }) => {
            if granted {
                (ListenerState::Installing, LifecycleAction::InstallTap)
            } else {
                (
                    ListenerState::Failed(CaptureFailure::PermissionDenied),
                    LifecycleAction::Report(CaptureFailure::PermissionDenied),
                )
            }
        },
        (ListenerState::Uninstalled, LifecycleEvent::PlatformUnsupported) => (
            ListenerState::Failed(CaptureFailure::UnsupportedPlatform),
            LifecycleAction::Report(CaptureFailure::UnsupportedPlatform),
        ),
        (ListenerState::Installing, LifecycleEvent::TapCreated { ok }) => {
            if ok {
                (ListenerState::Running, LifecycleAction::RunLoop)
            } else {
                (
                    ListenerState::Failed(CaptureFailure::TapCreationFailed),
                    LifecycleAction::Report(CaptureFailure::TapCreationFailed),
                )
            }
        },
        _ => (state, LifecycleAction::Ignore),
    }
}

/// The phase reached and the actions asked for when `events` arrive in
/// order, starting in `state`.
pub open spec fn run_events(state: ListenerState, events: Seq<LifecycleEvent>) -> (
    ListenerState,
    Seq<LifecycleAction>,
)
    decreases events.len(),
{
    if events.len() == 0 {
        (state, Seq::empty())
    } else {
        let (s1, a1) = next(state, events[0]);
        let (s2, rest) = run_events(s1, events.drop_first());
        (s2, seq![a1] + rest)
    }
}

/// The capture lifecycle of the process.
pub struct Listener {
    state: ListenerState,
}

impl View for Listener {
    type V = ListenerState;

    closed spec fn view(&self) -> ListenerState {
        self.state
    }
}

impl Listener {
    /// A lifecycle in which nothing has been installed yet.
    pub fn new() -> (r: Listener)
        ensures
            r@ == ListenerState::Uninstalled,
    {
        Listener { state: ListenerState::Uninstalled }
    }

    /// The current phase.
    pub fn state(&self) -> (r: ListenerState)
        ensures
            r == self@,
    {
        self.state
    }

    /// Whether events are being captured.
    pub fn is_running(&self) -> (r: bool)
        ensures
            r == (self@ == ListenerState::Running),
    {
        self.state == ListenerState::Running
    }

    /// Takes in what happened and says what to do next.
    pub fn handle(&mut self, event: LifecycleEvent) -> (r: LifecycleAction)
        ensures
            (final(self)@, r) == next(old(self)@, event),
    {
        let (s, a) = match (self.state, event) {
            (ListenerState::Uninstalled, LifecycleEvent::AuthorizationChecked { granted }) => {
                if granted {
                    (ListenerState::Installing, LifecycleAction::InstallTap)
                } else {
                    (
                        ListenerState::Failed(CaptureFailure::PermissionDenied),
                        LifecycleAction::Report(CaptureFailure::PermissionDenied),
                    )
                }
            },
            (ListenerState::Uninstalled, LifecycleEvent::PlatformUnsupported) => (
                ListenerState::Failed(CaptureFailure::UnsupportedPlatform),
                LifecycleAction::Report(CaptureFailure::UnsupportedPlatform),
            ),
            (ListenerState::Installing, LifecycleEvent::TapCreated { ok }) => {
                if ok {
                    (ListenerState::Running, LifecycleAction::RunLoop)
                } else {
                    (
                        ListenerState::Failed(CaptureFailure::TapCreationFailed),
                        LifecycleAction::Report(CaptureFailure::TapCreationFailed),
                    )
                }
            },
            (s, _) => (s, LifecycleAction::Ignore),
        };
        self.state = s;
        a
    }
}

/// Once capture has failed it stays failed and never asks for a tap,
/// whatever is reported afterwards.
pub proof fn lemma_failure_is_terminal(f: CaptureFailure, events: Seq<LifecycleEvent>)
    ensures
        run_events(ListenerState::Failed(f), events).0 == ListenerState::Failed(f),
        !run_events(ListenerState::Failed(f), events).1.contains(LifecycleAction::InstallTap),
    decreases events.len(),
{
    if events.len() > 0 {
        lemma_failure_is_terminal(f, events.drop_first());
        let rest = run_events(ListenerState::Failed(f), events.drop_first()).1;
        let all = run_events(ListenerState::Failed(f), events).1;
        assert(all == seq![LifecycleAction::Ignore] + rest);
        if all.contains(LifecycleAction::InstallTap) {
            let i = choose|i: int| 0 <= i < all.len() && all[i] == LifecycleAction::InstallTap;
            assert(i > 0);
            assert(rest[i - 1] == LifecycleAction::InstallTap);
        }
    }
}

/// When authorization is denied, capture fails with `PermissionDenied` and
/// no tap is ever asked for, whatever is reported afterwards.
pub proof fn lemma_denied_never_installs(events: Seq<LifecycleEvent>)
    ensures
        ({
            let (s, actions) = run_events(
                ListenerState::Uninstalled,
                seq![LifecycleEvent::AuthorizationChecked { granted: false }] + events,
            );
            &&& s == ListenerState::Failed(CaptureFailure::PermissionDenied)
            &&& actions[0] == LifecycleAction::Report(CaptureFailure::PermissionDenied)
            &&& !actions.contains(LifecycleAction::InstallTap)
        }),
{
    let all_events = seq![LifecycleEvent::AuthorizationChecked { granted: false }] + events;
    assert(all_events.drop_first() == events);
    lemma_failure_is_terminal(CaptureFailure::PermissionDenied, events);
    let rest = run_events(ListenerState::Failed(CaptureFailure::PermissionDenied), events).1;
    let all = run_events(ListenerState::Uninstalled, all_events).1;
    assert(all == seq![LifecycleAction::Report(CaptureFailure::PermissionDenied)] + rest);
    if all.contains(LifecycleAction::InstallTap) {
        let i = choose|i: int| 0 <= i < all.len() && all[i] == LifecycleAction::InstallTap;
        assert(i > 0);
        assert(rest[i - 1] == LifecycleAction::InstallTap);
    }
}

/// Once installation has begun, no later report asks for a tap again.
pub proof fn lemma_installed_never_reinstalls(state: ListenerState, events: Seq<LifecycleEvent>)
    requires
        state != ListenerState::Uninstalled,
    ensures
        run_events(state, events).0 != ListenerState::Uninstalled,
        !run_events(state, events).1.contains(LifecycleAction::InstallTap),
    decreases events.len(),
{
    if events.len() > 0 {
        let (s1, a1) = next(state, events[0]);
        lemma_installed_never_reinstalls(s1, events.drop_first());
        let rest = run_events(s1, events.drop_first()).1;
        let all = run_events(state, events).1;
        assert(all == seq![a1] + rest);
        if all.contains(LifecycleAction::InstallTap) {
            let i = choose|i: int| 0 <= i < all.len() && all[i] == LifecycleAction::InstallTap;
            assert(i > 0);
            assert(rest[i - 1] == LifecycleAction::InstallTap);
        }
    }
}

/// Whatever is reported, and in whatever order, a tap is asked for at most
/// once in the life of a process.
pub proof fn lemma_single_installation(events: Seq<LifecycleEvent>)
    ensures
        ({
            let actions = run_events(ListenerState::Uninstalled, events).1;
            forall|i: int, j: int|
                0 <= i < actions.len() && 0 <= j < actions.len() && actions[i]
                    == LifecycleAction::InstallTap && actions[j] == LifecycleAction::InstallTap
                    ==> i == j
        }),
    decreases events.len(),
{
    if events.len() > 0 {
        let (s1, a1) = next(ListenerState::Uninstalled, events[0]);
        let rest = run_events(s1, events.drop_first()).1;
        let all = run_events(ListenerState::Uninstalled, events).1;
        assert(all == seq![a1] + rest);
        if s1 == ListenerState::Uninstalled {
            lemma_single_installation(events.drop_first());
            assert(a1 == LifecycleAction::Ignore);
            assert forall|i: int, j: int|
                0 <= i < all.len() && 0 <= j < all.len() && all[i] == LifecycleAction::InstallTap
                    && all[j] == LifecycleAction::InstallTap implies i == j by {
                assert(i > 0 && j > 0);
                assert(rest[i - 1] == LifecycleAction::InstallTap);
                assert(rest[j - 1] == LifecycleAction::InstallTap);
            }
        } else {
            lemma_installed_never_reinstalls(s1, events.drop_first());
            assert forall|i: int, j: int|
                0 <= i < all.len() && 0 <= j < all.len() && all[i] == LifecycleAction::InstallTap
                    && all[j] == LifecycleAction::InstallTap implies i == j by {
                if i > 0 {
                    assert(rest[i - 1] == LifecycleAction::InstallTap);
                    assert(rest.contains(LifecycleAction::InstallTap));
                }
                if j > 0 {
                    assert(rest[j - 1] == LifecycleAction::InstallTap);
                    assert(rest.contains(LifecycleAction::InstallTap));
                }
            }
        }
    }
}

} // verus!
