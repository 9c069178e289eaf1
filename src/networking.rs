//! The station interface state machine.
//!
//! The machine decides; the caller acts. It hands out one radio operation at
//! a time, the caller performs it and reports the outcome, and the machine
//! moves on. A failure is reported back to the caller at once and is never
//! retried here.
use vstd::prelude::*;

use crate::options::{
    gateway_resolution, static_config_of, static_ip_resolution, StaticNetworkConfig,
};

verus! {

/// Where the station interface stands in its bring-up and teardown.
#[derive(Clone, Copy, Debug, PartialEq, Eq, Structural)]
pub enum InterfaceState {
    Unconfigured,
    Configured,
    Starting,
    Connecting,
    WaitingForAddress,
    Up,
    Disconnecting,
    Down,
}

/// One operation on the radio.
#[derive(Clone, Copy, Debug, PartialEq, Eq, Structural)]
pub enum Action {
    /// Apply the station credentials with WPA2-Personal authentication.
    ApplyStationConfig,
    /// Replace both network interfaces at once: a station interface with this
    /// fixed address, and a default router interface.
    SwapInterfaces(StaticNetworkConfig),
    /// Power the radio up.
    Start,
    /// Associate with the access point.
    Connect,
    /// Wait until the interface has a usable address.
    WaitForAddress,
    /// Disassociate from the access point.
    Disconnect,
    /// Power the radio down.
    Stop,
}

/// What the caller is driving the interface towards.
#[derive(Clone, Copy, Debug, PartialEq, Eq, Structural)]
pub enum Goal {
    Configured,
    Up,
    Down,
}

/// A failed operation, with the platform's error code.
#[derive(Clone, Copy, Debug, PartialEq, Eq, Structural)]
pub enum BringUpError {
    /// The radio refused the station settings or the interface swap.
    Configuration(i32),
    /// The radio did not start.
    Radio(i32),
    /// Association failed.
    Connect(i32),
    /// The interface never came up with an address.
    InterfaceUp(i32),
    /// Disassociation failed.
    Disconnect(i32),
    /// The radio did not stop.
    Stop(i32),
}

/// The controller of the station interface.
///
/// `swap_pending` holds after the station settings are applied while a fixed
/// address still has to be swapped in. `in_flight` is the operation handed
/// out and not yet reported back. `Starting` without an operation in flight
/// means that the radio has started; `Disconnecting` without one means that
/// the station has disassociated.
#[derive(Debug)]
pub struct NetworkStack {
    pub state: InterfaceState,
    pub static_config: Option<StaticNetworkConfig>,
    pub swap_pending: bool,
    pub in_flight: Option<Action>,
}

/// The state the machine is in while `a`, handed out in `state`, runs.
pub open spec fn state_on_issue(state: InterfaceState, a: Action) -> InterfaceState {
    match a {
        Action::Start => InterfaceState::Starting,
        Action::Connect => InterfaceState::Connecting,
        Action::Disconnect => InterfaceState::Disconnecting,
        _ => state,
    }
}

/// The operation that moves `m` towards `goal`, if any is left to do.
pub open spec fn next_action_of(m: NetworkStack, goal: Goal) -> Option<Action> {
    if m.in_flight is Some {
        None
    } else {
        match m.state {
            InterfaceState::Unconfigured => if goal is Down {
                None
            } else {
                Some(Action::ApplyStationConfig)
            },
            InterfaceState::Configured => if goal is Down {
                None
            } else if m.swap_pending {
                Some(Action::SwapInterfaces(m.static_config->Some_0))
            } else if goal is Up {
                Some(Action::Start)
            } else {
                None
            },
            InterfaceState::Starting => if goal is Up {
                Some(Action::Connect)
            } else {
                None
            },
            InterfaceState::WaitingForAddress => if goal is Up {
                Some(Action::WaitForAddress)
            } else {
                None
            },
            InterfaceState::Up => if goal is Down {
                Some(Action::Disconnect)
            } else {
                None
            },
            InterfaceState::Disconnecting => if goal is Down {
                Some(Action::Stop)
            } else {
                None
            },
            _ => None,
        }
    }
}

/// `m` once `a` has been handed out.
pub open spec fn issued(m: NetworkStack, a: Action) -> NetworkStack {
    NetworkStack {
        state: state_on_issue(m.state, a),
        static_config: m.static_config,
        swap_pending: m.swap_pending,
        in_flight: Some(a),
    }
}

/// `m` once the operation in flight has succeeded.
pub open spec fn succeeded(m: NetworkStack) -> NetworkStack {
    let state = match m.in_flight->Some_0 {
        Action::ApplyStationConfig => InterfaceState::Configured,
        Action::Connect => InterfaceState::WaitingForAddress,
        Action::WaitForAddress => InterfaceState::Up,
        Action::Stop => InterfaceState::Down,
        _ => m.state,
    };
    let swap_pending = match m.in_flight->Some_0 {
        Action::ApplyStationConfig => m.static_config is Some,
        Action::SwapInterfaces(_) => false,
        _ => m.swap_pending,
    };
    NetworkStack { state, static_config: m.static_config, swap_pending, in_flight: None }
}

/// `m` once the operation in flight has failed: the state it was handed out
/// in comes back, so that the same operation is the next one.
pub open spec fn failed(m: NetworkStack) -> NetworkStack {
    let state = match m.in_flight->Some_0 {
        Action::Start => InterfaceState::Configured,
        Action::Connect => InterfaceState::Starting,
        Action::Disconnect => InterfaceState::Up,
        _ => m.state,
    };
    NetworkStack {
        state,
        static_config: m.static_config,
        swap_pending: m.swap_pending,
        in_flight: None,
    }
}

/// The error that a failure of `a` with platform code `code` becomes.
pub open spec fn error_of(a: Action, code: i32) -> BringUpError {
    match a {
        Action::ApplyStationConfig => BringUpError::Configuration(code),
        Action::SwapInterfaces(_) => BringUpError::Configuration(code),
        Action::Start => BringUpError::Radio(code),
        Action::Connect => BringUpError::Connect(code),
        Action::WaitForAddress => BringUpError::InterfaceUp(code),
        Action::Disconnect => BringUpError::Disconnect(code),
        Action::Stop => BringUpError::Stop(code),
    }
}

/// The controller before anything has been applied to the radio.
pub open spec fn initial(static_config: Option<StaticNetworkConfig>) -> NetworkStack {
    NetworkStack {
        state: InterfaceState::Unconfigured,
        static_config,
        swap_pending: false,
        in_flight: None,
    }
}

/// Running `m` towards `goal` with every operation succeeding, for at most
/// `fuel` operations: what is handed out, the states passed through (while
/// each operation runs, and after it succeeds), and the machine at the end.
pub open spec fn run_succeeding(m: NetworkStack, goal: Goal, fuel: nat) -> (
    Seq<Action>,
    Seq<InterfaceState>,
    NetworkStack,
)
    decreases fuel,
{
    if fuel == 0 {
        (seq![], seq![], m)
    } else {
        match next_action_of(m, goal) {
            None => (seq![], seq![], m),
            Some(a) => {
                let during = issued(m, a);
                let after = succeeded(during);
                let (rest, states, end) = run_succeeding(after, goal, (fuel - 1) as nat);
                (seq![a] + rest, seq![during.state, after.state] + states, end)
            },
        }
    }
}

/// The operations of a bring-up: the station settings, the interface swap
/// only with a fixed address, then start, connect and wait for an address.
pub open spec fn bring_up_plan(static_config: Option<StaticNetworkConfig>) -> Seq<Action> {
    let configure = match static_config {
        Some(c) => seq![Action::ApplyStationConfig, Action::SwapInterfaces(c)],
        None => seq![Action::ApplyStationConfig],
    };
    configure + seq![Action::Start, Action::Connect, Action::WaitForAddress]
}

/// The states of a bring-up, while each operation runs and after it succeeds.
pub open spec fn bring_up_states(static_config: Option<StaticNetworkConfig>) -> Seq<InterfaceState> {
    let configure = match static_config {
        Some(c) => seq![
            InterfaceState::Unconfigured,
            InterfaceState::Configured,
            InterfaceState::Configured,
            InterfaceState::Configured,
        ],
        None => seq![InterfaceState::Unconfigured, InterfaceState::Configured],
    };
    configure + seq![
        InterfaceState::Starting,
        InterfaceState::Starting,
        InterfaceState::Connecting,
        InterfaceState::WaitingForAddress,
        InterfaceState::WaitingForAddress,
        InterfaceState::Up,
    ]
}

/// A bring-up in which every operation succeeds goes Configured, then the
/// optional swap, then Starting, Connecting, WaitingForAddress and Up, in
/// that order and skipping none, with or without a fixed address; once up,
/// nothing more is handed out.
pub proof fn lemma_bring_up_order(static_config: Option<StaticNetworkConfig>)
    ensures
        ({
            let (actions, states, end) = run_succeeding(initial(static_config), Goal::Up, 6);
            &&& actions == bring_up_plan(static_config)
            &&& states == bring_up_states(static_config)
            &&& end.state == InterfaceState::Up
            &&& next_action_of(end, Goal::Up) is None
        }),
{
    reveal_with_fuel(run_succeeding, 7);
    let (actions, states, end) = run_succeeding(initial(static_config), Goal::Up, 6);
    assert(actions =~= bring_up_plan(static_config));
    assert(states =~= bring_up_states(static_config));
}

/// Taking an up interface down with every operation succeeding disconnects
/// and then stops, and ends down.
pub proof fn lemma_tear_down_order(m: NetworkStack)
    requires
        m.wf(),
        m.state == InterfaceState::Up,
        m.in_flight is None,
    ensures
        ({
            let (actions, states, end) = run_succeeding(m, Goal::Down, 3);
            &&& actions == seq![Action::Disconnect, Action::Stop]
            &&& states == seq![
                InterfaceState::Disconnecting,
                InterfaceState::Disconnecting,
                InterfaceState::Disconnecting,
                InterfaceState::Down,
            ]
            &&& end.state == InterfaceState::Down
        }),
{
    reveal_with_fuel(run_succeeding, 4);
    let (actions, states, end) = run_succeeding(m, Goal::Down, 3);
    assert(actions =~= seq![Action::Disconnect, Action::Stop]);
    assert(states =~= seq![
        InterfaceState::Disconnecting,
        InterfaceState::Disconnecting,
        InterfaceState::Disconnecting,
        InterfaceState::Down,
    ]);
}

/// A stop is never handed out before the disconnect: it comes only in
/// `Disconnecting`, and of all operations only the disconnect enters that
/// state.
pub proof fn lemma_stop_after_disconnect(m: NetworkStack, goal: Goal, a: Action)
    requires
        m.wf(),
    ensures
        next_action_of(m, goal) == Some(Action::Stop) ==> m.state == InterfaceState::Disconnecting,
        next_action_of(m, goal) == Some(a) && m.state != InterfaceState::Disconnecting
            && issued(m, a).state == InterfaceState::Disconnecting ==> a == Action::Disconnect,
{
}

/// A fixed address is all or nothing: when the gateway address or the
/// netmask is missing or malformed, the gateway resolves to absent, so does
/// the fixed configuration whatever the device address, and a bring-up hands
/// out no interface swap.
pub proof fn lemma_static_all_or_nothing(
    device_ip: Option<Seq<char>>,
    gateway_ip: Option<Seq<char>>,
    netmask: Option<Seq<char>>,
)
    requires
        !(gateway_ip is Some && netmask is Some && crate::options::ipv4_of(gateway_ip->Some_0) is Some
            && crate::options::u8_of(netmask->Some_0) is Some),
    ensures
        gateway_resolution(gateway_ip, netmask).0 is None,
        ({
            let cfg = static_config_of(
                static_ip_resolution(device_ip).0,
                gateway_resolution(gateway_ip, netmask).0,
            );
            let (actions, _, end) = run_succeeding(initial(cfg), Goal::Up, 6);
            &&& cfg is None
            &&& forall|i: int| 0 <= i < actions.len() ==> !(#[trigger] actions[i] is SwapInterfaces)
            &&& end.state == InterfaceState::Up
        }),
{
    let cfg = static_config_of(
        static_ip_resolution(device_ip).0,
        gateway_resolution(gateway_ip, netmask).0,
    );
    lemma_bring_up_order(cfg);
    assert(cfg is None);
}

impl NetworkStack {
    pub open spec fn wf(&self) -> bool {
        &&& self.swap_pending ==> self.static_config is Some && self.state
            == InterfaceState::Configured
        &&& match self.in_flight {
            None => self.state != InterfaceState::Connecting,
            Some(Action::ApplyStationConfig) => self.state == InterfaceState::Unconfigured,
            Some(Action::SwapInterfaces(c)) => {
                &&& self.state == InterfaceState::Configured
                &&& self.swap_pending
                &&& self.static_config == Some(c)
            },
            Some(Action::Start) => self.state == InterfaceState::Starting,
            Some(Action::Connect) => self.state == InterfaceState::Connecting,
            Some(Action::WaitForAddress) => self.state == InterfaceState::WaitingForAddress,
            Some(Action::Disconnect) => self.state == InterfaceState::Disconnecting,
            Some(Action::Stop) => self.state == InterfaceState::Disconnecting,
        }
    }

    /// A controller for a radio that nothing has been applied to yet. With a
    /// fixed address the interfaces are swapped right after the station
    /// settings are applied; without one the radio keeps DHCP.
    pub fn new(static_config: Option<StaticNetworkConfig>) -> (r: NetworkStack)
        ensures
            r == initial(static_config),
            r.wf(),
    {
        NetworkStack {
            state: InterfaceState::Unconfigured,
            static_config,
            swap_pending: false,
            in_flight: None,
        }
    }

    fn next_action(&mut self, goal: Goal) -> (r: Option<Action>)
        requires
            old(self).wf(),
        ensures
            final(self).wf(),
            r == next_action_of(*old(self), goal),
            r is Some ==> *final(self) == issued(*old(self), r->Some_0),
            r is None ==> *final(self) == *old(self),
    {
        if self.in_flight.is_some() {
            return None;
        }
        let up = match goal {
            Goal::Up => true,
            _ => false,
        };
        let down = match goal {
            Goal::Down => true,
            _ => false,
        };
        let a = match self.state {
            InterfaceState::Unconfigured => if down {
                None
            } else {
                Some(Action::ApplyStationConfig)
            },
            InterfaceState::Configured => if down {
                None
            } else if self.swap_pending {
                match self.static_config {
                    Some(c) => Some(Action::SwapInterfaces(c)),
                    None => None,
                }
            } else if up {
                Some(Action::Start)
            } else {
                None
            },
            InterfaceState::Starting => if up {
                Some(Action::Connect)
            } else {
                None
            },
            InterfaceState::WaitingForAddress => if up {
                Some(Action::WaitForAddress)
            } else {
                None
            },
            InterfaceState::Up => if down {
                Some(Action::Disconnect)
            } else {
                None
            },
            InterfaceState::Disconnecting => if down {
                Some(Action::Stop)
            } else {
                None
            },
            _ => None,
        };
        if let Some(action) = a {
            self.state =
            match action {
                Action::Start => InterfaceState::Starting,
                Action::Connect => InterfaceState::Connecting,
                Action::Disconnect => InterfaceState::Disconnecting,
                _ => self.state,
            };
            self.in_flight = Some(action);
        }
        a
    }

    /// Hands out the next operation that configures the radio: the station
    /// settings, then the interface swap when a fixed address is set. `None`
    /// once the radio is configured.
    pub fn configure(&mut self) -> (r: Option<Action>)
        requires
            old(self).wf(),
        ensures
            final(self).wf(),
            r == next_action_of(*old(self), Goal::Configured),
            r is Some ==> *final(self) == issued(*old(self), r->Some_0),
            r is None ==> *final(self) == *old(self),
    {
        self.next_action(Goal::Configured)
    }

    /// Hands out the next operation that brings the interface up: configure
    /// first, then start, connect and wait for an address. `None` once the
    /// interface is up.
    pub fn start(&mut self) -> (r: Option<Action>)
        requires
            old(self).wf(),
        ensures
            final(self).wf(),
            r == next_action_of(*old(self), Goal::Up),
            r is Some ==> *final(self) == issued(*old(self), r->Some_0),
            r is None ==> *final(self) == *old(self),
    {
        self.next_action(Goal::Up)
    }

    /// Hands out the next operation that takes the interface down:
    /// disconnect, then stop. `None` once it is down.
    pub fn stop(&mut self) -> (r: Option<Action>)
        requires
            old(self).wf(),
        ensures
            final(self).wf(),
            r == next_action_of(*old(self), Goal::Down),
            r is Some ==> *final(self) == issued(*old(self), r->Some_0),
            r is None ==> *final(self) == *old(self),
    {
        self.next_action(Goal::Down)
    }

    /// Records the outcome of the operation in flight. A failure comes back as
    /// the error of that step, and leaves the machine where that operation
    /// is the next one again.
    pub fn complete(&mut self, outcome: Result<(), i32>) -> (r: Result<(), BringUpError>)
        requires
            old(self).wf(),
            old(self).in_flight is Some,
        ensures
            final(self).wf(),
            outcome is Ok ==> r is Ok && *final(self) == succeeded(*old(self)),
            outcome is Err ==> r == Err::<(), BringUpError>(
                error_of(old(self).in_flight->Some_0, outcome->Err_0),
            ) && *final(self) == failed(*old(self)),
    {
        let a = match self.in_flight {
            Some(a) => a,
            None => Action::Stop,
        };
        self.in_flight = None;
        match outcome {
            Ok(()) => {
                match a {
                    Action::ApplyStationConfig => {
                        self.state = InterfaceState::Configured;
                        self.swap_pending = self.static_config.is_some();
                    },
                    Action::SwapInterfaces(_) => {
                        self.swap_pending = false;
                    },
                    Action::Connect => {
                        self.state = InterfaceState::WaitingForAddress;
                    },
                    Action::WaitForAddress => {
                        self.state = InterfaceState::Up;
                    },
                    Action::Stop => {
                        self.state = InterfaceState::Down;
                    },
                    _ => {},
                }
                Ok(())
            },
            Err(code) => {
                match a {
                    Action::Start => {
                        self.state = InterfaceState::Configured;
                    },
                    Action::Connect => {
                        self.state = InterfaceState::Starting;
                    },
                    Action::Disconnect => {
                        self.state = InterfaceState::Up;
                    },
                    _ => {},
                }
                let e = match a {
                    Action::ApplyStationConfig => BringUpError::Configuration(code),
                    Action::SwapInterfaces(_) => BringUpError::Configuration(code),
                    Action::Start => BringUpError::Radio(code),
                    Action::Connect => BringUpError::Connect(code),
                    Action::WaitForAddress => BringUpError::InterfaceUp(code),
                    Action::Disconnect => BringUpError::Disconnect(code),
                    Action::Stop => BringUpError::Stop(code),
                };
                Err(e)
            },
        }
    }
}

} // verus!
