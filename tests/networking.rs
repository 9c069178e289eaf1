use wifi_station::networking::{Action, BringUpError, InterfaceState, NetworkStack};
use wifi_station::options::{
    access_point_credentials, get_device_static_ip_addr, get_gateway_info, static_network_config,
    Diagnostic, Ipv4Address, StaticNetworkConfig,
};

fn ip(a: u8, b: u8, c: u8, d: u8) -> Ipv4Address {
    Ipv4Address { a, b, c, d }
}

/// Resolves the settings as a device would, returning the fixed address (if
/// any) and every diagnostic the resolvers asked for.
fn resolve(
    device_ip: Option<&str>,
    gateway_ip: Option<&str>,
    netmask: Option<&str>,
) -> (Option<StaticNetworkConfig>, Vec<Diagnostic>) {
    let (dev, d1) = get_device_static_ip_addr(device_ip);
    let (gw, d2) = get_gateway_info(gateway_ip, netmask);
    let diags = [d1, d2].into_iter().flatten().collect();
    (static_network_config(dev, gw), diags)
}

/// Brings the interface up with every operation succeeding, returning what
/// was handed out and the states seen.
fn bring_up(stack: &mut NetworkStack) -> (Vec<Action>, Vec<InterfaceState>) {
    let mut actions = Vec::new();
    let mut states = Vec::new();
    while let Some(a) = stack.start() {
        actions.push(a);
        states.push(stack.state);
        stack.complete(Ok(())).unwrap();
        states.push(stack.state);
    }
    (actions, states)
}

fn tear_down(stack: &mut NetworkStack) -> Vec<Action> {
    let mut actions = Vec::new();
    while let Some(a) = stack.stop() {
        actions.push(a);
        stack.complete(Ok(())).unwrap();
    }
    actions
}

#[test]
fn dhcp_bring_up_reaches_up_without_swap() {
    assert!(access_point_credentials(Some("lab-net"), Some("secret123")).is_ok());
    let (cfg, _) = resolve(None, None, None);
    assert_eq!(cfg, None);
    let mut stack = NetworkStack::new(cfg);
    let (actions, _) = bring_up(&mut stack);
    assert_eq!(
        actions,
        vec![
            Action::ApplyStationConfig,
            Action::Start,
            Action::Connect,
            Action::WaitForAddress
        ]
    );
    assert_eq!(stack.state, InterfaceState::Up);
}

#[test]
fn static_bring_up_swaps_interfaces() {
    assert!(access_point_credentials(Some("lab-net"), Some("secret123")).is_ok());
    let (cfg, diags) = resolve(Some("192.168.5.151"), Some("192.168.4.1"), Some("22"));
    assert!(diags.is_empty());
    let expected = StaticNetworkConfig {
        device_ip: ip(192, 168, 5, 151),
        gateway_ip: ip(192, 168, 4, 1),
        netmask_prefix_length: 22,
    };
    assert_eq!(cfg, Some(expected));
    let mut stack = NetworkStack::new(cfg);
    let (actions, _) = bring_up(&mut stack);
    assert_eq!(
        actions,
        vec![
            Action::ApplyStationConfig,
            Action::SwapInterfaces(expected),
            Action::Start,
            Action::Connect,
            Action::WaitForAddress
        ]
    );
    assert_eq!(stack.state, InterfaceState::Up);
}

#[test]
fn missing_netmask_falls_back_to_dhcp() {
    let (cfg, diags) = resolve(Some("192.168.5.151"), Some("192.168.4.1"), None);
    assert_eq!(cfg, None);
    assert_eq!(diags, vec![Diagnostic::InvalidGateway]);
    let mut stack = NetworkStack::new(cfg);
    let (actions, _) = bring_up(&mut stack);
    assert!(!actions
        .iter()
        .any(|a| matches!(a, Action::SwapInterfaces(_))));
    assert_eq!(stack.state, InterfaceState::Up);
}

#[test]
fn bring_up_states_in_order() {
    let mut stack = NetworkStack::new(None);
    let (_, states) = bring_up(&mut stack);
    assert_eq!(
        states,
        vec![
            InterfaceState::Unconfigured,
            InterfaceState::Configured,
            InterfaceState::Starting,
            InterfaceState::Starting,
            InterfaceState::Connecting,
            InterfaceState::WaitingForAddress,
            InterfaceState::WaitingForAddress,
            InterfaceState::Up,
        ]
    );
}

#[test]
fn configure_stops_at_configured() {
    let cfg = StaticNetworkConfig {
        device_ip: ip(10, 0, 0, 2),
        gateway_ip: ip(10, 0, 0, 1),
        netmask_prefix_length: 24,
    };
    let mut stack = NetworkStack::new(Some(cfg));
    assert_eq!(stack.configure(), Some(Action::ApplyStationConfig));
    stack.complete(Ok(())).unwrap();
    assert_eq!(stack.configure(), Some(Action::SwapInterfaces(cfg)));
    stack.complete(Ok(())).unwrap();
    assert_eq!(stack.configure(), None);
    assert_eq!(stack.state, InterfaceState::Configured);
    assert_eq!(stack.start(), Some(Action::Start));
}

#[test]
fn tear_down_disconnects_before_stopping() {
    let mut stack = NetworkStack::new(None);
    assert_eq!(tear_down(&mut stack), vec![]);
    bring_up(&mut stack);
    assert_eq!(tear_down(&mut stack), vec![Action::Disconnect, Action::Stop]);
    assert_eq!(stack.state, InterfaceState::Down);
    assert_eq!(stack.start(), None);
}

#[test]
fn nothing_new_while_in_flight() {
    let mut stack = NetworkStack::new(None);
    assert_eq!(stack.start(), Some(Action::ApplyStationConfig));
    assert_eq!(stack.start(), None);
    assert_eq!(stack.stop(), None);
}

#[test]
fn each_failure_has_its_error_and_is_not_retried() {
    let mut stack = NetworkStack::new(Some(StaticNetworkConfig {
        device_ip: ip(10, 0, 0, 2),
        gateway_ip: ip(10, 0, 0, 1),
        netmask_prefix_length: 24,
    }));
    let mut errors = Vec::new();
    let mut code = 100;
    loop {
        let Some(a) = stack.start() else { break };
        let before = stack.state;
        let r = stack.complete(Err(code));
        errors.push(r.unwrap_err());
        // the same operation is the next one again
        assert_eq!(stack.start(), Some(a));
        assert_eq!(stack.state, before);
        stack.complete(Ok(())).unwrap();
        code += 1;
    }
    assert_eq!(
        errors,
        vec![
            BringUpError::Configuration(100),
            BringUpError::Configuration(101),
            BringUpError::Radio(102),
            BringUpError::Connect(103),
            BringUpError::InterfaceUp(104),
        ]
    );
    assert_eq!(stack.state, InterfaceState::Up);

    assert_eq!(stack.stop(), Some(Action::Disconnect));
    assert_eq!(stack.complete(Err(-1)), Err(BringUpError::Disconnect(-1)));
    assert_eq!(stack.state, InterfaceState::Up);
    assert_eq!(stack.stop(), Some(Action::Disconnect));
    stack.complete(Ok(())).unwrap();
    assert_eq!(stack.stop(), Some(Action::Stop));
    assert_eq!(stack.complete(Err(-2)), Err(BringUpError::Stop(-2)));
    assert_eq!(stack.stop(), Some(Action::Stop));
    stack.complete(Ok(())).unwrap();
    assert_eq!(stack.state, InterfaceState::Down);
}
