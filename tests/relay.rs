use mproxy::{
    Delivery, Endpoint, GatewayArgs, IpAddress, ReadDecision, RelayLoop, RelayState, Sink,
    SourceKind, TargetPool, Termination, copy_endpoints, decide_read, relay_routes,
};

fn v4(a: u8, b: u8, c: u8, d: u8, port: u16) -> Endpoint {
    Endpoint::new(IpAddress::V4(u32::from_be_bytes([a, b, c, d])), port)
}

fn payloads_to(writes: &[Delivery], sink: Sink) -> Vec<Vec<u8>> {
    writes.iter().filter(|d| d.sink == sink).map(|d| d.payload.clone()).collect()
}

/// Runs a started loop over `reads`, completing each dispatch, and returns
/// every write it asked for.
fn run(l: &mut RelayLoop, reads: &[&[u8]]) -> Vec<Delivery> {
    let mut all = Vec::new();
    for r in reads {
        if !l.is_running() {
            break;
        }
        let writes = l.on_read(r);
        let dispatched = !writes.is_empty();
        all.extend(writes);
        if dispatched {
            l.on_dispatched(true);
        }
    }
    all
}

#[test]
fn read_decisions() {
    assert_eq!(decide_read(SourceKind::File, b""), ReadDecision::Stop(Termination::EndOfInput));
    assert_eq!(decide_read(SourceKind::Datagram, b""), ReadDecision::Stop(Termination::EmptyRead));
    assert_eq!(decide_read(SourceKind::Stream, b""), ReadDecision::Stop(Termination::EmptyRead));
    assert_eq!(decide_read(SourceKind::File, b"\n"), ReadDecision::Skip);
    assert_eq!(decide_read(SourceKind::Datagram, b"\n"), ReadDecision::Forward);
    assert_eq!(decide_read(SourceKind::File, b"\n\n"), ReadDecision::Forward);
    assert_eq!(decide_read(SourceKind::File, b"a\n"), ReadDecision::Forward);
    assert_eq!(decide_read(SourceKind::File, b"\r"), ReadDecision::Forward);
}

#[test]
fn client_file_to_unicast_listener_log() {
    let target = v4(127, 0, 0, 1, 9910);
    let mut client = RelayLoop::producer(TargetPool::new(vec![target]), false);
    client.start();
    let sent = run(&mut client, &[b"hello\n", b""]);
    assert_eq!(client.state(), RelayState::Terminated(Termination::EndOfInput));
    let datagrams = payloads_to(&sent, Sink::Target(0));
    assert_eq!(datagrams, vec![b"hello\n".to_vec()]);

    let mut listener = RelayLoop::listener(false);
    listener.start();
    let mut log: Vec<u8> = Vec::new();
    for d in &datagrams {
        for w in listener.on_read(d) {
            assert_eq!(w.sink, Sink::Output);
            log.extend(w.payload);
        }
        listener.on_dispatched(true);
    }
    assert_eq!(log, b"hello\n".to_vec());
    assert_eq!(log.len(), 6);
}

#[test]
fn relay_forwards_to_its_target() {
    let routes = relay_routes(&vec![v4(0, 0, 0, 0, 8890)], &vec![v4(127, 0, 0, 1, 8891)], false);
    assert_eq!(routes.len(), 1);
    let mut relay = routes[0].relay();
    relay.start();
    let writes = relay.on_read(b"xyz");
    assert_eq!(relay.state(), RelayState::Dispatching);
    assert_eq!(writes, vec![Delivery { sink: Sink::Target(0), payload: b"xyz".to_vec() }]);
    assert_eq!(relay.pool().get(0), v4(127, 0, 0, 1, 8891));

    let mut listener = RelayLoop::listener(false);
    listener.start();
    let logged = listener.on_read(&writes[0].payload);
    assert_eq!(payloads_to(&logged, Sink::Output), vec![b"xyz".to_vec()]);
}

#[test]
fn stream_to_datagram_bridge_sends_one_datagram_per_chunk() {
    let mut session = RelayLoop::stream_to_datagram(v4(127, 0, 0, 1, 9001));
    session.start();
    let writes = session.on_read(b"abc");
    assert_eq!(writes, vec![Delivery { sink: Sink::Target(0), payload: b"abc".to_vec() }]);
    session.on_dispatched(true);
    assert!(session.on_read(b"").is_empty());
    assert_eq!(session.state(), RelayState::Terminated(Termination::EmptyRead));
}

#[test]
fn empty_file_sends_nothing_and_ends_cleanly() {
    let mut client = RelayLoop::producer(TargetPool::new(vec![v4(127, 0, 0, 1, 9910)]), true);
    client.start();
    let writes = client.on_read(b"");
    assert!(writes.is_empty());
    assert!(!client.is_running());
    match client.state() {
        RelayState::Terminated(t) => {
            assert_eq!(t, Termination::EndOfInput);
            assert!(!t.is_error());
        }
        other => panic!("still running: {:?}", other),
    }
}

#[test]
fn fan_out_writes_once_per_target_in_pool_order_then_tee() {
    let pool = TargetPool::new(vec![
        v4(127, 0, 0, 1, 1),
        v4(127, 0, 0, 1, 2),
        v4(224, 0, 0, 1, 3),
    ]);
    let mut relay = RelayLoop::proxy(pool, true);
    relay.start();
    let writes = relay.on_read(b"B");
    let sinks: Vec<Sink> = writes.iter().map(|d| d.sink).collect();
    assert_eq!(sinks, vec![Sink::Target(0), Sink::Target(1), Sink::Target(2), Sink::Tee]);
    assert!(writes.iter().all(|d| d.payload == b"B".to_vec()));
}

#[test]
fn empty_pool_without_tee_writes_nothing() {
    let mut relay = RelayLoop::proxy(TargetPool::new(vec![]), false);
    relay.start();
    assert!(relay.on_read(b"data").is_empty());
    assert_eq!(relay.state(), RelayState::Dispatching);
}

#[test]
fn tee_sees_what_targets_see_in_order() {
    let pool = TargetPool::new(vec![v4(127, 0, 0, 1, 1), v4(127, 0, 0, 1, 2)]);
    let mut client = RelayLoop::producer(pool, true);
    client.start();
    let all = run(&mut client, &[b"one", b"\n", b"two", b"three", b""]);
    let expected = vec![b"one".to_vec(), b"two".to_vec(), b"three".to_vec()];
    assert_eq!(payloads_to(&all, Sink::Tee), expected);
    assert_eq!(payloads_to(&all, Sink::Target(0)), expected);
    assert_eq!(payloads_to(&all, Sink::Target(1)), expected);
}

#[test]
fn lone_line_feed_is_not_forwarded_by_a_client() {
    let mut client = RelayLoop::producer(TargetPool::new(vec![v4(127, 0, 0, 1, 1)]), true);
    client.start();
    assert!(client.on_read(b"\n").is_empty());
    assert_eq!(client.state(), RelayState::Receiving);
    let writes = client.on_read(b"\n\n");
    assert_eq!(writes.len(), 2);
}

#[test]
fn line_feed_datagram_is_forwarded_by_a_proxy() {
    let mut relay = RelayLoop::datagram_to_datagram(v4(224, 0, 0, 1, 5));
    relay.start();
    let writes = relay.on_read(b"\n");
    assert_eq!(writes, vec![Delivery { sink: Sink::Target(0), payload: b"\n".to_vec() }]);
}

#[test]
fn empty_datagram_is_a_fault() {
    let mut listener = RelayLoop::listener(true);
    listener.start();
    assert!(listener.on_read(b"").is_empty());
    assert_eq!(listener.state(), RelayState::Terminated(Termination::EmptyRead));
    assert!(Termination::EmptyRead.is_error());
}

#[test]
fn failed_write_terminates_the_loop() {
    let mut session = RelayLoop::datagram_to_stream();
    session.start();
    let writes = session.on_read(b"abc");
    assert_eq!(writes, vec![Delivery { sink: Sink::Output, payload: b"abc".to_vec() }]);
    session.on_dispatched(false);
    assert_eq!(session.state(), RelayState::Terminated(Termination::WriteFailed));
    assert!(Termination::WriteFailed.is_error());
}

#[test]
fn failed_read_terminates_the_loop() {
    let mut relay = RelayLoop::proxy(TargetPool::new(vec![v4(127, 0, 0, 1, 1)]), false);
    assert_eq!(relay.state(), RelayState::Bound);
    relay.start();
    relay.on_read_failed();
    assert_eq!(relay.state(), RelayState::Terminated(Termination::ReadFailed));
    assert!(Termination::ReadFailed.is_error());
}

#[test]
fn listener_with_tee_logs_then_tees() {
    let mut listener = RelayLoop::listener(true);
    listener.start();
    let writes = listener.on_read(b"log me");
    let sinks: Vec<Sink> = writes.iter().map(|d| d.sink).collect();
    assert_eq!(sinks, vec![Sink::Output, Sink::Tee]);
}

#[test]
fn one_route_per_listen_address() {
    let listens = vec![v4(0, 0, 0, 0, 9920), Endpoint::new(IpAddress::V6(0), 9921)];
    let targets = vec![v4(127, 0, 0, 1, 1), v4(127, 0, 0, 1, 2)];
    let routes = relay_routes(&listens, &targets, true);
    assert_eq!(routes.len(), 2);
    for (route, listen) in routes.iter().zip(listens.iter()) {
        assert_eq!(route.listen, *listen);
        assert_eq!(route.targets, targets);
        assert!(route.tee);
    }
    assert!(relay_routes(&vec![], &targets, false).is_empty());
}

#[test]
fn copies_keep_order() {
    let v = vec![v4(1, 2, 3, 4, 5), v4(5, 4, 3, 2, 1)];
    assert_eq!(copy_endpoints(&v), v);
}

#[test]
fn gateway_args_hold_their_settings() {
    let args = GatewayArgs::new(
        vec!["[::1]:9921".to_string()],
        vec!["0.0.0.0:9920".to_string()],
        true,
    );
    assert_eq!(args.downstream_addrs(), &vec!["[::1]:9921".to_string()]);
    assert_eq!(args.listen_addrs(), &vec!["0.0.0.0:9920".to_string()]);
    assert!(args.tee());
}
