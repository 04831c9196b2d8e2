use udp_sink::address::Destination;
use udp_sink::address::IpAddress;
use udp_sink::sink::Directive;
use udp_sink::sink::OfferStep;
use udp_sink::sink::PollEvent;
use udp_sink::sink::ResolveState;
use udp_sink::sink::UdpSink;

fn loopback() -> IpAddress {
    IpAddress::V4(127, 0, 0, 1)
}

#[test]
fn initializing_starts_a_lookup() {
    let mut sink = UdpSink::new(String::from("example.com"), 514);
    let directive = sink.advance(PollEvent::Wake);
    assert_eq!(directive, Directive::StartLookup);
    assert_eq!(sink.state, ResolveState::ResolvingDns);
}

#[test]
fn first_address_in_resolver_order_wins() {
    let mut sink = UdpSink::new(String::from("example.com"), 514);
    sink.advance(PollEvent::Wake);
    let addrs = vec![IpAddress::V4(10, 0, 0, 7), IpAddress::V4(192, 168, 0, 1)];
    let directive = sink.advance(PollEvent::LookupDone(addrs));
    let expected = Destination { ip: IpAddress::V4(10, 0, 0, 7), port: 514 };
    assert_eq!(directive, Directive::Ready(expected));
    assert_eq!(sink.state, ResolveState::ResolvedDns(expected));
}

#[test]
fn empty_lookup_result_backs_off_like_an_error() {
    let mut sink = UdpSink::new(String::from("example.com"), 514);
    sink.advance(PollEvent::Wake);
    let directive = sink.advance(PollEvent::LookupDone(Vec::new()));
    assert_eq!(directive, Directive::StartTimer(500));
    assert_eq!(sink.state, ResolveState::Backoff);
}

#[test]
fn lookup_error_backs_off() {
    let mut sink = UdpSink::new(String::from("example.com"), 514);
    sink.advance(PollEvent::Wake);
    let directive = sink.advance(PollEvent::LookupFailed);
    assert_eq!(directive, Directive::StartTimer(500));
    assert_eq!(sink.state, ResolveState::Backoff);
}

#[test]
fn pending_lookup_reports_not_ready() {
    let mut sink = UdpSink::new(String::from("example.com"), 514);
    sink.advance(PollEvent::Wake);
    assert_eq!(sink.advance(PollEvent::LookupPending), Directive::NotReady);
    assert_eq!(sink.state, ResolveState::ResolvingDns);
}

#[test]
fn elapsed_timer_reinitializes() {
    let mut sink = UdpSink::new(String::from("example.com"), 514);
    sink.advance(PollEvent::Wake);
    sink.advance(PollEvent::LookupFailed);
    assert_eq!(sink.advance(PollEvent::TimerPending), Directive::NotReady);
    assert_eq!(sink.advance(PollEvent::TimerElapsed), Directive::Continue);
    assert_eq!(sink.state, ResolveState::Initializing);
}

// One successful resolution serves every later offer: the resolver is
// invoked exactly once across many sends.
#[test]
fn resolved_address_is_reused_without_new_lookups() {
    let mut sink = UdpSink::new(String::from("example.com"), 514);
    let mut lookups: u32 = 0;
    let expected = Destination { ip: loopback(), port: 514 };

    // First offer: the machine asks for one lookup, the resolver answers,
    // and the payload goes out.
    match sink.offer(b"one".to_vec(), PollEvent::Wake) {
        OfferStep::StartLookup(payload) => {
            lookups += 1;
            match sink.offer(payload, PollEvent::LookupDone(vec![loopback()])) {
                OfferStep::Send(payload, dest) => {
                    assert_eq!(payload, b"one".to_vec());
                    assert_eq!(dest, expected);
                    assert_eq!(sink.record_send(true), OfferStep::Accepted);
                }
                other => panic!("expected a send, got {:?}", other),
            }
        }
        other => panic!("expected a lookup, got {:?}", other),
    }

    // Every further offer reuses the cached address with no new lookup.
    for i in 0..50u32 {
        let payload = format!("payload {}", i).into_bytes();
        match sink.offer(payload.clone(), PollEvent::Wake) {
            OfferStep::Send(sent, dest) => {
                assert_eq!(sent, payload);
                assert_eq!(dest, expected);
                assert_eq!(sink.record_send(true), OfferStep::Accepted);
            }
            OfferStep::StartLookup(_) => {
                panic!("resolver invoked again after a successful resolution");
            }
            other => panic!("expected a send, got {:?}", other),
        }
    }
    assert_eq!(lookups, 1);
}

// After a successful resolution following backoff cycles, the machine stays
// in ResolvedDns: repeated advances return the same address immediately.
#[test]
fn resolution_after_backoff_is_permanent() {
    let mut sink = UdpSink::new(String::from("example.com"), 514);
    sink.advance(PollEvent::Wake);
    sink.advance(PollEvent::LookupFailed);
    sink.advance(PollEvent::TimerElapsed);
    assert_eq!(sink.advance(PollEvent::Wake), Directive::StartLookup);
    let directive = sink.advance(PollEvent::LookupDone(vec![loopback()]));
    let expected = Destination { ip: loopback(), port: 514 };
    assert_eq!(directive, Directive::Ready(expected));

    for _ in 0..20 {
        assert_eq!(sink.advance(PollEvent::Wake), Directive::Ready(expected));
        assert_eq!(sink.state, ResolveState::ResolvedDns(expected));
    }
}

// An offer made while resolution is pending comes back deferred with the
// payload unmodified, byte for byte.
#[test]
fn deferred_offer_keeps_payload_bytes() {
    let mut sink = UdpSink::new(String::from("example.com"), 514);
    let payload: Vec<u8> = vec![0, 1, 2, 254, 255, 42];
    let step = sink.offer(payload.clone(), PollEvent::Wake);
    let carried = match step {
        OfferStep::StartLookup(carried) => carried,
        other => panic!("expected a lookup, got {:?}", other),
    };
    assert_eq!(carried, payload);
    match sink.offer(carried, PollEvent::LookupPending) {
        OfferStep::Deferred(returned) => assert_eq!(returned, payload),
        other => panic!("expected a deferral, got {:?}", other),
    }
}

// A send failure is terminal: the offer returns fatal and every later offer
// fails the same way, with the machine unchanged.
#[test]
fn send_failure_is_fatal_and_recurs() {
    let mut sink = UdpSink::new(String::from("example.com"), 514);
    sink.advance(PollEvent::Wake);
    sink.advance(PollEvent::LookupDone(vec![loopback()]));
    assert_eq!(sink.record_send(false), OfferStep::Fatal);
    assert!(sink.failed);

    let state_after_failure = sink.state;
    for _ in 0..10 {
        assert_eq!(sink.offer(b"again".to_vec(), PollEvent::Wake), OfferStep::Fatal);
        assert_eq!(sink.state, state_after_failure);
        assert!(sink.failed);
    }
}

// One whole offer across a backoff cycle: the payload is carried through
// every intermediate step unmodified until the send.
#[test]
fn offer_carries_payload_through_backoff_cycle() {
    let mut sink = UdpSink::new(String::from("example.com"), 514);
    let payload: Vec<u8> = b"carried".to_vec();

    let step = sink.offer(payload.clone(), PollEvent::Wake);
    let carried = match step {
        OfferStep::StartLookup(c) => c,
        other => panic!("expected a lookup, got {:?}", other),
    };
    assert_eq!(carried, payload);

    let step = sink.offer(carried, PollEvent::LookupFailed);
    let (carried, delay) = match step {
        OfferStep::StartTimer(c, delay) => (c, delay),
        other => panic!("expected a timer, got {:?}", other),
    };
    assert_eq!(carried, payload);
    assert_eq!(delay, 500);

    let step = sink.offer(carried, PollEvent::TimerElapsed);
    let carried = match step {
        OfferStep::Poll(c) => c,
        other => panic!("expected an immediate re-offer, got {:?}", other),
    };
    assert_eq!(carried, payload);

    let step = sink.offer(carried, PollEvent::Wake);
    let carried = match step {
        OfferStep::StartLookup(c) => c,
        other => panic!("expected a second lookup, got {:?}", other),
    };
    assert_eq!(carried, payload);

    let step = sink.offer(carried, PollEvent::LookupDone(vec![loopback()]));
    match step {
        OfferStep::Send(sent, dest) => {
            assert_eq!(sent, payload);
            assert_eq!(dest, Destination { ip: loopback(), port: 514 });
        }
        other => panic!("expected a send, got {:?}", other),
    }
}

#[test]
fn custom_backoff_drives_the_timer_delays() {
    let backoff = udp_sink::backoff::Backoff::new(10, 3, 40);
    let mut sink = UdpSink::new_with_backoff(String::from("example.com"), 514, backoff);
    sink.advance(PollEvent::Wake);
    assert_eq!(sink.advance(PollEvent::LookupFailed), Directive::StartTimer(30));
    sink.advance(PollEvent::TimerElapsed);
    sink.advance(PollEvent::Wake);
    assert_eq!(sink.advance(PollEvent::LookupFailed), Directive::StartTimer(40));
    sink.advance(PollEvent::TimerElapsed);
    sink.advance(PollEvent::Wake);
    assert_eq!(sink.advance(PollEvent::LookupFailed), Directive::StartTimer(40));
}

#[test]
fn successful_send_does_not_fail_the_sink() {
    let mut sink = UdpSink::new(String::from("example.com"), 514);
    sink.advance(PollEvent::Wake);
    sink.advance(PollEvent::LookupDone(vec![loopback()]));
    assert_eq!(sink.record_send(true), OfferStep::Accepted);
    assert!(!sink.failed);
}

#[test]
fn flush_is_always_ready() {
    let sink = UdpSink::new(String::from("example.com"), 514);
    assert!(sink.flush());
}
