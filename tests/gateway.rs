use bytes::Bytes;
use novnc_webrtc::channel::{ChannelAction, ChannelBridge, ChannelEvent, Phase};
use novnc_webrtc::config::{self, get, Config, LISTEN_ADDR, UPSTREAM_ADDR};
use novnc_webrtc::negotiation::{Negotiation, NegotiationFailed, NegotiationPhase, NegotiationStep};
use novnc_webrtc::relay::{DownstreamPump, PumpStep, PumpStop, UpstreamWriter, RELAY_BUFFER_SIZE};
use novnc_webrtc::supervisor::{PeerState, Supervisor};

fn drive(b: &mut ChannelBridge, events: &[ChannelEvent]) -> Vec<ChannelAction> {
    let mut out = Vec::new();
    for e in events {
        out.push(b.on_event(*e));
    }
    out
}

fn count(actions: &[ChannelAction], a: ChannelAction) -> usize {
    actions.iter().filter(|x| **x == a).count()
}

#[test]
fn config_defaults() {
    let cfg = Config::new();
    assert_eq!(get(&cfg, LISTEN_ADDR), "0.0.0.0:8000");
    assert_eq!(get(&cfg, UPSTREAM_ADDR), "127.0.0.1:9999");
    assert_eq!(get(&cfg, 7), "");
}

#[test]
fn config_set_replaces() {
    let mut cfg = Config::new();
    config::set(&mut cfg, UPSTREAM_ADDR, "127.0.0.1:5901".to_string());
    assert_eq!(get(&cfg, UPSTREAM_ADDR), "127.0.0.1:5901");
    assert_eq!(get(&cfg, LISTEN_ADDR), "0.0.0.0:8000");
    config::set(&mut cfg, 9, "x".to_string());
    assert_eq!(get(&cfg, 9), "x");
}

#[test]
fn discard_upstream_bridges_and_forwards() {
    let mut b = ChannelBridge::new();
    let acts = drive(
        &mut b,
        &[
            ChannelEvent::Announced,
            ChannelEvent::Connected,
            ChannelEvent::Opened,
            ChannelEvent::Message,
            ChannelEvent::Message,
        ],
    );
    assert_eq!(
        acts,
        vec![
            ChannelAction::Connect,
            ChannelAction::Nothing,
            ChannelAction::StartPump,
            ChannelAction::Forward,
            ChannelAction::Forward
        ]
    );
    assert_eq!(b.phase, Phase::Bridged);
}

#[test]
fn message_after_connect_before_open_is_forwarded() {
    let mut b = ChannelBridge::new();
    let acts = drive(&mut b, &[ChannelEvent::Announced, ChannelEvent::Connected, ChannelEvent::Message]);
    assert_eq!(acts[2], ChannelAction::Forward);
}

#[test]
fn open_before_connect_starts_pump_on_connect() {
    let mut b = ChannelBridge::new();
    let acts = drive(&mut b, &[ChannelEvent::Announced, ChannelEvent::Opened, ChannelEvent::Connected]);
    assert_eq!(acts, vec![ChannelAction::Connect, ChannelAction::Nothing, ChannelAction::StartPump]);
}

#[test]
fn repeated_signals_open_one_connection() {
    let mut b = ChannelBridge::new();
    let acts = drive(
        &mut b,
        &[
            ChannelEvent::Announced,
            ChannelEvent::Opened,
            ChannelEvent::Announced,
            ChannelEvent::Connected,
            ChannelEvent::Opened,
            ChannelEvent::Opened,
            ChannelEvent::Announced,
        ],
    );
    assert_eq!(count(&acts, ChannelAction::Connect), 1);
    assert_eq!(count(&acts, ChannelAction::StartPump), 1);
}

#[test]
fn closed_port_leaves_channel_unbridged() {
    let mut b = ChannelBridge::new();
    let acts = drive(
        &mut b,
        &[
            ChannelEvent::Announced,
            ChannelEvent::ConnectFailed,
            ChannelEvent::Opened,
            ChannelEvent::Message,
            ChannelEvent::Message,
        ],
    );
    assert_eq!(acts[1], ChannelAction::ReportConnectFailed);
    assert_eq!(b.phase, Phase::Unbridged);
    assert_eq!(count(&acts, ChannelAction::Forward), 0);
    assert_eq!(count(&acts, ChannelAction::StartPump), 0);
    assert_eq!(count(&acts, ChannelAction::Drop), 2);
}

#[test]
fn close_releases_upstream() {
    let mut b = ChannelBridge::new();
    let acts = drive(
        &mut b,
        &[ChannelEvent::Announced, ChannelEvent::Connected, ChannelEvent::Closed, ChannelEvent::Message],
    );
    assert_eq!(acts[2], ChannelAction::CloseUpstream);
    assert_eq!(acts[3], ChannelAction::Drop);
}

#[test]
fn late_connection_after_close_is_released() {
    let mut b = ChannelBridge::new();
    let acts = drive(&mut b, &[ChannelEvent::Announced, ChannelEvent::Closed, ChannelEvent::Connected]);
    assert_eq!(acts, vec![ChannelAction::Connect, ChannelAction::Nothing, ChannelAction::CloseUpstream]);
}

#[test]
fn two_bridges_are_independent() {
    let mut a = ChannelBridge::new();
    let mut b = ChannelBridge::new();
    drive(&mut a, &[ChannelEvent::Announced, ChannelEvent::Connected]);
    drive(&mut b, &[ChannelEvent::Announced, ChannelEvent::ConnectFailed]);
    assert_eq!(a.on_event(ChannelEvent::Message), ChannelAction::Forward);
    assert_eq!(b.on_event(ChannelEvent::Message), ChannelAction::Drop);

    let mut wa = UpstreamWriter::new();
    let mut wb = UpstreamWriter::new();
    wa.accept(Bytes::from_static(b"aa"));
    wb.accept(Bytes::from_static(b"bb"));
    assert_eq!(wa.next_write().unwrap(), Bytes::from_static(b"aa"));
    assert_eq!(wb.next_write().unwrap(), Bytes::from_static(b"bb"));
    assert!(wa.next_write().is_none());
}

#[test]
fn failed_state_tears_down_once() {
    let mut s = Supervisor::new();
    assert!(!s.on_state_change(PeerState::Connecting));
    assert!(!s.on_state_change(PeerState::Disconnected));
    assert!(s.on_state_change(PeerState::Failed));
    assert!(!s.on_state_change(PeerState::Failed));
    assert!(!s.on_state_change(PeerState::Failed));
    assert!(s.signalled);
}

#[test]
fn no_failed_state_no_teardown() {
    let mut s = Supervisor::new();
    for st in [PeerState::New, PeerState::Connected, PeerState::Disconnected, PeerState::Closed] {
        assert!(!s.on_state_change(st));
    }
}

#[test]
fn negotiation_success() {
    let mut n = Negotiation::new();
    assert_eq!(n.advance(true), NegotiationStep::CreateAnswer);
    assert_eq!(n.advance(true), NegotiationStep::ApplyAnswer);
    assert_eq!(n.advance(true), NegotiationStep::AwaitGathering);
    assert_eq!(n.advance(true), NegotiationStep::ReadAnswer);
    let answer = n.finish(Some("{\"type\":\"answer\",\"sdp\":\"v=0\"}".to_string()));
    assert_eq!(answer, Ok("{\"type\":\"answer\",\"sdp\":\"v=0\"}".to_string()));
    assert_eq!(n.phase, NegotiationPhase::Answered);
}

#[test]
fn negotiation_bad_offer() {
    let mut n = Negotiation::new();
    assert_eq!(n.advance(false), NegotiationStep::Fail(NegotiationFailed::BadOffer));
    assert_eq!(n.finish(Some("x".to_string())), Err(NegotiationFailed::OutOfOrder));
}

#[test]
fn negotiation_each_failure() {
    let mut n = Negotiation::new();
    n.advance(true);
    assert_eq!(n.advance(false), NegotiationStep::Fail(NegotiationFailed::AnswerNotCreated));
    let mut n = Negotiation::new();
    n.advance(true);
    n.advance(true);
    assert_eq!(n.advance(false), NegotiationStep::Fail(NegotiationFailed::AnswerNotApplied));
    let mut n = Negotiation::new();
    n.advance(true);
    n.advance(true);
    n.advance(true);
    assert_eq!(n.advance(false), NegotiationStep::Fail(NegotiationFailed::GatheringIncomplete));
    assert_eq!(n.advance(true), NegotiationStep::Fail(NegotiationFailed::OutOfOrder));
}

#[test]
fn negotiation_answer_before_gathering_is_refused() {
    let mut n = Negotiation::new();
    n.advance(true);
    n.advance(true);
    n.advance(true);
    assert_eq!(n.finish(Some("x".to_string())), Err(NegotiationFailed::OutOfOrder));
}

#[test]
fn negotiation_missing_or_empty_answer() {
    let mut n = Negotiation::new();
    for _ in 0..4 {
        n.advance(true);
    }
    let mut m = n;
    assert_eq!(n.finish(None), Err(NegotiationFailed::NoAnswer));
    assert_eq!(m.finish(Some(String::new())), Err(NegotiationFailed::NoAnswer));
}

#[test]
fn pump_forwards_exact_prefix() {
    let mut p = DownstreamPump::new();
    let mut buf = [0u8; RELAY_BUFFER_SIZE];
    buf[..5].copy_from_slice(b"hello");
    buf[5] = 42;
    match p.on_read(&buf, Some(5)) {
        PumpStep::Send(b) => assert_eq!(&b[..], b"hello"),
        PumpStep::Stop(_) => panic!("expected a message"),
    }
    match p.on_read(&buf, Some(RELAY_BUFFER_SIZE)) {
        PumpStep::Send(b) => assert_eq!(b.len(), 1024),
        PumpStep::Stop(_) => panic!("expected a message"),
    }
}

#[test]
fn pump_stops_on_close_and_error() {
    let buf = [7u8; RELAY_BUFFER_SIZE];
    let mut p = DownstreamPump::new();
    assert!(matches!(p.on_read(&buf, Some(0)), PumpStep::Stop(PumpStop::UpstreamClosed)));
    assert!(matches!(p.on_read(&buf, Some(3)), PumpStep::Stop(PumpStop::AlreadyStopped)));
    let mut q = DownstreamPump::new();
    assert!(matches!(q.on_read(&buf, None), PumpStep::Stop(PumpStop::ReadFailed)));
}

#[test]
fn writer_keeps_arrival_order() {
    let mut w = UpstreamWriter::new();
    w.accept(Bytes::from_static(b"ab"));
    w.accept(Bytes::from_static(b"c"));
    w.accept(Bytes::from_static(b"def"));
    let mut out = Vec::new();
    while let Some(b) = w.next_write() {
        out.extend_from_slice(&b);
    }
    assert_eq!(out, b"abcdef".to_vec());
    w.accept(Bytes::from_static(b"g"));
    assert_eq!(w.next_write().unwrap(), Bytes::from_static(b"g"));
    assert!(w.next_write().is_none());
}
