use player_relay::identity::IdentityUnavailable;
use player_relay::net::{NetPlayerHandle, QueueClosed, RecvState, SendState, SendStep};
use player_relay::player_cmd::{perform, ControlRequest, PlayerCmd};
use player_relay::transport::{
    announce, react, FatalError, InboundEvent, Publication, QoS, RecvAction, SessionPlan,
    StartError, KEEP_ALIVE_SECS, REQUEST_CAPACITY,
};

const CHANNEL: &str = "living-room";
const PLAYER: &str = "VLC media player";

fn plan() -> SessionPlan {
    SessionPlan::with_identity(Ok("alice0000002a".to_string()), "broker.local", 1883, CHANNEL)
        .expect("an identity gives a plan")
}

fn started() -> NetPlayerHandle {
    NetPlayerHandle::start(&plan(), PLAYER, true).expect("a subscribed session starts")
}

fn message(topic: &str, payload: Vec<u8>) -> InboundEvent {
    InboundEvent::Message { topic: topic.to_string(), payload }
}

fn expect_publish(step: SendStep) -> Publication {
    match step {
        SendStep::Publish(publication) => publication,
        other => panic!("expected a publication, got {:?}", other),
    }
}

/// Runs the send worker until it waits or exits, with every publish
/// succeeding or failing as `accepted` says, and gives the payloads in the
/// order in which they were handed over.
fn drain(handle: &mut NetPlayerHandle, accepted: bool) -> Vec<Vec<u8>> {
    let mut payloads = Vec::new();
    loop {
        match handle.next_send() {
            SendStep::Publish(publication) => {
                assert_eq!(publication.topic, CHANNEL);
                payloads.push(publication.payload);
                handle.publish_finished(accepted);
            }
            SendStep::Wait | SendStep::Exit => return payloads,
        }
    }
}

#[test]
fn plan_holds_what_the_transport_needs() {
    let plan = plan();
    assert_eq!(plan.identity, "alice0000002a");
    assert_eq!(plan.server_addr, "broker.local");
    assert_eq!(plan.server_port, 1883);
    assert_eq!(plan.keep_alive_secs, 5);
    assert_eq!(plan.keep_alive_secs, KEEP_ALIVE_SECS);
    assert_eq!(plan.request_capacity, 10);
    assert_eq!(plan.request_capacity, REQUEST_CAPACITY);
    assert_eq!(plan.channel, CHANNEL);
    assert_eq!(plan.subscribe_qos, QoS::AtMostOnce);
}

#[test]
fn no_identity_no_plan() {
    let plan = SessionPlan::with_identity(Err(IdentityUnavailable), "broker.local", 1883, CHANNEL);
    assert_eq!(plan.err(), Some(StartError::IdentityUnavailable));
}

#[test]
fn prepared_plan_is_for_the_arguments() {
    match SessionPlan::prepare("broker.local", 8883, CHANNEL) {
        Ok(plan) => {
            assert_eq!(plan.server_addr, "broker.local");
            assert_eq!(plan.server_port, 8883);
            assert_eq!(plan.channel, CHANNEL);
            assert_eq!(plan.keep_alive_secs, 5);
            assert_eq!(plan.request_capacity, 10);
            assert_eq!(plan.subscribe_qos, QoS::AtMostOnce);
            assert!(plan.identity.chars().count() >= 8);
        }
        Err(e) => assert_eq!(e, StartError::IdentityUnavailable),
    }
}

#[test]
fn start_without_subscription_fails() {
    let handle = NetPlayerHandle::start(&plan(), PLAYER, false);
    assert_eq!(handle.err(), Some(StartError::ConnectionError));
}

#[test]
fn started_session_is_idle_and_listening() {
    let mut handle = started();
    assert_eq!(handle.channel(), CHANNEL);
    assert_eq!(handle.player(), PLAYER);
    assert_eq!(handle.pending(), 0);
    assert_eq!(handle.send_state(), SendState::Idle);
    assert_eq!(handle.recv_state(), RecvState::Listening);
    assert!(matches!(handle.next_send(), SendStep::Wait));
    assert_eq!(handle.send_state(), SendState::Idle);
}

#[test]
fn announce_is_one_byte_at_least_once_not_retained() {
    let publication = announce(&CHANNEL.to_string(), PlayerCmd::Pause);
    assert_eq!(publication.topic, CHANNEL);
    assert_eq!(publication.qos, QoS::AtLeastOnce);
    assert!(!publication.retain);
    assert_eq!(publication.payload, vec![1]);
}

#[test]
fn play_pause_is_published_as_its_single_byte() {
    let mut handle = started();
    assert_eq!(handle.send_command(PlayerCmd::PlayPause), Ok(()));
    assert_eq!(handle.pending(), 1);
    let publication = expect_publish(handle.next_send());
    assert_eq!(publication.payload, vec![PlayerCmd::PlayPause.encode()]);
    assert_eq!(publication.payload, vec![2]);
    assert_eq!(publication.topic, CHANNEL);
    assert_eq!(publication.qos, QoS::AtLeastOnce);
    assert!(!publication.retain);
    assert_eq!(handle.send_state(), SendState::Publishing);
    handle.publish_finished(true);
    assert_eq!(handle.send_state(), SendState::Idle);
    assert_eq!(handle.pending(), 0);
    assert!(matches!(handle.next_send(), SendStep::Wait));
}

#[test]
fn commands_are_published_in_the_order_queued() {
    let mut handle = started();
    for cmd in [PlayerCmd::Play, PlayerCmd::Pause, PlayerCmd::PlayPause] {
        assert_eq!(handle.send_command(cmd), Ok(()));
    }
    assert_eq!(handle.pending(), 3);
    assert_eq!(drain(&mut handle, true), vec![vec![0], vec![1], vec![2]]);
    assert_eq!(handle.pending(), 0);
}

#[test]
fn queueing_between_polls_keeps_the_order() {
    let mut handle = started();
    handle.send_command(PlayerCmd::Pause).unwrap();
    handle.send_command(PlayerCmd::Pause).unwrap();
    let first = expect_publish(handle.next_send());
    handle.send_command(PlayerCmd::Play).unwrap();
    handle.publish_finished(true);
    handle.send_command(PlayerCmd::PlayPause).unwrap();
    let mut payloads = vec![first.payload];
    payloads.extend(drain(&mut handle, true));
    assert_eq!(payloads, vec![vec![1], vec![1], vec![0], vec![2]]);
}

#[test]
fn one_publish_at_a_time() {
    let mut handle = started();
    handle.send_command(PlayerCmd::Play).unwrap();
    handle.send_command(PlayerCmd::Pause).unwrap();
    expect_publish(handle.next_send());
    assert!(matches!(handle.next_send(), SendStep::Wait));
    assert_eq!(handle.pending(), 1);
    handle.publish_finished(true);
    assert_eq!(expect_publish(handle.next_send()).payload, vec![1]);
}

#[test]
fn failed_publish_is_not_retried() {
    let mut handle = started();
    handle.send_command(PlayerCmd::Play).unwrap();
    handle.send_command(PlayerCmd::Pause).unwrap();
    assert_eq!(drain(&mut handle, false), vec![vec![0], vec![1]]);
    assert_eq!(handle.pending(), 0);
    assert_eq!(handle.send_state(), SendState::Idle);
    assert!(matches!(handle.next_send(), SendStep::Wait));
}

#[test]
fn publish_report_without_publish_changes_nothing() {
    let mut handle = started();
    handle.send_command(PlayerCmd::Play).unwrap();
    handle.publish_finished(true);
    assert_eq!(handle.send_state(), SendState::Idle);
    assert_eq!(handle.pending(), 1);
}

#[test]
fn queueing_after_join_fails() {
    let mut handle = started();
    handle.send_command(PlayerCmd::Play).unwrap();
    assert_eq!(handle.join(), None);
    assert_eq!(handle.send_command(PlayerCmd::Pause), Err(QueueClosed));
    assert_eq!(handle.pending(), 1);
    assert_eq!(drain(&mut handle, true), vec![vec![0]]);
}

#[test]
fn send_worker_exits_once_closed_and_drained() {
    let mut handle = started();
    handle.send_command(PlayerCmd::Play).unwrap();
    assert_eq!(handle.join(), None);
    expect_publish(handle.next_send());
    handle.publish_finished(true);
    assert!(matches!(handle.next_send(), SendStep::Exit));
    assert_eq!(handle.send_state(), SendState::Drained);
    assert!(matches!(handle.next_send(), SendStep::Exit));
    assert_eq!(handle.send_command(PlayerCmd::Play), Err(QueueClosed));
    assert_eq!(handle.join(), None);
}

#[test]
fn inbound_play_is_dispatched_to_the_known_player() {
    let mut handle = started();
    let event = message(CHANNEL, vec![PlayerCmd::Play.encode()]);
    let action = handle.on_event(&event);
    assert_eq!(action, RecvAction::Dispatch(PlayerCmd::Play));
    assert_eq!(handle.recv_state(), RecvState::Listening);
    let players = vec!["mpv".to_string(), PLAYER.to_string()];
    let cmd = match action {
        RecvAction::Dispatch(cmd) => cmd,
        _ => unreachable!(),
    };
    assert_eq!(
        perform(Some(&players), handle.player(), cmd),
        Ok(ControlRequest { player: 1, cmd: PlayerCmd::Play })
    );
}

#[test]
fn inbound_commands_decode_by_their_first_byte() {
    let mut handle = started();
    assert_eq!(handle.on_event(&message(CHANNEL, vec![0])), RecvAction::Dispatch(PlayerCmd::Play));
    assert_eq!(handle.on_event(&message(CHANNEL, vec![1])), RecvAction::Dispatch(PlayerCmd::Pause));
    assert_eq!(
        handle.on_event(&message(CHANNEL, vec![2])),
        RecvAction::Dispatch(PlayerCmd::PlayPause)
    );
    assert_eq!(
        handle.on_event(&message(CHANNEL, vec![1, 200, 7])),
        RecvAction::Dispatch(PlayerCmd::Pause)
    );
}

#[test]
fn inbound_byte_out_of_range_is_unrecognized() {
    let mut handle = started();
    assert_eq!(handle.on_event(&message(CHANNEL, vec![200])), RecvAction::Unrecognized);
    assert_eq!(handle.on_event(&message(CHANNEL, vec![3])), RecvAction::Unrecognized);
    assert_eq!(handle.on_event(&message(CHANNEL, vec![255, 0])), RecvAction::Unrecognized);
    assert_eq!(handle.recv_state(), RecvState::Listening);
}

#[test]
fn inbound_empty_payload_is_unrecognized() {
    let mut handle = started();
    assert_eq!(handle.on_event(&message(CHANNEL, Vec::new())), RecvAction::Unrecognized);
    assert_eq!(handle.recv_state(), RecvState::Listening);
}

#[test]
fn inbound_on_another_topic_is_ignored() {
    let mut handle = started();
    assert_eq!(handle.on_event(&message("kitchen", vec![0])), RecvAction::Ignore);
    assert_eq!(handle.on_event(&message("living-room/", vec![1])), RecvAction::Ignore);
    assert_eq!(handle.on_event(&message("", vec![2])), RecvAction::Ignore);
    assert_eq!(handle.on_event(&message("kitchen", vec![200])), RecvAction::Ignore);
    assert_eq!(handle.on_event(&message("kitchen", Vec::new())), RecvAction::Ignore);
    assert_eq!(handle.recv_state(), RecvState::Listening);
}

#[test]
fn other_traffic_is_ignored() {
    let mut handle = started();
    assert_eq!(handle.on_event(&InboundEvent::Other), RecvAction::Ignore);
    assert_eq!(handle.recv_state(), RecvState::Listening);
}

#[test]
fn react_needs_no_session() {
    let channel = CHANNEL.to_string();
    assert_eq!(react(&channel, &message(CHANNEL, vec![2])), RecvAction::Dispatch(PlayerCmd::PlayPause));
    assert_eq!(react(&channel, &message("kitchen", vec![2])), RecvAction::Ignore);
    assert_eq!(react(&channel, &message(CHANNEL, vec![9])), RecvAction::Unrecognized);
    assert_eq!(react(&channel, &InboundEvent::Other), RecvAction::Ignore);
    assert_eq!(react(&channel, &InboundEvent::ConnectionClosed), RecvAction::Terminate);
}

#[test]
fn own_publication_is_handled_like_any_message() {
    let mut handle = started();
    handle.send_command(PlayerCmd::PlayPause).unwrap();
    handle.send_command(PlayerCmd::Play).unwrap();
    let publication = expect_publish(handle.next_send());
    let echo = InboundEvent::Message { topic: publication.topic, payload: publication.payload };
    assert_eq!(handle.on_event(&echo), RecvAction::Dispatch(PlayerCmd::PlayPause));
    assert_eq!(handle.recv_state(), RecvState::Listening);
    assert_eq!(handle.send_state(), SendState::Publishing);
    assert_eq!(handle.pending(), 1);
    handle.publish_finished(true);
    assert_eq!(expect_publish(handle.next_send()).payload, vec![0]);
}

#[test]
fn inbound_events_leave_the_queue_alone() {
    let mut handle = started();
    handle.send_command(PlayerCmd::Pause).unwrap();
    handle.on_event(&message(CHANNEL, vec![0]));
    handle.on_event(&message("kitchen", vec![0]));
    handle.on_event(&InboundEvent::ConnectionClosed);
    assert_eq!(handle.pending(), 1);
    assert_eq!(drain(&mut handle, false), vec![vec![1]]);
}

#[test]
fn closed_connection_stops_the_receive_worker() {
    let mut handle = started();
    assert_eq!(handle.on_event(&InboundEvent::ConnectionClosed), RecvAction::Terminate);
    assert_eq!(handle.recv_state(), RecvState::Terminated(FatalError::ConnectionClosed));
    assert_eq!(handle.on_event(&message(CHANNEL, vec![0])), RecvAction::Ignore);
    assert_eq!(handle.on_event(&InboundEvent::ConnectionClosed), RecvAction::Ignore);
    assert_eq!(handle.recv_state(), RecvState::Terminated(FatalError::ConnectionClosed));
}

#[test]
fn join_reports_the_closed_connection_once_both_workers_ended() {
    let mut handle = started();
    handle.send_command(PlayerCmd::Play).unwrap();
    handle.send_command(PlayerCmd::Pause).unwrap();
    expect_publish(handle.next_send());
    assert_eq!(handle.on_event(&InboundEvent::ConnectionClosed), RecvAction::Terminate);
    assert_eq!(handle.join(), None);
    handle.publish_finished(false);
    assert_eq!(drain(&mut handle, false), vec![vec![1]]);
    assert_eq!(handle.send_state(), SendState::Drained);
    assert_eq!(handle.join(), Some(FatalError::ConnectionClosed));
    assert_eq!(handle.join(), Some(FatalError::ConnectionClosed));
}

#[test]
fn join_waits_for_the_receive_worker() {
    let mut handle = started();
    assert_eq!(handle.join(), None);
    assert!(matches!(handle.next_send(), SendStep::Exit));
    assert_eq!(handle.join(), None);
    assert_eq!(handle.on_event(&message(CHANNEL, vec![0])), RecvAction::Dispatch(PlayerCmd::Play));
    assert_eq!(handle.join(), None);
    assert_eq!(handle.on_event(&InboundEvent::ConnectionClosed), RecvAction::Terminate);
    assert_eq!(handle.join(), Some(FatalError::ConnectionClosed));
}
