use crossbeam_channel::{unbounded, Receiver, Sender};
use rusty_drone::controller::{Action, DroneCommand, DroneEvent};
use rusty_drone::drop_rate::DropRate;
use rusty_drone::network::{NodeId, NodeType, SourceRoutingHeader};
use rusty_drone::packet::{FloodRequest, Packet};
use rusty_drone::RustyDrone;
use std::collections::HashMap;

type Drone = RustyDrone<Sender<Packet>>;

struct DroneOptions {
    controller_send: Sender<DroneEvent>,
    event_recv: Receiver<DroneEvent>,
}

impl DroneOptions {
    fn assert_expect_drone_event_fail(&self) {
        assert!(self.event_recv.try_recv().is_err());
    }
}

fn new_flood_request_with_path(
    session_id: u64,
    flood_id: u64,
    initiator_id: NodeId,
    path: &[(NodeId, NodeType)],
) -> Packet {
    Packet::new_flood_request(
        SourceRoutingHeader::empty_route(),
        session_id,
        FloodRequest { flood_id, initiator_id, path_trace: path.to_vec() },
    )
}

fn new_flood_request(session_id: u64, flood_id: u64, initiator_id: NodeId) -> Packet {
    new_flood_request_with_path(session_id, flood_id, initiator_id, &[])
}

fn simple_drone_with_two_exit(
    id: NodeId,
    pdr: DropRate,
    exit1: NodeId,
    exit2: NodeId,
) -> (DroneOptions, Drone, Receiver<Packet>, Receiver<Packet>) {
    let (controller_send, event_recv) = unbounded::<DroneEvent>();
    let options = DroneOptions { controller_send, event_recv };
    let mut drone = RustyDrone::new(id, HashMap::new(), pdr);

    let (new_sender1, new_receiver1) = unbounded();
    drone.handle_commands(DroneCommand::AddSender(exit1, new_sender1));

    let (new_sender2, new_receiver2) = unbounded();
    drone.handle_commands(DroneCommand::AddSender(exit2, new_sender2));

    (options, drone, new_receiver1, new_receiver2)
}

fn handle_packet(options: &DroneOptions, drone: &mut Drone, packet: Packet, crashing: bool) {
    for action in drone.handle_packet(&packet, crashing) {
        match action {
            Action::Send { to, packet } => {
                let _ = drone.sender(to).unwrap().send(packet);
            }
            Action::Notify(event) => {
                let _ = options.controller_send.send(event);
            }
        }
    }
}

#[test]
fn test_drone_flood() {
    let packet = new_flood_request(5, 7, 10);
    let expected = new_flood_request_with_path(5, 7, 10, &[(11, NodeType::Drone)]);

    let (options, mut drone, packet_exit1, packet_exit2) =
        simple_drone_with_two_exit(11, DropRate::one(), 12, 13);
    handle_packet(&options, &mut drone, packet.clone(), false);
    assert_eq!(expected, packet_exit1.try_recv().unwrap());
    assert_eq!(expected, packet_exit2.try_recv().unwrap());

    options.assert_expect_drone_event_fail();
}

#[test]
fn flood_request_is_not_served_while_crashing() {
    let (options, mut drone, packet_exit1, packet_exit2) =
        simple_drone_with_two_exit(11, DropRate::zero(), 12, 13);
    handle_packet(&options, &mut drone, new_flood_request(5, 7, 10), true);
    assert!(packet_exit1.try_recv().is_err());
    assert!(packet_exit2.try_recv().is_err());
    options.assert_expect_drone_event_fail();
    assert!(!drone.has_received_flood(7, 10));
}

#[test]
fn second_request_of_a_flood_is_answered_not_forwarded() {
    let (options, mut drone, packet_exit1, packet_exit2) =
        simple_drone_with_two_exit(11, DropRate::zero(), 12, 13);
    let first = new_flood_request_with_path(5, 7, 10, &[(10, NodeType::Client), (12, NodeType::Drone)]);
    handle_packet(&options, &mut drone, first, false);
    // The first goes to the neighbor it did not come from.
    assert!(packet_exit1.try_recv().is_err());
    let onward = packet_exit2.try_recv().unwrap();
    assert_eq!(
        onward,
        new_flood_request_with_path(
            5,
            7,
            10,
            &[(10, NodeType::Client), (12, NodeType::Drone), (11, NodeType::Drone)]
        )
    );
    options.assert_expect_drone_event_fail();
    assert!(drone.has_received_flood(7, 10));

    let second = new_flood_request_with_path(6, 7, 10, &[(10, NodeType::Client), (13, NodeType::Drone)]);
    handle_packet(&options, &mut drone, second, false);
    assert!(packet_exit1.try_recv().is_err());
    let answer = packet_exit2.try_recv().unwrap();
    assert_eq!(answer.routing_header, SourceRoutingHeader::new(vec![11, 13, 10], 1));
    assert_eq!(answer.session_id, 6);
    assert_eq!(
        answer.pack_type,
        rusty_drone::packet::PacketType::FloodResponse(rusty_drone::packet::FloodResponse {
            flood_id: 7,
            path_trace: vec![(10, NodeType::Client), (13, NodeType::Drone), (11, NodeType::Drone)],
        })
    );
    assert_eq!(options.event_recv.try_recv().unwrap(), DroneEvent::PacketSent(answer));
    assert!(packet_exit2.try_recv().is_err());
}

#[test]
fn same_flood_id_of_another_initiator_is_a_new_flood() {
    let (options, mut drone, packet_exit1, packet_exit2) =
        simple_drone_with_two_exit(11, DropRate::zero(), 12, 13);
    handle_packet(&options, &mut drone, new_flood_request(5, 7, 10), false);
    assert!(packet_exit1.try_recv().is_ok());
    assert!(packet_exit2.try_recv().is_ok());
    handle_packet(&options, &mut drone, new_flood_request(5, 7, 9), false);
    assert!(packet_exit1.try_recv().is_ok());
    assert!(packet_exit2.try_recv().is_ok());
    assert!(drone.has_received_flood(7, 10));
    assert!(drone.has_received_flood(7, 9));
    assert!(!drone.has_received_flood(7, 8));
    assert!(!drone.has_received_flood(8, 10));
}

#[test]
fn drone_with_one_neighbor_answers_a_new_flood() {
    let (controller_send, event_recv) = unbounded::<DroneEvent>();
    let options = DroneOptions { controller_send, event_recv };
    let mut drone: Drone = RustyDrone::new(11, HashMap::new(), DropRate::zero());
    let (sender, exit) = unbounded();
    drone.handle_commands(DroneCommand::AddSender(10, sender));

    // The initiator left the trace empty: it is added to the route.
    handle_packet(&options, &mut drone, new_flood_request(5, 7, 10), false);
    let answer = exit.try_recv().unwrap();
    assert_eq!(answer.routing_header, SourceRoutingHeader::new(vec![11, 10], 1));
    assert_eq!(
        answer.pack_type,
        rusty_drone::packet::PacketType::FloodResponse(rusty_drone::packet::FloodResponse {
            flood_id: 7,
            path_trace: vec![(11, NodeType::Drone)],
        })
    );
    assert_eq!(options.event_recv.try_recv().unwrap(), DroneEvent::PacketSent(answer));
}

#[test]
fn drone_without_neighbors_keeps_a_flood_to_itself() {
    let (controller_send, event_recv) = unbounded::<DroneEvent>();
    let options = DroneOptions { controller_send, event_recv };
    let mut drone: Drone = RustyDrone::new(11, HashMap::new(), DropRate::zero());
    let actions = drone.handle_packet(&new_flood_request(5, 7, 10), false);
    assert!(actions.is_empty());
    assert!(drone.has_received_flood(7, 10));
    options.assert_expect_drone_event_fail();
}
