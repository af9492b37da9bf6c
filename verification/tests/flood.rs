use crossbeam_channel::{unbounded, Receiver, Sender};
use rusty_drone::controller::{Action, DroneEvent};
use rusty_drone::drone::{Event, Phase};
use rusty_drone::drop_rate::DropRate;
use rusty_drone::network::{NodeId, NodeType, SourceRoutingHeader};
use rusty_drone::packet::{FloodRequest, Packet, PacketType};
use rusty_drone::RustyDrone;
use std::collections::{HashMap, HashSet};
use std::time::Duration;

const TIMEOUT: Duration = Duration::from_millis(100);

type Drone = RustyDrone<Sender<Packet>>;

struct NetworkDrone {
    packet_drone_in: Sender<Packet>,
    packet_recv: Receiver<Packet>,
    packet_send: HashMap<NodeId, Sender<Packet>>,
    drone: Option<Drone>,
}

/// Nodes 0 to `amount - 1`, those of `client` left to the test, the others
/// drones that are run in turn until none of them has anything left to do.
struct Network {
    sc_event_send: Sender<DroneEvent>,
    nodes: Vec<NetworkDrone>,
}

impl Network {
    fn create_and_run(amount: usize, connections: &[(NodeId, NodeId)], client: &[NodeId]) -> Self {
        let (sc_event_send, _sc_event_rcv) = unbounded::<DroneEvent>();
        let mut nodes = Vec::new();
        for _ in 0..amount {
            let (packet_drone_in, packet_recv) = unbounded::<Packet>();
            nodes.push(NetworkDrone {
                packet_drone_in,
                packet_recv,
                packet_send: HashMap::new(),
                drone: None,
            });
        }
        for (start, end) in connections {
            let start_input = nodes[*start as usize].packet_drone_in.clone();
            let end_input = nodes[*end as usize].packet_drone_in.clone();
            nodes[*start as usize].packet_send.insert(*end, end_input);
            nodes[*end as usize].packet_send.insert(*start, start_input);
        }
        for (i, node) in nodes.iter_mut().enumerate() {
            if !client.contains(&(i as NodeId)) {
                node.drone =
                    Some(RustyDrone::new(i as NodeId, node.packet_send.clone(), DropRate::zero()));
            }
        }
        Self { sc_event_send, nodes }
    }

    fn settle(&mut self) {
        let mut busy = true;
        while busy {
            busy = false;
            for node in self.nodes.iter_mut() {
                let Some(drone) = node.drone.as_mut() else {
                    continue;
                };
                assert_eq!(drone.phase(), Phase::Active);
                let Ok(packet) = node.packet_recv.try_recv() else {
                    continue;
                };
                busy = true;
                for action in drone.step(Event::Packet(packet)) {
                    match action {
                        Action::Send { to, packet } => {
                            let _ = drone.sender(to).unwrap().send(packet);
                        }
                        Action::Notify(event) => {
                            let _ = self.sc_event_send.send(event);
                        }
                    }
                }
            }
        }
    }

    fn send_to_dest_as_client(&mut self, from: NodeId, to: NodeId, packet: Packet) -> Option<()> {
        let sent = self.nodes[from as usize].packet_send.get(&to)?.send(packet).ok();
        self.settle();
        sent
    }

    fn recv_as_client(&self, node_id: NodeId, _timeout: Duration) -> Option<Packet> {
        self.nodes[node_id as usize].packet_recv.try_recv().ok()
    }
}

fn new_flood_request_with_path(
    session_id: u64,
    flood_id: u64,
    initiator_id: NodeId,
    path: &[(NodeId, NodeType)],
) -> Packet {
    Packet::new_flood_request(
        SourceRoutingHeader::empty_route(),
        session_id,
        FloodRequest { flood_id, initiator_id, path_trace: path.to_vec() },
    )
}

fn new_flood_request(
    session_id: u64,
    flood_id: u64,
    initiator_id: NodeId,
    include_itself: bool,
) -> Packet {
    if include_itself {
        new_flood_request_with_path(
            session_id,
            flood_id,
            initiator_id,
            &[(initiator_id, NodeType::Client)],
        )
    } else {
        new_flood_request_with_path(session_id, flood_id, initiator_id, &[])
    }
}

/// The path traces of the flood responses that reached the client `at`.
fn traces_at(net: &Network, at: NodeId, timeout: Duration) -> Vec<Vec<(NodeId, NodeType)>> {
    let mut traces = Vec::new();
    while let Some(packet) = net.recv_as_client(at, timeout) {
        if let PacketType::FloodResponse(flood_res) = packet.pack_type {
            assert_eq!(flood_res.flood_id, 7);
            assert_eq!(packet.session_id, 5);
            traces.push(flood_res.path_trace);
        } else if let PacketType::FloodRequest(_) = packet.pack_type {
        } else {
            panic!("Received {:?}", packet);
        }
    }
    traces
}

fn assert_topology_on_client(
    net: Network,
    mut expected: Vec<(NodeId, NodeType)>,
    timeout: Duration,
) {
    let mut hash_map = HashMap::new();

    for trace in traces_at(&net, 0, timeout) {
        for (node_id, node_type) in trace {
            if let Some(old_type) = hash_map.get(&node_id) {
                assert_eq!(*old_type, node_type);
            } else {
                hash_map.insert(node_id, node_type);
            }
        }
    }

    assert_eq!(hash_map.len(), expected.len(), "Wrong len");

    let mut result = hash_map.into_iter().collect::<Vec<_>>();

    result.sort_by(|(id1, _), (id2, _)| id1.cmp(id2));
    expected.sort_by(|(id1, _), (id2, _)| id1.cmp(id2));
    assert_eq!(result, expected);
}

/// Assuming the topology has a client at 0, connected with a drone 1.
fn assert_topology_of_drones(amount: usize, topology: &[(NodeId, NodeId)], timeout: Duration) {
    let mut net = Network::create_and_run(amount, topology, &[0]);

    let flood = new_flood_request(5, 7, 0, false);
    net.send_to_dest_as_client(0, 1, flood).unwrap();

    let mut hash_set = HashSet::new();

    for trace in traces_at(&net, 0, timeout) {
        let trace = trace.iter().map(|x| x.0);
        trace.clone().skip(1).zip(trace).for_each(|(a, b)| {
            if a < b {
                hash_set.insert((a, b));
            } else {
                hash_set.insert((b, a));
            }
        });
    }

    hash_set.insert((0 as NodeId, 1 as NodeId));

    assert_eq!(hash_set.len(), topology.len(), "Wrong len");

    let mut result = hash_set.into_iter().collect::<Vec<_>>();
    let expected = topology.to_vec();
    let mut expected =
        expected.into_iter().map(|(a, b)| if a < b { (a, b) } else { (b, a) }).collect::<Vec<_>>();

    result.sort_by(|(a1, b1), (a2, b2)| a1.cmp(a2).then(b1.cmp(b2)));
    expected.sort_by(|(a1, b1), (a2, b2)| a1.cmp(a2).then(b1.cmp(b2)));
    assert_eq!(expected, result);
}

fn drones(ids: std::ops::RangeInclusive<NodeId>) -> Vec<(NodeId, NodeType)> {
    ids.map(|id| (id, NodeType::Drone)).collect()
}

const HARD_LOOP: [(NodeId, NodeId); 11] =
    [(0, 1), (2, 1), (3, 1), (3, 2), (4, 1), (4, 2), (4, 3), (5, 1), (5, 2), (5, 3), (5, 4)];

const MATRIX_LOOP: [(NodeId, NodeId); 26] = [
    (0, 1),
    (1, 2),
    (2, 3),
    (3, 4),
    (4, 5),
    (5, 6),
    (6, 7),
    (6, 8),
    (8, 9),
    (10, 1),
    (11, 2),
    (12, 3),
    (13, 4),
    (14, 5),
    (15, 6),
    (16, 7),
    (17, 8),
    (18, 9),
    (10, 11),
    (11, 12),
    (12, 13),
    (13, 14),
    (14, 15),
    (15, 16),
    (16, 17),
    (17, 18),
];

const STAR_LOOP: [(NodeId, NodeId); 11] =
    [(0, 1), (1, 4), (2, 5), (3, 6), (4, 7), (5, 8), (6, 9), (7, 10), (8, 1), (9, 2), (10, 3)];

#[test]
fn flood_test_easiest_flood() {
    let mut net = Network::create_and_run(4, &[(0, 1), (1, 2), (1, 3)], &[0, 2, 3]);

    let flood = new_flood_request(5, 7, 0, false);
    net.send_to_dest_as_client(0, 1, flood).unwrap();

    let expected = new_flood_request_with_path(5, 7, 0, &[(1, NodeType::Drone)]);
    assert_eq!(expected, net.recv_as_client(2, TIMEOUT).unwrap());
    assert_eq!(expected, net.recv_as_client(3, TIMEOUT).unwrap());
}

#[test]
fn test_easiest_flood_test_easiest_flood() {
    let mut net = Network::create_and_run(4, &[(0, 1), (1, 2), (1, 3)], &[0, 2, 3]);

    let flood = new_flood_request(5, 7, 0, false);
    net.send_to_dest_as_client(0, 1, flood).unwrap();

    let expected = new_flood_request_with_path(5, 7, 0, &[(1, NodeType::Drone)]);
    assert_eq!(expected, net.recv_as_client(2, TIMEOUT).unwrap());
    assert_eq!(expected, net.recv_as_client(3, TIMEOUT).unwrap());
}

#[test]
fn test_loop_flood() {
    let mut net = Network::create_and_run(4, &[(0, 1), (1, 2), (1, 3), (2, 3)], &[0]);

    let flood = new_flood_request(5, 7, 0, false);
    net.send_to_dest_as_client(0, 1, flood).unwrap();

    assert_topology_on_client(net, drones(1..=3), Duration::from_secs(1));
}

#[test]
fn test_hard_loop_flood() {
    let mut net = Network::create_and_run(6, &HARD_LOOP, &[0]);

    let flood = new_flood_request(5, 7, 0, false);
    net.send_to_dest_as_client(0, 1, flood).unwrap();

    assert_topology_on_client(net, drones(1..=5), Duration::from_secs(10));
}

#[test]
fn test_matrix_loop_flood() {
    let mut net = Network::create_and_run(19, &MATRIX_LOOP, &[0]);

    let flood = new_flood_request(5, 7, 0, false);
    net.send_to_dest_as_client(0, 1, flood).unwrap();

    assert_topology_on_client(net, drones(1..=18), TIMEOUT * 5);
}

#[test]
fn test_star_loop_flood() {
    let mut net = Network::create_and_run(11, &STAR_LOOP, &[0]);

    let flood = new_flood_request(5, 7, 0, false);
    net.send_to_dest_as_client(0, 1, flood).unwrap();

    assert_topology_on_client(net, drones(1..=10), TIMEOUT * 5);
}

#[test]
fn easiest_flood() {
    let mut net = Network::create_and_run(4, &[(0, 1), (1, 2), (1, 3)], &[0, 2, 3]);
    net.send_to_dest_as_client(0, 1, new_flood_request(5, 7, 0, false)).unwrap();
    let expected = new_flood_request_with_path(5, 7, 0, &[(1, NodeType::Drone)]);
    assert_eq!(expected, net.recv_as_client(2, TIMEOUT).unwrap());
    assert_eq!(expected, net.recv_as_client(3, TIMEOUT).unwrap());
    assert!(net.recv_as_client(0, TIMEOUT).is_none());
    assert!(net.recv_as_client(2, TIMEOUT).is_none());
}

#[test]
fn loop_flood() {
    assert_topology_of_drones(4, &[(0, 1), (1, 2), (1, 3), (2, 3)], TIMEOUT);
}

#[test]
fn hard_loop_flood() {
    assert_topology_of_drones(6, &HARD_LOOP, TIMEOUT);
}

#[test]
fn matrix_loop_flood() {
    assert_topology_of_drones(19, &MATRIX_LOOP, TIMEOUT);
}

#[test]
fn star_loop_flood() {
    assert_topology_of_drones(11, &STAR_LOOP, TIMEOUT);
}

#[test]
fn flood_along_a_line_reports_the_line() {
    let mut net = Network::create_and_run(4, &[(0, 1), (1, 2), (2, 3)], &[0]);
    net.send_to_dest_as_client(0, 1, new_flood_request(5, 7, 0, false)).unwrap();
    // Drone 3 has nobody to hand the request to: it answers, and the answer
    // holds the one path that leads to it.
    let traces = traces_at(&net, 0, TIMEOUT);
    assert_eq!(traces, vec![drones(1..=3)]);
}

#[test]
fn flood_along_a_line_with_the_initiator_in_the_trace() {
    let mut net = Network::create_and_run(4, &[(0, 1), (1, 2), (2, 3)], &[0]);
    net.send_to_dest_as_client(0, 1, new_flood_request(5, 7, 0, true)).unwrap();
    let mut expected = vec![(0, NodeType::Client)];
    expected.extend(drones(1..=3));
    assert_eq!(traces_at(&net, 0, TIMEOUT), vec![expected]);
}

#[test]
fn flood_traces_are_paths_of_the_network_whatever_edges_close_a_cycle() {
    let line: Vec<(NodeId, NodeId)> = vec![(0, 1), (1, 2), (2, 3)];
    for extra in [vec![], vec![(1, 3)], vec![(1, 3), (3, 1)]] {
        let mut edges = line.clone();
        edges.extend(extra);
        let mut net = Network::create_and_run(4, &edges, &[0]);
        net.send_to_dest_as_client(0, 1, new_flood_request(5, 7, 0, false)).unwrap();
        let traces = traces_at(&net, 0, TIMEOUT);
        assert!(!traces.is_empty());
        let mut found = HashSet::new();
        for trace in traces {
            // Every trace starts at the first drone and walks along edges.
            assert_eq!(trace[0], (1, NodeType::Drone));
            for pair in trace.windows(2) {
                let (a, b) = (pair[0].0, pair[1].0);
                assert!(edges.contains(&(a, b)) || edges.contains(&(b, a)));
            }
            // No node is passed twice; only the one that answers may have
            // been on the path before.
            let passed = &trace[..trace.len() - 1];
            let distinct: HashSet<NodeId> = passed.iter().map(|entry| entry.0).collect();
            assert_eq!(distinct.len(), passed.len());
            found.extend(trace.iter().map(|entry| entry.0));
        }
        assert_eq!(found, HashSet::from([1, 2, 3]));
    }
}
