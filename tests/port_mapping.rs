use moore_types::port_mapping::{NodeEnvId, NodeId, PortMapping};

fn sig(node: usize, env: usize) -> NodeEnvId {
    NodeEnvId { node: NodeId(node), env }
}

#[test]
fn find_gives_the_first_signal_of_a_port() {
    let m = PortMapping(vec![(NodeId(1), sig(10, 0)), (NodeId(2), sig(20, 1)), (NodeId(1), sig(30, 2))]);
    assert_eq!(m.find(NodeId(1)), Some(sig(10, 0)));
    assert_eq!(m.find(NodeId(2)), Some(sig(20, 1)));
    assert_eq!(m.find(NodeId(3)), None);
}

#[test]
fn reverse_find_gives_the_port_of_a_signal() {
    let m = PortMapping(vec![(NodeId(1), sig(10, 0)), (NodeId(2), sig(20, 1)), (NodeId(3), sig(20, 5))]);
    assert_eq!(m.reverse_find(NodeId(20)), Some(NodeId(2)));
    assert_eq!(m.reverse_find(NodeId(10)), Some(NodeId(1)));
    assert_eq!(m.reverse_find(NodeId(1)), None);
    assert_eq!(PortMapping(vec![]).find(NodeId(1)), None);
}
