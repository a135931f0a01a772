use qqbot_core::graph::{GraphError, NodeGraph, NodeInfo};
use qqbot_core::node::{DataType, JsonParserNode, Link, LLMNode};

fn info_of_parser(id: &str) -> NodeInfo {
    let n = JsonParserNode::new(id, "parser");
    NodeInfo {
        id: id.to_string(),
        description: n.description().map(|d| d.to_string()),
        input_ports: n.input_ports(),
        output_ports: n.output_ports(),
    }
}

fn info_of_llm(id: &str) -> NodeInfo {
    let n = LLMNode::new(id, "llm");
    NodeInfo { id: id.to_string(), description: None, input_ports: n.input_ports(), output_ports: n.output_ports() }
}

#[test]
fn nodes_have_unique_ids() {
    let mut g = NodeGraph::new();
    assert_eq!(g.add_node(info_of_parser("p")), Ok(()));
    assert_eq!(g.add_node(info_of_parser("p")), Err(GraphError::DuplicateNode));
    assert_eq!(g.nodes.len(), 1);
}

#[test]
fn links_are_checked() {
    let mut g = NodeGraph::new();
    g.add_node(info_of_parser("p")).unwrap();
    g.add_node(info_of_llm("l")).unwrap();
    let missing = Link::new("x", "parsed", "l", "messages", DataType::Json);
    assert_eq!(g.add_link(missing), Err(GraphError::FromNodeNotFound));
    let to_missing = Link::new("p", "parsed", "y", "messages", DataType::Json);
    assert_eq!(g.add_link(to_missing), Err(GraphError::ToNodeNotFound));
    let bad_out = Link::new("p", "nope", "l", "messages", DataType::Json);
    assert_eq!(g.add_link(bad_out), Err(GraphError::OutputPortNotFound));
    let bad_in = Link::new("p", "parsed", "l", "nope", DataType::Json);
    assert_eq!(g.add_link(bad_in), Err(GraphError::InputPortNotFound));
    let mismatch = Link::new("p", "success", "l", "prompt", DataType::Boolean);
    assert_eq!(g.add_link(mismatch), Err(GraphError::TypeMismatch));
    assert!(g.links.is_empty());
    let ok = Link::new("p", "parsed", "l", "messages", DataType::Json);
    assert_eq!(g.add_link(ok), Ok(()));
    assert_eq!(g.links.len(), 1);
}

#[test]
fn next_node_id_skips_taken_ids() {
    let mut g = NodeGraph::new();
    assert_eq!(g.next_node_id(), "node_1");
    g.add_node(info_of_parser("node_1")).unwrap();
    g.add_node(info_of_parser("node_3")).unwrap();
    assert_eq!(g.next_node_id(), "node_2");
    g.add_node(info_of_parser("node_2")).unwrap();
    assert_eq!(g.next_node_id(), "node_4");
}
