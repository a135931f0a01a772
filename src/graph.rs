//! A node graph: nodes known by their ports, and type-checked links.

use vstd::prelude::*;
use vstd::string::StringExecFns;
use crate::node::{same_type, types_equal, Link, Port};
use crate::text::{decimal, lemma_decimal_nat_injective, push_decimal, same_text};
use vstd::set_lib::{lemma_int_range, lemma_len_subset, lemma_map_size, set_int_range};

verus! {

/// A node as the graph sees it: its id and its ports.
#[derive(Debug)]
pub struct NodeInfo {
    pub id: String,
    pub description: Option<String>,
    pub input_ports: Vec<Port>,
    pub output_ports: Vec<Port>,
}

/// Why a node or link was refused.
#[derive(Debug, Clone, Copy, PartialEq, Eq, Structural)]
pub enum GraphError {
    DuplicateNode,
    FromNodeNotFound,
    ToNodeNotFound,
    OutputPortNotFound,
    InputPortNotFound,
    TypeMismatch,
}

/// The first node with id `id`.
pub open spec fn node_find(nodes: Seq<NodeInfo>, id: Seq<char>) -> Option<NodeInfo>
    decreases nodes.len(),
{
    if nodes.len() == 0 {
        None
    } else if nodes[0].id@ == id {
        Some(nodes[0])
    } else {
        node_find(nodes.drop_first(), id)
    }
}

/// The first port named `name`.
pub open spec fn port_find(ports: Seq<Port>, name: Seq<char>) -> Option<Port>
    decreases ports.len(),
{
    if ports.len() == 0 {
        None
    } else if ports[0].name@ == name {
        Some(ports[0])
    } else {
        port_find(ports.drop_first(), name)
    }
}

/// The outcome of adding `link` to a graph with `nodes`.
pub open spec fn link_check(nodes: Seq<NodeInfo>, link: Link) -> Result<(), GraphError> {
    match node_find(nodes, link.from_node@) {
        None => Err(GraphError::FromNodeNotFound),
        Some(from) => match node_find(nodes, link.to_node@) {
            None => Err(GraphError::ToNodeNotFound),
            Some(to) => match port_find(from.output_ports@, link.from_port@) {
                None => Err(GraphError::OutputPortNotFound),
                Some(out) => match port_find(to.input_ports@, link.to_port@) {
                    None => Err(GraphError::InputPortNotFound),
                    Some(inp) => if same_type(out.data_type, inp.data_type) {
                        Ok(())
                    } else {
                        Err(GraphError::TypeMismatch)
                    },
                },
            },
        },
    }
}

/// The id `node_<k>`.
pub open spec fn candidate_id(k: int) -> Seq<char> {
    "node_"@ + decimal(k)
}

pub open spec fn id_taken(nodes: Seq<NodeInfo>, id: Seq<char>) -> bool {
    exists|i: int| 0 <= i < nodes.len() && (#[trigger] nodes[i]).id@ == id
}

proof fn lemma_candidate_injective(j: int, k: int)
    requires
        j >= 1,
        k >= 1,
        candidate_id(j) == candidate_id(k),
    ensures
        j == k,
{
    let p = "node_"@;
    assert(decimal(j) =~= (p + decimal(j)).skip(p.len() as int));
    assert(decimal(k) =~= (p + decimal(k)).skip(p.len() as int));
    lemma_decimal_nat_injective(j as nat, k as nat);
}

/// `n` nodes cannot hold all of the `n + 1` ids `node_1` .. `node_<n+1>`.
proof fn lemma_some_candidate_free(nodes: Seq<NodeInfo>)
    ensures
        exists|j: int| 1 <= j <= nodes.len() + 1 && !id_taken(nodes, #[trigger] candidate_id(j)),
{
    let n = nodes.len() as int;
    if forall|j: int| 1 <= j <= n + 1 ==> id_taken(nodes, #[trigger] candidate_id(j)) {
        let f = |j: int| choose|i: int| 0 <= i < n && (#[trigger] nodes[i]).id@ == candidate_id(j);
        let xs = set_int_range(1, n + 2);
        let ys = xs.map(f);
        lemma_int_range(1, n + 2);
        lemma_int_range(0, n);
        assert forall|a: int, b: int|
            xs.contains(a) && xs.contains(b) && #[trigger] f(a) == #[trigger] f(b) implies a == b by {
            assert(id_taken(nodes, candidate_id(a)));
            assert(id_taken(nodes, candidate_id(b)));
            lemma_candidate_injective(a, b);
        }
        assert(vstd::relations::injective_on(f, xs));
        lemma_map_size(xs, ys, f);
        assert forall|y: int| ys.contains(y) implies set_int_range(0, n).contains(y) by {
            let x = choose|x: int| xs.contains(x) && f(x) == y;
            assert(id_taken(nodes, candidate_id(x)));
        }
        lemma_len_subset(ys, set_int_range(0, n));
        assert(false);
    }
}

/// Nodes and the links between them.
pub struct NodeGraph {
    pub nodes: Vec<NodeInfo>,
    pub links: Vec<Link>,
}

fn find_node<'a>(nodes: &'a Vec<NodeInfo>, id: &str) -> (r: Option<&'a NodeInfo>)
    ensures
        r matches Some(n) ==> node_find(nodes@, id@) == Some(*n),
        r is None ==> node_find(nodes@, id@) is None,
        r is None <==> !id_taken(nodes@, id@),
{
    let mut i: usize = 0;
    assert(nodes@.skip(0) =~= nodes@);
    while i < nodes.len()
        invariant
            i <= nodes@.len(),
            node_find(nodes@, id@) == node_find(nodes@.skip(i as int), id@),
            forall|j: int| 0 <= j < i ==> (#[trigger] nodes@[j]).id@ != id@,
        decreases nodes@.len() - i,
    {
        assert(nodes@.skip(i as int).drop_first() =~= nodes@.skip(i + 1));
        assert(nodes@.skip(i as int)[0] == nodes@[i as int]);
        if same_text(nodes[i].id.as_str(), id) {
            return Some(&nodes[i]);
        }
        i = i + 1;
    }
    assert(nodes@.skip(i as int) =~= Seq::<NodeInfo>::empty());
    None
}

fn find_port<'a>(ports: &'a Vec<Port>, name: &str) -> (r: Option<&'a Port>)
    ensures
        r matches Some(p) ==> port_find(ports@, name@) == Some(*p),
        r is None ==> port_find(ports@, name@) is None,
{
    let mut i: usize = 0;
    assert(ports@.skip(0) =~= ports@);
    while i < ports.len()
        invariant
            i <= ports@.len(),
            port_find(ports@, name@) == port_find(ports@.skip(i as int), name@),
        decreases ports@.len() - i,
    {
        assert(ports@.skip(i as int).drop_first() =~= ports@.skip(i + 1));
        assert(ports@.skip(i as int)[0] == ports@[i as int]);
        if same_text(ports[i].name.as_str(), name) {
            return Some(&ports[i]);
        }
        i = i + 1;
    }
    assert(ports@.skip(i as int) =~= Seq::<Port>::empty());
    None
}

impl NodeGraph {
    pub fn new() -> (r: Self)
        ensures
            r.nodes@.len() == 0,
            r.links@.len() == 0,
    {
        NodeGraph { nodes: Vec::new(), links: Vec::new() }
    }

    /// Adds a node; an id already in the graph is refused.
    pub fn add_node(&mut self, node: NodeInfo) -> (r: Result<(), GraphError>)
        ensures
            id_taken(old(self).nodes@, node.id@) ==> r == Err::<(), GraphError>(
                GraphError::DuplicateNode,
            ) && *final(self) == *old(self),
            !id_taken(old(self).nodes@, node.id@) ==> r is Ok && final(self).nodes@ == old(
                self,
            ).nodes@.push(node) && final(self).links@ == old(self).links@,
    {
        if find_node(&self.nodes, node.id.as_str()).is_some() {
            return Err(GraphError::DuplicateNode);
        }
        self.nodes.push(node);
        Ok(())
    }

    /// Adds a link after checking that both nodes and both ports exist and
    /// that the ports' types are the same.
    pub fn add_link(&mut self, link: Link) -> (r: Result<(), GraphError>)
        ensures
            r == link_check(old(self).nodes@, link),
            final(self).nodes@ == old(self).nodes@,
            r is Ok ==> final(self).links@ == old(self).links@.push(link),
            r is Err ==> final(self).links@ == old(self).links@,
    {
        let from = match find_node(&self.nodes, link.from_node.as_str()) {
            Some(n) => n,
            None => return Err(GraphError::FromNodeNotFound),
        };
        let to = match find_node(&self.nodes, link.to_node.as_str()) {
            Some(n) => n,
            None => return Err(GraphError::ToNodeNotFound),
        };
        let out = match find_port(&from.output_ports, link.from_port.as_str()) {
            Some(p) => p,
            None => return Err(GraphError::OutputPortNotFound),
        };
        let inp = match find_port(&to.input_ports, link.to_port.as_str()) {
            Some(p) => p,
            None => return Err(GraphError::InputPortNotFound),
        };
        if !types_equal(&out.data_type, &inp.data_type) {
            return Err(GraphError::TypeMismatch);
        }
        self.links.push(link);
        Ok(())
    }

    /// The first id `node_1`, `node_2`, ... that no node has.
    pub fn next_node_id(&self) -> (r: String)
        requires
            self.nodes@.len() < usize::MAX,
            self.nodes@.len() < i64::MAX,
        ensures
            exists|k: int|
                1 <= k <= self.nodes@.len() + 1 && r@ == candidate_id(k) && (forall|j: int|
                    1 <= j < k ==> id_taken(self.nodes@, #[trigger] candidate_id(j))) && !id_taken(
                    self.nodes@,
                    candidate_id(k),
                ),
    {
        let n = self.nodes.len();
        let mut index: usize = 1;
        loop
            invariant
                1 <= index <= n + 1,
                n == self.nodes@.len(),
                n < i64::MAX,
                n < usize::MAX,
                forall|j: int| 1 <= j < index ==> id_taken(self.nodes@, #[trigger] candidate_id(j)),
            decreases n + 1 - index,
        {
            let mut candidate = String::from_str("node_");
            push_decimal(&mut candidate, index as i64);
            assert(candidate@ == candidate_id(index as int));
            let free = find_node(&self.nodes, candidate.as_str()).is_none();
            if free {
                return candidate;
            }
            if index > n {
                proof {
                    lemma_some_candidate_free(self.nodes@);
                    let j = choose|j: int|
                        1 <= j <= n + 1 && !id_taken(self.nodes@, #[trigger] candidate_id(j));
                    assert(j == index);
                }
                return candidate;
            }
            index = index + 1;
        }
    }
}

} // verus!
