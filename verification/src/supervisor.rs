//! The node supervisor's decisions: the names its worker threads run under
//! and the fixed fan-out order of a shutdown.

use vstd::prelude::*;

use crate::decimal::decimal;
use crate::decimal::u8_decimal;
use crate::messages::NodeId;

verus! {

/// A command to the node's supervisor.  `Quit` shuts the whole node down.
#[derive(Debug)]
pub enum Command {
    Quit,
}

/// The three workers a node runs.
#[derive(PartialEq, Eq, Structural, Clone, Copy, Debug)]
pub enum WorkerRole {
    Listener,
    Logic,
    Transmitter,
}

/// The fan-out order of a shutdown: the intake closes first so no new work
/// enters, then the logic, then the transmitter that may still be flushing
/// the outbox.
pub fn shutdown_sequence() -> (order: Vec<WorkerRole>)
    ensures
        order@ == seq![WorkerRole::Listener, WorkerRole::Logic, WorkerRole::Transmitter],
{
    let mut order: Vec<WorkerRole> = Vec::new();
    order.push(WorkerRole::Listener);
    order.push(WorkerRole::Logic);
    order.push(WorkerRole::Transmitter);
    proof {
        assert(order@ =~= seq![WorkerRole::Listener, WorkerRole::Logic, WorkerRole::Transmitter]);
    }
    order
}

/// The suffix of a worker thread's name.
pub open spec fn role_suffix(role: WorkerRole) -> Seq<char> {
    match role {
        WorkerRole::Listener => seq!['_', 'l', 'i', 's', 't', 'e', 'n', 'e', 'r'],
        WorkerRole::Logic => seq!['_', 'l', 'o', 'g', 'i', 'c'],
        WorkerRole::Transmitter => seq!['_', 't', 'r', 'a', 'n', 's', 'm', 'i', 't', 't', 'e', 'r'],
    }
}

/// The characters of a worker thread's name: `client_<id>` plus the role
/// suffix.
pub open spec fn thread_name_chars(node_id: int, role: WorkerRole) -> Seq<char> {
    seq!['c', 'l', 'i', 'e', 'n', 't', '_'] + decimal(node_id) + role_suffix(role)
}

/// The name a worker thread of this node runs under.
pub fn thread_name(node_id: NodeId, role: WorkerRole) -> (s: String)
    ensures
        s@ == thread_name_chars(node_id as int, role),
{
    let mut s = String::from_str("client_");
    s.append(u8_decimal(node_id).as_str());
    match role {
        WorkerRole::Listener => s.append("_listener"),
        WorkerRole::Logic => s.append("_logic"),
        WorkerRole::Transmitter => s.append("_transmitter"),
    }
    proof {
        reveal_strlit("client_");
        reveal_strlit("_listener");
        reveal_strlit("_logic");
        reveal_strlit("_transmitter");
        assert(s@ =~= thread_name_chars(node_id as int, role));
    }
    s
}

} // verus!
