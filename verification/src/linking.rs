//! The host capabilities that the workload is linked against.
//!
//! The workload imports its capabilities by interface. The host links a fixed
//! list of interfaces, each exactly once and in a fixed order, before the
//! workload is instantiated for the first time. An interface that cannot be
//! linked stops startup, and the report names it.

use vstd::prelude::*;
use vstd::string::*;

verus! {

/// An interface that the host provides to the workload.
#[derive(Clone, Copy, Debug, PartialEq, Eq, Structural)]
pub enum Interface {
    /// The system interface: clocks, files, sockets, standard streams.
    Wasi,
    /// Incoming and outgoing HTTP.
    Http,
    /// Atomic operations on key-value buckets.
    KeyvalueAtomics,
    /// Batch operations on key-value buckets.
    KeyvalueBatch,
    /// Key-value buckets themselves.
    KeyvalueStore,
    /// The types of messaging.
    MessagingTypes,
    /// Publishing messages.
    MessagingProducer,
    /// Requests and replies over messaging.
    MessagingRequestReply,
}

/// The interfaces in the order in which they are linked.
pub open spec fn link_order() -> Seq<Interface> {
    seq![
        Interface::Wasi,
        Interface::Http,
        Interface::KeyvalueAtomics,
        Interface::KeyvalueBatch,
        Interface::KeyvalueStore,
        Interface::MessagingTypes,
        Interface::MessagingProducer,
        Interface::MessagingRequestReply,
    ]
}

/// The place of an interface in the order of linking.
pub open spec fn link_position(interface: Interface) -> int {
    match interface {
        Interface::Wasi => 0,
        Interface::Http => 1,
        Interface::KeyvalueAtomics => 2,
        Interface::KeyvalueBatch => 3,
        Interface::KeyvalueStore => 4,
        Interface::MessagingTypes => 5,
        Interface::MessagingProducer => 6,
        Interface::MessagingRequestReply => 7,
    }
}

/// The text that reports that an interface could not be linked.
pub open spec fn link_context_text(interface: Interface) -> Seq<char> {
    match interface {
        Interface::Wasi => "failed to link WASI"@,
        Interface::Http => "failed to link `wasi:http`"@,
        Interface::KeyvalueAtomics => "failed to link `wasi:keyvalue/atomics`"@,
        Interface::KeyvalueBatch => "failed to link `wasi:keyvalue/batch`"@,
        Interface::KeyvalueStore => "failed to link `wasi:keyvalue/store`"@,
        Interface::MessagingTypes => "failed to link `wasi:messaging/types`"@,
        Interface::MessagingProducer => "failed to link `wasi:messaging/producer`"@,
        Interface::MessagingRequestReply => "failed to link `wasi:messaging/request_reply`"@,
    }
}

/// The interfaces to link, in order.
pub fn link_plan() -> (plan: Vec<Interface>)
    ensures
        plan@ == link_order(),
{
    let mut plan: Vec<Interface> = Vec::new();
    plan.push(Interface::Wasi);
    plan.push(Interface::Http);
    plan.push(Interface::KeyvalueAtomics);
    plan.push(Interface::KeyvalueBatch);
    plan.push(Interface::KeyvalueStore);
    plan.push(Interface::MessagingTypes);
    plan.push(Interface::MessagingProducer);
    plan.push(Interface::MessagingRequestReply);
    assert(plan@ =~= link_order());
    plan
}

/// The text that reports that `interface` could not be linked.
pub fn link_context(interface: Interface) -> (context: String)
    ensures
        context@ == link_context_text(interface),
{
    match interface {
        Interface::Wasi => String::from_str("failed to link WASI"),
        Interface::Http => String::from_str("failed to link `wasi:http`"),
        Interface::KeyvalueAtomics => String::from_str("failed to link `wasi:keyvalue/atomics`"),
        Interface::KeyvalueBatch => String::from_str("failed to link `wasi:keyvalue/batch`"),
        Interface::KeyvalueStore => String::from_str("failed to link `wasi:keyvalue/store`"),
        Interface::MessagingTypes => String::from_str("failed to link `wasi:messaging/types`"),
        Interface::MessagingProducer => String::from_str(
            "failed to link `wasi:messaging/producer`",
        ),
        Interface::MessagingRequestReply => String::from_str(
            "failed to link `wasi:messaging/request_reply`",
        ),
    }
}

/// Every interface is linked, and linked exactly once: it stands at its own
/// place in the order and nowhere else.
pub proof fn law_each_interface_linked_once(interface: Interface)
    ensures
        0 <= link_position(interface) < link_order().len(),
        link_order()[link_position(interface)] == interface,
        forall|at: int|
            0 <= at < link_order().len() && #[trigger] link_order()[at] == interface ==> at
                == link_position(interface),
{
}

} // verus!
