use wex::linking::link_context;
use wex::linking::link_plan;
use wex::linking::Interface;

#[test]
fn the_interfaces_are_linked_in_a_fixed_order() {
    assert_eq!(
        link_plan(),
        vec![
            Interface::Wasi,
            Interface::Http,
            Interface::KeyvalueAtomics,
            Interface::KeyvalueBatch,
            Interface::KeyvalueStore,
            Interface::MessagingTypes,
            Interface::MessagingProducer,
            Interface::MessagingRequestReply,
        ]
    );
}

#[test]
fn every_interface_is_linked_once() {
    let plan = link_plan();
    for (at, interface) in plan.iter().enumerate() {
        assert_eq!(plan.iter().filter(|other| *other == interface).count(), 1);
        assert_eq!(plan.iter().position(|other| other == interface), Some(at));
    }
}

#[test]
fn a_link_failure_names_the_interface() {
    assert_eq!(link_context(Interface::Wasi), "failed to link WASI");
    assert_eq!(link_context(Interface::Http), "failed to link `wasi:http`");
    assert_eq!(link_context(Interface::KeyvalueAtomics), "failed to link `wasi:keyvalue/atomics`");
    assert_eq!(link_context(Interface::KeyvalueBatch), "failed to link `wasi:keyvalue/batch`");
    assert_eq!(link_context(Interface::KeyvalueStore), "failed to link `wasi:keyvalue/store`");
    assert_eq!(link_context(Interface::MessagingTypes), "failed to link `wasi:messaging/types`");
    assert_eq!(link_context(Interface::MessagingProducer), "failed to link `wasi:messaging/producer`");
    assert_eq!(
        link_context(Interface::MessagingRequestReply),
        "failed to link `wasi:messaging/request_reply`"
    );
}
