use wex::config::NatsTrigger;
use wex::config::Trigger;
use wex::subscription::needs_message_handler;
use wex::subscription::subscription;
use wex::subscription::subscription_plan;

fn trigger(subject: &str, group: &str) -> NatsTrigger {
    NatsTrigger { subject: subject.to_string(), group: group.to_string() }
}

#[test]
fn a_trigger_without_group_asks_for_a_plain_subscription() {
    let wanted = subscription(&trigger("orders.created", ""));
    assert_eq!(wanted.subject, "orders.created");
    assert_eq!(wanted.queue_group, None);
}

#[test]
fn a_trigger_with_group_asks_for_a_queue_subscription() {
    let wanted = subscription(&trigger("jobs", "workers"));
    assert_eq!(wanted.subject, "jobs");
    assert_eq!(wanted.queue_group, Some("workers".to_string()));
}

#[test]
fn a_group_of_one_blank_is_a_group() {
    let wanted = subscription(&trigger("jobs", " "));
    assert_eq!(wanted.queue_group, Some(" ".to_string()));
}

#[test]
fn one_trigger_asks_for_one_subscription() {
    let plan = subscription_plan(&vec![trigger("orders.created", "")]);
    assert_eq!(plan.len(), 1);
    assert_eq!(plan[0].subject, "orders.created");
    assert_eq!(plan[0].queue_group, None);
}

#[test]
fn two_triggers_in_one_group_ask_for_two_queue_subscriptions() {
    let plan = subscription_plan(&vec![trigger("jobs", "workers"), trigger("jobs", "workers")]);
    assert_eq!(plan.len(), 2);
    for wanted in &plan {
        assert_eq!(wanted.subject, "jobs");
        assert_eq!(wanted.queue_group, Some("workers".to_string()));
    }
}

#[test]
fn the_plan_keeps_the_order_of_the_triggers() {
    let plan = subscription_plan(&vec![trigger("a", ""), trigger("b", "g"), trigger("c", ""), trigger("a", "h")]);
    let subjects: Vec<&str> = plan.iter().map(|wanted| wanted.subject.as_str()).collect();
    assert_eq!(subjects, vec!["a", "b", "c", "a"]);
    let groups: Vec<Option<&str>> = plan.iter().map(|wanted| wanted.queue_group.as_deref()).collect();
    assert_eq!(groups, vec![None, Some("g"), None, Some("h")]);
}

#[test]
fn no_trigger_asks_for_nothing() {
    assert!(subscription_plan(&Vec::new()).is_empty());
}

#[test]
fn the_message_handler_is_needed_only_with_broker_triggers() {
    let mut configured = Trigger::default();
    assert!(!needs_message_handler(&configured));
    configured.nats.push(trigger("orders.created", ""));
    assert!(needs_message_handler(&configured));
}
