use wifu::win::guid::{to_string, Guid};
use wifu::win::wlan::interface::State;
use wifu::win::wlan::Interface;
use wifu::win::NativeError;
use wifu::wlan::interface::chosen;
use wifu::wlan::interface::list::Operator;

fn adapter(value: u128, description: &str) -> Interface {
    Interface { guid: Guid { value }, description: description.to_string(), state: State::Connected }
}

fn listing(adapters: Vec<Interface>) -> Operator {
    let mut list = Operator::default();
    list.update(Ok(adapters)).unwrap();
    list
}

fn text(value: u128) -> String {
    to_string(&Guid { value })
}

#[test]
fn a_fresh_list_is_empty() {
    let list = Operator::default();
    assert!(list.is_empty());
    assert!(list.as_slice().is_empty());
    assert!(list.sorted_priority(&[text(1)]).is_empty());
}

#[test]
fn an_enumeration_replaces_the_list() {
    let mut list = listing(vec![adapter(1, "one")]);
    assert_eq!(list.update(Ok(vec![adapter(2, "two"), adapter(3, "three")])), Ok(()));
    assert_eq!(list.as_slice(), &[adapter(2, "two"), adapter(3, "three")]);
    assert_eq!(list.update_warned(Ok(vec![])), Ok(()));
    assert!(list.is_empty());
}

#[test]
fn a_failed_enumeration_is_handed_back_and_changes_nothing() {
    let mut list = listing(vec![adapter(1, "one")]);
    assert_eq!(list.update(Err(NativeError::AccessDenied)), Err(NativeError::AccessDenied));
    assert_eq!(list.as_slice(), &[adapter(1, "one")]);
    assert_eq!(list.update_warned(Err(NativeError::NotEnoughMemory)), Err(NativeError::NotEnoughMemory));
    assert_eq!(list.as_slice(), &[adapter(1, "one")]);
}

#[test]
fn adapters_are_found_by_identifier() {
    let list = listing(vec![adapter(1, "one"), adapter(2, "two")]);
    assert_eq!(list.get_by_guid(&Guid { value: 2 }), Some(adapter(2, "two")));
    assert_eq!(list.get_by_guid(&Guid { value: 9 }), None);
    assert_eq!(list.get_name_by_guid(&Guid { value: 1 }), Some("one".to_string()));
    assert_eq!(list.get_name_by_guid(&Guid { value: 9 }), None);
    assert!(list.contains_guid(&Guid { value: 1 }));
    assert!(!list.contains_guid(&Guid { value: 9 }));
}

#[test]
fn adapters_are_found_by_the_text_of_their_identifier() {
    let list = listing(vec![adapter(1, "one"), adapter(2, "two")]);
    assert_eq!(list.get_by_str_guid(&text(2)), Some(adapter(2, "two")));
    assert_eq!(list.get_by_str_guid("{bogus}"), None);
    assert!(list.contains_str_guid(&text(1)));
    assert!(!list.contains_str_guid(&text(3)));
    assert!(!list.contains_str_guid(&text(1).to_lowercase().replace('{', "")));
}

#[test]
fn the_first_of_two_adapters_with_one_identifier_is_found() {
    let list = listing(vec![adapter(1, "first"), adapter(1, "second")]);
    assert_eq!(list.get_name_by_guid(&Guid { value: 1 }), Some("first".to_string()));
    assert_eq!(list.get_by_str_guid(&text(1)), Some(adapter(1, "first")));
}

#[test]
fn identifiers_are_listed_in_order() {
    let list = listing(vec![adapter(3, "three"), adapter(1, "one")]);
    assert_eq!(list.as_guids(), vec![Guid { value: 3 }, Guid { value: 1 }]);
    assert_eq!(list.as_guid_strings(), vec![text(3), text(1)]);
}

#[test]
fn preferred_adapters_come_first_in_the_order_of_the_configuration() {
    let list = listing(vec![adapter(1, "one"), adapter(2, "two"), adapter(3, "three")]);
    let priority = vec![text(3), "{unknown}".to_string(), text(1)];
    assert_eq!(
        list.sorted_priority(&priority),
        vec![adapter(3, "three"), adapter(1, "one"), adapter(2, "two")]
    );
    assert_eq!(
        list.sorted_priority_guids(&priority),
        vec![Guid { value: 3 }, Guid { value: 1 }, Guid { value: 2 }]
    );
    assert_eq!(list.sorted_priority_string_guids(&priority), vec![text(3), text(1), text(2)]);
}

#[test]
fn without_preferences_the_order_of_the_enumeration_stands() {
    let list = listing(vec![adapter(2, "two"), adapter(1, "one")]);
    assert_eq!(list.sorted_priority(&[]), vec![adapter(2, "two"), adapter(1, "one")]);
    assert_eq!(
        list.sorted_priority(&["{nobody}".to_string()]),
        vec![adapter(2, "two"), adapter(1, "one")]
    );
}

#[test]
fn a_preference_named_twice_is_listed_twice() {
    let list = listing(vec![adapter(1, "one"), adapter(2, "two")]);
    let priority = vec![text(2), text(2)];
    assert_eq!(
        list.sorted_priority(&priority),
        vec![adapter(2, "two"), adapter(2, "two"), adapter(1, "one")]
    );
}

#[test]
fn every_other_adapter_is_to_be_disconnected() {
    let list = listing(vec![adapter(1, "one"), adapter(2, "two"), adapter(3, "three")]);
    assert_eq!(
        list.disconnect_all_except(&Guid { value: 2 }),
        vec![Guid { value: 1 }, Guid { value: 3 }]
    );
    assert_eq!(list.disconnect_all_except(&Guid { value: 9 }).len(), 3);
    assert!(listing(vec![adapter(1, "one")]).disconnect_all_except(&Guid { value: 1 }).is_empty());
}

#[test]
fn no_adapter_is_chosen_at_first() {
    let chosen = chosen::Operator::default();
    assert_eq!(chosen.get(), None);
    assert_eq!(chosen.name(), None);
    assert_eq!(chosen.as_string(), None);
    assert!(!chosen.is_chosen());
    assert!(!chosen.is_guid_chosen(&Guid { value: 1 }));
    assert_eq!(chosen.target(), Err(NativeError::NotFound));
}

#[test]
fn the_most_preferred_adapter_is_chosen() {
    let list = listing(vec![adapter(1, "one"), adapter(2, "two")]);
    let mut chosen = chosen::Operator::default();
    assert_eq!(chosen.select(&list, &[text(2)]), Some(Guid { value: 2 }));
    assert_eq!(chosen.get(), Some(&Guid { value: 2 }));
    assert_eq!(chosen.name(), Some("two"));
    assert_eq!(chosen.as_string(), Some(text(2)));
    assert!(chosen.is_chosen());
    assert!(chosen.is_guid_chosen(&Guid { value: 2 }));
    assert!(!chosen.is_guid_chosen(&Guid { value: 1 }));
    assert_eq!(chosen.target(), Ok(Guid { value: 2 }));
}

#[test]
fn choosing_the_same_adapter_again_reports_no_change() {
    let list = listing(vec![adapter(1, "one"), adapter(2, "two")]);
    let mut chosen = chosen::Operator::default();
    assert_eq!(chosen.select(&list, &[]), Some(Guid { value: 1 }));
    assert_eq!(chosen.select(&list, &[]), None);
    assert_eq!(chosen.get(), Some(&Guid { value: 1 }));
}

#[test]
fn choosing_among_no_adapters_changes_nothing() {
    let list = Operator::default();
    let mut chosen = chosen::Operator::default();
    assert_eq!(chosen.select(&list, &[text(1)]), None);
    assert!(!chosen.is_chosen());
    let full = listing(vec![adapter(1, "one")]);
    chosen.select(&full, &[]);
    assert_eq!(chosen.select(&list, &[]), None);
    assert_eq!(chosen.get(), Some(&Guid { value: 1 }));
}

#[test]
fn unchoosing_an_adapter_fails_when_none_is_chosen() {
    let list = listing(vec![adapter(1, "one")]);
    let mut chosen = chosen::Operator::default();
    assert_eq!(chosen.unchoose(), Err(()));
    chosen.select(&list, &[]);
    assert_eq!(chosen.unchoose(), Ok(()));
    assert!(!chosen.is_chosen());
    assert_eq!(chosen.name(), None);
    assert_eq!(chosen.as_string(), None);
    assert_eq!(chosen.unchoose(), Err(()));
}
