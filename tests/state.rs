use sytter::state::{data_to_text, State, SytterVariable};

fn var(k: &str, v: &str) -> SytterVariable {
    SytterVariable { key: k.to_string(), value: v.to_string() }
}

#[test]
fn new_state_is_empty() {
    let s = State::new();
    assert!(s.get_variables().is_empty());
    assert_eq!(s.get_variable(&"a".to_string()), None);
}

#[test]
fn set_appends_new_keys_in_order() {
    let mut s = State::new();
    s.set_variable(var("b", "2"));
    s.set_variable(var("a", "1"));
    let all = s.get_variables();
    assert_eq!(all.len(), 2);
    assert_eq!(all[0].key, "b");
    assert_eq!(all[1].key, "a");
    assert_eq!(s.get_variable(&"a".to_string()), Some("1".to_string()));
}

#[test]
fn set_twice_keeps_one_entry_with_second_value() {
    let mut s = State::new();
    s.set_variable(var("x", "0"));
    s.set_variable(var("k", "v1"));
    let len_after_first = s.get_variables().len();
    s.set_variable(var("k", "v2"));
    let all = s.get_variables();
    assert_eq!(all.len(), len_after_first);
    assert_eq!(all.iter().filter(|v| v.key == "k").count(), 1);
    assert_eq!(s.get_variable(&"k".to_string()), Some("v2".to_string()));
    assert_eq!(all[1].value, "v2");
}

#[test]
fn racing_sets_leave_one_whole_value() {
    for order in [["1", "2"], ["2", "1"]] {
        let mut s = State::new();
        s.set_variable(var("a", order[0]));
        s.set_variable(var("a", order[1]));
        let got = s.get_variable(&"a".to_string()).unwrap();
        assert!(got == "1" || got == "2");
        assert_eq!(got, order[1]);
        assert_eq!(s.get_variables().iter().filter(|v| v.key == "a").count(), 1);
    }
}

#[test]
fn text_form_joins_lines() {
    let data = vec![var("a", "1"), var("b", "two")];
    assert_eq!(data_to_text(&data), "a=1\nb=two");
    assert_eq!(data_to_text(&vec![]), "");
    assert_eq!(data_to_text(&vec![var("k", "")]), "k=");
}
