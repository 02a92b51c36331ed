use perseus_state::state::rx_state::{round_trip, should_thaw, MakeRx, MakeUnrx, RxHashMap, UnreactiveState};
use perseus_state::state::template_state::TemplateState;
use serde::de::{Deserialize, Deserializer};
use serde::ser::{Serialize, Serializer};
use std::collections::HashMap;

#[derive(Clone, Debug, PartialEq)]
struct Counter(u32, String);

impl UnreactiveState for Counter {}

impl Serialize for Counter {
    fn serialize<S: Serializer>(&self, s: S) -> Result<S::Ok, S::Error> {
        (self.0, &self.1).serialize(s)
    }
}

impl<'de> Deserialize<'de> for Counter {
    fn deserialize<D: Deserializer<'de>>(d: D) -> Result<Self, D::Error> {
        <(u32, String)>::deserialize(d).map(|(n, s)| Counter(n, s))
    }
}

#[test]
fn empty_state_is_null() {
    let e = TemplateState::empty();
    assert!(e.is_empty());
    assert_eq!(e.as_json(), "null");
    assert!(TemplateState::from_str("null").unwrap().is_empty());
}

#[test]
fn state_text_is_normalized() {
    let s = TemplateState::from_str("{ \"a\" : [1, 2] }").unwrap();
    assert_eq!(s.as_json(), "{\"a\":[1,2]}");
    assert!(!s.is_empty());
    let copy = s.clone();
    assert_eq!(copy.as_json(), s.as_json());
}

#[test]
fn invalid_state_text_is_refused() {
    assert!(TemplateState::from_str("{not json").is_err());
    assert!(TemplateState::from_str("").is_err());
}

#[test]
fn unreactive_state_round_trips() {
    let v = Counter(7, "seven".to_string());
    let rx = v.clone().make_rx();
    assert_eq!(rx.0, v);
    assert_eq!(rx.make_unrx(), v);
    assert_eq!(round_trip(Counter(0, String::new())), Counter(0, String::new()));
}

#[test]
fn frozen_state_thaws_to_the_same_value() {
    let v = Counter(42, "answer".to_string());
    let rx = v.clone().make_rx();
    let frozen = serde_json::to_string(&rx.0).unwrap();
    let thawed = TemplateState::from_str(&frozen).unwrap();
    let back: Counter = serde_json::from_str(thawed.as_json()).unwrap();
    assert_eq!(back, v);
}

#[test]
fn rx_hash_map_wraps_the_map() {
    let mut m = HashMap::new();
    m.insert("k".to_string(), 3u8);
    let rx: RxHashMap<String, u8> = RxHashMap::from(m.clone());
    assert_eq!(rx.get(), &m);
}

#[test]
fn unreactive_state_is_never_thawed() {
    assert!(Counter::hsr_ignore());
    assert!(!should_thaw::<Counter>(true));
    assert!(!should_thaw::<Counter>(false));
}
