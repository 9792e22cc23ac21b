//! Event subscription keys: the tagged variant an observer subscribes with,
//! and the grammar that parses a raw key string, in precedence order:
//! the literal `*`, the literal `stx`, a two-segment smart-contract form,
//! then a one-segment asset form.

use vstd::prelude::*;
use crate::principal::{
    AssetIdV, AssetIdentifier, PrincipalData, QciV, QualifiedContractIdentifier, is_clarity_name,
    is_clarity_name_chars, is_contract_name, is_contract_name_chars, is_standard_principal_chars,
    is_standard_principal_lit, spec_parse_qci,
};
use crate::strutil::{
    chars_eq_lit, find_char, find_double_colon, spec_find, spec_find_dc, sub_vec, to_char_vec,
};

verus! {

/// What an observer subscribes to: everything, native-currency transfer
/// events, one asset's events, or one smart-contract event stream.
pub enum EventKeyType {
    SmartContractEvent((QualifiedContractIdentifier, Vec<char>)),
    AssetEvent(AssetIdentifier),
    STXEvent,
    AnyEvent,
}

/// The mathematical value of an event key.
#[verifier::ext_equal]
pub enum EventKeyV {
    SmartContractEvent((QciV, Seq<char>)),
    AssetEvent(AssetIdV),
    STXEvent,
    AnyEvent,
}

impl View for EventKeyType {
    type V = EventKeyV;

    open spec fn view(&self) -> EventKeyV {
        match self {
            EventKeyType::SmartContractEvent((q, name)) => EventKeyV::SmartContractEvent(
                (q@, name@),
            ),
            EventKeyType::AssetEvent(a) => EventKeyV::AssetEvent(a@),
            EventKeyType::STXEvent => EventKeyV::STXEvent,
            EventKeyType::AnyEvent => EventKeyV::AnyEvent,
        }
    }
}

/// The view of an optional event key.
pub open spec fn opt_event_key_v(r: Option<EventKeyType>) -> Option<EventKeyV> {
    match r {
        Some(k) => Some(k@),
        None => None,
    }
}

/// The event-key grammar. `*` and `stx` are exact literals. Otherwise the
/// key splits at the first `::`: with no occurrence it must be
/// `address.contract-name.asset-name`; with one occurrence the left part
/// must be a qualified contract identifier and the right part names the
/// event, unvalidated; a second `::` rejects the key.
pub open spec fn spec_parse_event_key(s: Seq<char>) -> Option<EventKeyV> {
    if s == "*"@ {
        Some(EventKeyV::AnyEvent)
    } else if s == "stx"@ {
        Some(EventKeyV::STXEvent)
    } else {
        match spec_find_dc(s) {
            None => spec_parse_asset_key(s),
            Some(i) => {
                let first = s.subrange(0, i);
                let rest = s.subrange(i + 2, s.len() as int);
                if spec_find_dc(rest) is Some {
                    None
                } else {
                    match spec_parse_qci(first) {
                        Some(q) => Some(EventKeyV::SmartContractEvent((q, rest))),
                        None => None,
                    }
                }
            },
        }
    }
}

/// The one-segment asset form: exactly three dot-separated parts, a
/// standard principal, a contract name and an asset name.
pub open spec fn spec_parse_asset_key(s: Seq<char>) -> Option<EventKeyV> {
    match spec_find(s, '.') {
        Some(d1) => {
            let p0 = s.subrange(0, d1);
            let rest1 = s.subrange(d1 + 1, s.len() as int);
            match spec_find(rest1, '.') {
                Some(d2) => {
                    let p1 = rest1.subrange(0, d2);
                    let p2 = rest1.subrange(d2 + 1, rest1.len() as int);
                    if spec_find(p2, '.') is None && is_standard_principal_lit(p0)
                        && is_contract_name(p1) && is_clarity_name(p2) {
                        Some(
                            EventKeyV::AssetEvent(
                                AssetIdV {
                                    contract_identifier: QciV { issuer: p0, name: p1 },
                                    asset_name: p2,
                                },
                            ),
                        )
                    } else {
                        None
                    }
                },
                None => None,
            }
        },
        None => None,
    }
}

impl EventKeyType {
    /// Parses a raw subscription key; `None` is "no match", which the
    /// resolver treats as a fatal configuration error.
    pub fn from_string(raw: &str) -> (r: Option<EventKeyType>)
        ensures
            opt_event_key_v(r) == spec_parse_event_key(raw@),
    {
        let v = to_char_vec(raw);
        if chars_eq_lit(&v, "*") {
            return Some(EventKeyType::AnyEvent);
        }
        if chars_eq_lit(&v, "stx") {
            return Some(EventKeyType::STXEvent);
        }
        let n = v.len();
        match find_double_colon(&v) {
            None => Self::parse_asset_key(&v),
            Some(i) => {
                let first = sub_vec(&v, 0, i);
                let rest = sub_vec(&v, i + 2, n);
                match find_double_colon(&rest) {
                    Some(_) => None,
                    None => {
                        match QualifiedContractIdentifier::parse_chars(&first) {
                            Some(q) => Some(EventKeyType::SmartContractEvent((q, rest))),
                            None => None,
                        }
                    },
                }
            },
        }
    }

    fn parse_asset_key(v: &Vec<char>) -> (r: Option<EventKeyType>)
        ensures
            opt_event_key_v(r) == spec_parse_asset_key(v@),
    {
        let n = v.len();
        match find_char(v, '.') {
            Some(d1) => {
                let p0 = sub_vec(v, 0, d1);
                let rest1 = sub_vec(v, d1 + 1, n);
                let m = rest1.len();
                match find_char(&rest1, '.') {
                    Some(d2) => {
                        let p1 = sub_vec(&rest1, 0, d2);
                        let p2 = sub_vec(&rest1, d2 + 1, m);
                        match find_char(&p2, '.') {
                            Some(_) => None,
                            None => {
                                if is_standard_principal_chars(&p0) && is_contract_name_chars(&p1)
                                    && is_clarity_name_chars(&p2) {
                                    Some(
                                        EventKeyType::AssetEvent(
                                            AssetIdentifier {
                                                contract_identifier: QualifiedContractIdentifier {
                                                    issuer: PrincipalData { literal: p0 },
                                                    name: p1,
                                                },
                                                asset_name: p2,
                                            },
                                        ),
                                    )
                                } else {
                                    None
                                }
                            },
                        }
                    },
                    None => None,
                }
            },
            None => None,
        }
    }
}

/// One configured event observer: a delivery endpoint plus the parsed
/// subscription keys.
pub struct EventObserverConfig {
    pub endpoint: String,
    pub events_keys: Vec<EventKeyType>,
}

/// The mathematical value of an event observer entry.
#[verifier::ext_equal]
pub struct ObserverV {
    pub endpoint: Seq<char>,
    pub events_keys: Seq<EventKeyV>,
}

impl View for EventObserverConfig {
    type V = ObserverV;

    open spec fn view(&self) -> ObserverV {
        ObserverV {
            endpoint: self.endpoint@,
            events_keys: self.events_keys@.map_values(|k: EventKeyType| k@),
        }
    }
}

/// An observer entry as the document carries it: raw key strings.
pub struct EventObserverConfigFile {
    pub endpoint: String,
    pub events_keys: Vec<String>,
}

/// The mathematical value of a raw observer entry.
#[verifier::ext_equal]
pub struct ObserverFileV {
    pub endpoint: Seq<char>,
    pub events_keys: Seq<Seq<char>>,
}

impl View for EventObserverConfigFile {
    type V = ObserverFileV;

    open spec fn view(&self) -> ObserverFileV {
        ObserverFileV {
            endpoint: self.endpoint@,
            events_keys: self.events_keys@.map_values(|k: String| k@),
        }
    }
}

} // verus!
