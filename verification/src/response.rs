//! The response shapes that the executable prints, and their decoding
//! from JSON.

use crate::error::{PipelineError, PipelineErrorView};
use crate::json::{array_member, json_document, member, parse_json, seq_view, text_member, Json, JsonView};
use vstd::prelude::*;
use vstd::string::*;

verus! {

/// One key/value pair of an event.
#[derive(Debug, Clone, PartialEq, Eq)]
pub struct Attribute {
    pub key: String,
    pub value: String,
}

/// One event: an ordered list of attributes.
#[derive(Debug, Clone, PartialEq, Eq)]
pub struct Event {
    pub attributes: Vec<Attribute>,
}

/// One log entry: an ordered list of events.
#[derive(Debug, Clone, PartialEq, Eq)]
pub struct LogEntry {
    pub events: Vec<Event>,
}

/// What the executable reports of a transaction. A value that a submit
/// call returned is provisional; only one that the confirmation query
/// returned is final.
#[derive(Debug, Clone, PartialEq, Eq)]
pub struct TxResult {
    pub code: u32,
    pub tx_hash: String,
    pub raw_log: String,
    pub logs: Vec<LogEntry>,
}

/// The identity of an account, as a key lookup reports it.
#[derive(Debug, Clone, PartialEq, Eq)]
pub struct KeyInfo {
    pub name: String,
    pub kind: String,
    pub address: String,
    pub pubkey: String,
}

pub struct AttributeView {
    pub key: Seq<char>,
    pub value: Seq<char>,
}

pub struct EventView {
    pub attributes: Seq<AttributeView>,
}

pub struct LogEntryView {
    pub events: Seq<EventView>,
}

pub struct TxResultView {
    pub code: u32,
    pub tx_hash: Seq<char>,
    pub raw_log: Seq<char>,
    pub logs: Seq<LogEntryView>,
}

pub struct KeyInfoView {
    pub name: Seq<char>,
    pub kind: Seq<char>,
    pub address: Seq<char>,
    pub pubkey: Seq<char>,
}

impl View for Attribute {
    type V = AttributeView;

    open spec fn view(&self) -> AttributeView {
        AttributeView { key: self.key@, value: self.value@ }
    }
}

impl View for Event {
    type V = EventView;

    open spec fn view(&self) -> EventView {
        EventView { attributes: seq_view(self.attributes@) }
    }
}

impl View for LogEntry {
    type V = LogEntryView;

    open spec fn view(&self) -> LogEntryView {
        LogEntryView { events: seq_view(self.events@) }
    }
}

impl View for TxResult {
    type V = TxResultView;

    open spec fn view(&self) -> TxResultView {
        TxResultView {
            code: self.code,
            tx_hash: self.tx_hash@,
            raw_log: self.raw_log@,
            logs: seq_view(self.logs@),
        }
    }
}

impl View for KeyInfo {
    type V = KeyInfoView;

    open spec fn view(&self) -> KeyInfoView {
        KeyInfoView {
            name: self.name@,
            kind: self.kind@,
            address: self.address@,
            pubkey: self.pubkey@,
        }
    }
}

/// Whether `c` is one of the ten ASCII digits.
pub open spec fn is_digit(c: char) -> bool {
    0x30 <= c as u32 <= 0x39
}

/// The number that a digit stands for; 0 for any other character.
pub open spec fn digit_value(c: char) -> nat {
    if is_digit(c) {
        (c as u32 - 0x30) as nat
    } else {
        0
    }
}

/// The number that a string of digits spells in base ten.
pub open spec fn digits_value(s: Seq<char>) -> nat
    decreases s.len(),
{
    if s.len() == 0 {
        0
    } else {
        digits_value(s.drop_last()) * 10 + digit_value(s.last())
    }
}

/// The natural number that `s` spells: `None` unless `s` is a non-empty
/// string of digits.
pub open spec fn decimal_value(s: Seq<char>) -> Option<nat> {
    if s.len() > 0 && (forall|i: int| 0 <= i < s.len() ==> is_digit(#[trigger] s[i])) {
        Some(digits_value(s))
    } else {
        None
    }
}

/// A prefix never spells more than the whole.
pub proof fn lemma_digits_value_prefix(s: Seq<char>, n: int)
    requires
        0 <= n <= s.len(),
    ensures
        digits_value(s.take(n)) <= digits_value(s),
    decreases s.len(),
{
    if n == s.len() {
        assert(s.take(n) =~= s);
    } else {
        assert(s.drop_last().take(n) =~= s.take(n));
        lemma_digits_value_prefix(s.drop_last(), n);
    }
}

/// Reads a string of decimal digits as a `u32`.
pub fn parse_u32(text: &str) -> (value: Option<u32>)
    ensures
        value == match decimal_value(text@) {
            Some(n) => if n <= u32::MAX {
                Some(n as u32)
            } else {
                None
            },
            None => None,
        },
{
    let n: usize = text.unicode_len();
    if n == 0 {
        return None;
    }
    let mut acc: u64 = 0;
    let mut i: usize = 0;
    assert(text@.take(0) =~= Seq::<char>::empty());
    while i < n
        invariant
            n == text@.len(),
            i <= n,
            forall|k: int| 0 <= k < i ==> is_digit(#[trigger] text@[k]),
            acc == digits_value(text@.take(i as int)),
            acc <= u32::MAX,
        decreases n - i,
    {
        let c: char = text.get_char(i);
        let u: u32 = c as u32;
        if u < 0x30 || u > 0x39 {
            return None;
        }
        proof {
            assert(text@.take(i + 1).drop_last() =~= text@.take(i as int));
            assert(text@.take(i + 1).last() == c);
            lemma_digits_value_prefix(text@, i + 1);
        }
        let next: u64 = acc * 10 + (u - 0x30) as u64;
        if next > 0xFFFF_FFFF {
            return None;
        }
        acc = next;
        i = i + 1;
    }
    assert(text@.take(n as int) =~= text@);
    Some(acc as u32)
}

/// The attribute that a document spells: an object with the strings
/// `key` and `value`.
pub open spec fn attribute_of(doc: JsonView) -> Option<AttributeView> {
    match (text_member(doc, "key"@), text_member(doc, "value"@)) {
        (Some(key), Some(value)) => Some(AttributeView { key, value }),
        _ => None,
    }
}

/// The attributes that a list of documents spells: `None` as soon as one
/// of them is no attribute.
pub open spec fn attributes_of(items: Seq<JsonView>) -> Option<Seq<AttributeView>> {
    if forall|i: int| 0 <= i < items.len() ==> (#[trigger] attribute_of(items[i])) is Some {
        Some(Seq::new(items.len(), |i: int| attribute_of(items[i])->0))
    } else {
        None
    }
}

/// The event that a document spells: an object with the array
/// `attributes`.
pub open spec fn event_of(doc: JsonView) -> Option<EventView> {
    match array_member(doc, "attributes"@) {
        Some(items) => match attributes_of(items) {
            Some(attributes) => Some(EventView { attributes }),
            None => None,
        },
        None => None,
    }
}

/// The events that a list of documents spells.
pub open spec fn events_of(items: Seq<JsonView>) -> Option<Seq<EventView>> {
    if forall|i: int| 0 <= i < items.len() ==> (#[trigger] event_of(items[i])) is Some {
        Some(Seq::new(items.len(), |i: int| event_of(items[i])->0))
    } else {
        None
    }
}

/// The log entry that a document spells: an object with the array
/// `events`.
pub open spec fn log_entry_of(doc: JsonView) -> Option<LogEntryView> {
    match array_member(doc, "events"@) {
        Some(items) => match events_of(items) {
            Some(events) => Some(LogEntryView { events }),
            None => None,
        },
        None => None,
    }
}

/// The log entries that a list of documents spells.
pub open spec fn log_entries_of(items: Seq<JsonView>) -> Option<Seq<LogEntryView>> {
    if forall|i: int| 0 <= i < items.len() ==> (#[trigger] log_entry_of(items[i])) is Some {
        Some(Seq::new(items.len(), |i: int| log_entry_of(items[i])->0))
    } else {
        None
    }
}

/// The result code of a document: its member `code`, a number written
/// as a non-negative integer that fits 32 bits.
pub open spec fn code_of(doc: JsonView) -> Option<u32> {
    match member(doc, "code"@) {
        Some(JsonView::Number(text)) => match decimal_value(text) {
            Some(n) => if n <= u32::MAX {
                Some(n as u32)
            } else {
                None
            },
            None => None,
        },
        _ => None,
    }
}

/// The transaction result that a document spells. The members `code`,
/// `txhash`, `raw_log` and `logs` are required; any other is ignored.
pub open spec fn tx_result_of(doc: JsonView) -> Option<TxResultView> {
    match (
        code_of(doc),
        text_member(doc, "txhash"@),
        text_member(doc, "raw_log"@),
        array_member(doc, "logs"@),
    ) {
        (Some(code), Some(tx_hash), Some(raw_log), Some(items)) => match log_entries_of(items) {
            Some(logs) => Some(TxResultView { code, tx_hash, raw_log, logs }),
            None => None,
        },
        _ => None,
    }
}

/// The key info that a document spells. The string members `name`,
/// `type`, `address` and `pubkey` are required; any other is ignored.
pub open spec fn key_info_of(doc: JsonView) -> Option<KeyInfoView> {
    match (
        text_member(doc, "name"@),
        text_member(doc, "type"@),
        text_member(doc, "address"@),
        text_member(doc, "pubkey"@),
    ) {
        (Some(name), Some(kind), Some(address), Some(pubkey)) => Some(
            KeyInfoView { name, kind, address, pubkey },
        ),
        _ => None,
    }
}

impl Attribute {
    /// Reads an attribute out of a document.
    pub fn from_json(doc: &Json) -> (out: Option<Attribute>)
        ensures
            out is Some == attribute_of(doc@) is Some,
            out matches Some(a) ==> attribute_of(doc@) == Some(a@),
    {
        match (doc.get_text("key"), doc.get_text("value")) {
            (Some(key), Some(value)) => Some(Attribute { key: key.clone(), value: value.clone() }),
            _ => None,
        }
    }

    /// Reads a list of attributes; fails as soon as one item is none.
    pub fn list_from_json(items: &Vec<Json>) -> (out: Option<Vec<Attribute>>)
        ensures
            out is Some == attributes_of(seq_view(items@)) is Some,
            out matches Some(v) ==> attributes_of(seq_view(items@)) == Some(seq_view(v@)),
    {
        let mut out: Vec<Attribute> = Vec::new();
        let mut i: usize = 0;
        while i < items.len()
            invariant
                i <= items@.len(),
                out@.len() == i,
                forall|k: int| 0 <= k < i ==> #[trigger] attribute_of(items@[k]@) == Some(out@[k]@),
            decreases items@.len() - i,
        {
            match Attribute::from_json(&items[i]) {
                Some(a) => {
                    out.push(a);
                },
                None => {
                    assert(attribute_of(seq_view(items@)[i as int]) is None);
                    return None;
                },
            }
            i = i + 1;
        }
        proof {
            let views = seq_view(items@);
            assert forall|k: int| 0 <= k < views.len() implies (#[trigger] attribute_of(
                views[k],
            )) is Some by {
                assert(attribute_of(items@[k]@) == Some(out@[k]@));
            }
            assert(attributes_of(views)->0 =~= seq_view(out@)) by {
                assert forall|k: int| 0 <= k < views.len() implies attributes_of(views)->0[k]
                    == seq_view(out@)[k] by {
                    assert(attribute_of(items@[k]@) == Some(out@[k]@));
                }
            }
        }
        Some(out)
    }
}

impl Event {
    /// Reads an event out of a document.
    pub fn from_json(doc: &Json) -> (out: Option<Event>)
        ensures
            out is Some == event_of(doc@) is Some,
            out matches Some(e) ==> event_of(doc@) == Some(e@),
    {
        match doc.get_array("attributes") {
            Some(items) => match Attribute::list_from_json(items) {
                Some(attributes) => Some(Event { attributes }),
                None => None,
            },
            None => None,
        }
    }

    /// Reads a list of events; fails as soon as one item is none.
    pub fn list_from_json(items: &Vec<Json>) -> (out: Option<Vec<Event>>)
        ensures
            out is Some == events_of(seq_view(items@)) is Some,
            out matches Some(v) ==> events_of(seq_view(items@)) == Some(seq_view(v@)),
    {
        let mut out: Vec<Event> = Vec::new();
        let mut i: usize = 0;
        while i < items.len()
            invariant
                i <= items@.len(),
                out@.len() == i,
                forall|k: int| 0 <= k < i ==> #[trigger] event_of(items@[k]@) == Some(out@[k]@),
            decreases items@.len() - i,
        {
            match Event::from_json(&items[i]) {
                Some(e) => {
                    out.push(e);
                },
                None => {
                    assert(event_of(seq_view(items@)[i as int]) is None);
                    return None;
                },
            }
            i = i + 1;
        }
        proof {
            let views = seq_view(items@);
            assert forall|k: int| 0 <= k < views.len() implies (#[trigger] event_of(
                views[k],
            )) is Some by {
                assert(event_of(items@[k]@) == Some(out@[k]@));
            }
            assert(events_of(views)->0 =~= seq_view(out@)) by {
                assert forall|k: int| 0 <= k < views.len() implies events_of(views)->0[k]
                    == seq_view(out@)[k] by {
                    assert(event_of(items@[k]@) == Some(out@[k]@));
                }
            }
        }
        Some(out)
    }
}

impl LogEntry {
    /// Reads a log entry out of a document.
    pub fn from_json(doc: &Json) -> (out: Option<LogEntry>)
        ensures
            out is Some == log_entry_of(doc@) is Some,
            out matches Some(e) ==> log_entry_of(doc@) == Some(e@),
    {
        match doc.get_array("events") {
            Some(items) => match Event::list_from_json(items) {
                Some(events) => Some(LogEntry { events }),
                None => None,
            },
            None => None,
        }
    }

    /// Reads a list of log entries; fails as soon as one item is none.
    pub fn list_from_json(items: &Vec<Json>) -> (out: Option<Vec<LogEntry>>)
        ensures
            out is Some == log_entries_of(seq_view(items@)) is Some,
            out matches Some(v) ==> log_entries_of(seq_view(items@)) == Some(seq_view(v@)),
    {
        let mut out: Vec<LogEntry> = Vec::new();
        let mut i: usize = 0;
        while i < items.len()
            invariant
                i <= items@.len(),
                out@.len() == i,
                forall|k: int| 0 <= k < i ==> #[trigger] log_entry_of(items@[k]@) == Some(out@[k]@),
            decreases items@.len() - i,
        {
            match LogEntry::from_json(&items[i]) {
                Some(e) => {
                    out.push(e);
                },
                None => {
                    assert(log_entry_of(seq_view(items@)[i as int]) is None);
                    return None;
                },
            }
            i = i + 1;
        }
        proof {
            let views = seq_view(items@);
            assert forall|k: int| 0 <= k < views.len() implies (#[trigger] log_entry_of(
                views[k],
            )) is Some by {
                assert(log_entry_of(items@[k]@) == Some(out@[k]@));
            }
            assert(log_entries_of(views)->0 =~= seq_view(out@)) by {
                assert forall|k: int| 0 <= k < views.len() implies log_entries_of(views)->0[k]
                    == seq_view(out@)[k] by {
                    assert(log_entry_of(items@[k]@) == Some(out@[k]@));
                }
            }
        }
        Some(out)
    }
}

/// Reads the member `code` of a document.
pub fn code_from_json(doc: &Json) -> (out: Option<u32>)
    ensures
        out == code_of(doc@),
{
    match doc.get("code") {
        Some(Json::Number(text)) => parse_u32(text.as_str()),
        _ => None,
    }
}

impl TxResult {
    /// Reads a transaction result out of a document.
    pub fn from_json(doc: &Json) -> (out: Option<TxResult>)
        ensures
            out is Some == tx_result_of(doc@) is Some,
            out matches Some(t) ==> tx_result_of(doc@) == Some(t@),
    {
        match (
            code_from_json(doc),
            doc.get_text("txhash"),
            doc.get_text("raw_log"),
            doc.get_array("logs"),
        ) {
            (Some(code), Some(tx_hash), Some(raw_log), Some(items)) => {
                match LogEntry::list_from_json(items) {
                    Some(logs) => Some(
                        TxResult { code, tx_hash: tx_hash.clone(), raw_log: raw_log.clone(), logs },
                    ),
                    None => None,
                }
            },
            _ => None,
        }
    }
}

impl KeyInfo {
    /// Reads a key info out of a document.
    pub fn from_json(doc: &Json) -> (out: Option<KeyInfo>)
        ensures
            out is Some == key_info_of(doc@) is Some,
            out matches Some(k) ==> key_info_of(doc@) == Some(k@),
    {
        match (
            doc.get_text("name"),
            doc.get_text("type"),
            doc.get_text("address"),
            doc.get_text("pubkey"),
        ) {
            (Some(name), Some(kind), Some(address), Some(pubkey)) => Some(
                KeyInfo {
                    name: name.clone(),
                    kind: kind.clone(),
                    address: address.clone(),
                    pubkey: pubkey.clone(),
                },
            ),
            _ => None,
        }
    }
}

/// The transaction result that a byte string spells, if any.
pub open spec fn tx_result_in(bytes: Seq<u8>) -> Option<TxResultView> {
    match json_document(bytes) {
        Some(doc) => tx_result_of(doc),
        None => None,
    }
}

/// The key info that a byte string spells, if any.
pub open spec fn key_info_in(bytes: Seq<u8>) -> Option<KeyInfoView> {
    match json_document(bytes) {
        Some(doc) => key_info_of(doc),
        None => None,
    }
}

/// Decodes captured output as any JSON document.
pub fn decode_json(bytes: &[u8]) -> (out: Result<Json, PipelineError>)
    ensures
        out is Ok == json_document(bytes@) is Some,
        out matches Ok(doc) ==> json_document(bytes@) == Some(doc@),
        out matches Err(e) ==> e@ == PipelineErrorView::ResponseDecodeFailure,
{
    match parse_json(bytes) {
        Some(doc) => Ok(doc),
        None => Err(PipelineError::ResponseDecodeFailure),
    }
}

/// Decodes captured output as a transaction result. Fails when the
/// bytes are no JSON document or the document lacks a required member.
pub fn decode_tx_result(bytes: &[u8]) -> (out: Result<TxResult, PipelineError>)
    ensures
        out is Ok == tx_result_in(bytes@) is Some,
        out matches Ok(t) ==> tx_result_in(bytes@) == Some(t@),
        out matches Err(e) ==> e@ == PipelineErrorView::ResponseDecodeFailure,
{
    match parse_json(bytes) {
        Some(doc) => match TxResult::from_json(&doc) {
            Some(t) => Ok(t),
            None => Err(PipelineError::ResponseDecodeFailure),
        },
        None => Err(PipelineError::ResponseDecodeFailure),
    }
}

/// Decodes captured output as a key info.
pub fn decode_key_info(bytes: &[u8]) -> (out: Result<KeyInfo, PipelineError>)
    ensures
        out is Ok == key_info_in(bytes@) is Some,
        out matches Ok(k) ==> key_info_in(bytes@) == Some(k@),
        out matches Err(e) ==> e@ == PipelineErrorView::ResponseDecodeFailure,
{
    match parse_json(bytes) {
        Some(doc) => match KeyInfo::from_json(&doc) {
            Some(k) => Ok(k),
            None => Err(PipelineError::ResponseDecodeFailure),
        },
        None => Err(PipelineError::ResponseDecodeFailure),
    }
}

/// The address that an instantiation reports: the value of the first
/// attribute of the first event of the first log entry.
pub open spec fn initialized_address_of(tx: TxResultView) -> Option<Seq<char>> {
    if tx.logs.len() > 0 && tx.logs[0].events.len() > 0 && tx.logs[0].events[0].attributes.len()
        > 0 {
        Some(tx.logs[0].events[0].attributes[0].value)
    } else {
        None
    }
}

impl TxResult {
    /// The address of a newly instantiated contract. The position is a
    /// convention of the chain's event layout, not a schema: a result
    /// that is shorter than expected is reported, never indexed into.
    pub fn initialized_address(&self) -> (out: Result<String, PipelineError>)
        ensures
            out is Ok == initialized_address_of(self@) is Some,
            out matches Ok(a) ==> initialized_address_of(self@) == Some(a@),
            out matches Err(e) ==> e@ == PipelineErrorView::EventShapeMismatch,
    {
        if self.logs.len() > 0 && self.logs[0].events.len() > 0
            && self.logs[0].events[0].attributes.len() > 0 {
            Ok(self.logs[0].events[0].attributes[0].value.clone())
        } else {
            Err(PipelineError::EventShapeMismatch)
        }
    }
}

} // verus!
