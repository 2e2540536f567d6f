//! The trade journal: one line of JSON for each event.
use vstd::prelude::*;

use crate::time::Now;

verus! {

/// A name with a text.
#[derive(Debug)]
pub struct TextField {
    pub name: String,
    pub value: String,
}

/// A name with a truth value.
#[derive(Debug)]
pub struct FlagField {
    pub name: String,
    pub value: bool,
}

/// The data of an event.
#[derive(Debug)]
pub struct Payload {
    pub texts: Vec<TextField>,
    pub flags: Vec<FlagField>,
}

/// The data of an event, as sequences of pairs.
#[verifier::ext_equal]
pub struct PayloadView {
    pub texts: Seq<(Seq<char>, Seq<char>)>,
    pub flags: Seq<(Seq<char>, bool)>,
}

/// Names with their texts, as pairs.
pub open spec fn text_pairs(fields: Seq<TextField>) -> Seq<(Seq<char>, Seq<char>)> {
    fields.map_values(|f: TextField| (f.name@, f.value@))
}

impl View for Payload {
    type V = PayloadView;

    open spec fn view(&self) -> PayloadView {
        PayloadView {
            texts: text_pairs(self.texts@),
            flags: self.flags@.map_values(|f: FlagField| (f.name@, f.value)),
        }
    }
}

impl PayloadView {
    /// No data.
    pub open spec fn empty() -> PayloadView {
        PayloadView { texts: seq![], flags: seq![] }
    }

    /// One more text.
    pub open spec fn text(self, name: Seq<char>, value: Seq<char>) -> PayloadView {
        PayloadView { texts: self.texts.push((name, value)), ..self }
    }

    /// One more truth value.
    pub open spec fn flag(self, name: Seq<char>, value: bool) -> PayloadView {
        PayloadView { flags: self.flags.push((name, value)), ..self }
    }
}

/// A name with a text.
fn text_field(name: &str, value: &str) -> (r: TextField)
    ensures
        r.name@ == name@,
        r.value@ == value@,
{
    TextField { name: name.to_string(), value: value.to_string() }
}

impl Payload {
    /// No data.
    pub fn new() -> (r: Payload)
        ensures
            r@ == PayloadView::empty(),
    {
        let r = Payload { texts: Vec::new(), flags: Vec::new() };
        assert(r@ =~= PayloadView::empty());
        r
    }

    /// One more text.
    pub fn text(self, name: &str, value: &str) -> (r: Payload)
        ensures
            r@ == self@.text(name@, value@),
    {
        let mut texts = self.texts;
        texts.push(text_field(name, value));
        let r = Payload { texts, flags: self.flags };
        assert(r@ =~= self@.text(name@, value@));
        r
    }

    /// One more truth value.
    pub fn flag(self, name: &str, value: bool) -> (r: Payload)
        ensures
            r@ == self@.flag(name@, value),
    {
        let mut flags = self.flags;
        flags.push(FlagField { name: name.to_string(), value });
        let r = Payload { texts: self.texts, flags };
        assert(r@ =~= self@.flag(name@, value));
        r
    }
}

/// How `serde_json` prints an object with the texts of `head` and, under `name`, an object with the
/// given texts and truth values.
pub uninterp spec fn json_object(
    head: Seq<(Seq<char>, Seq<char>)>,
    name: Seq<char>,
    texts: Seq<(Seq<char>, Seq<char>)>,
    flags: Seq<(Seq<char>, bool)>,
) -> Seq<char>;

/// How `chrono` writes a time, in nanoseconds since the Unix epoch, by RFC 3339.
pub uninterp spec fn rfc3339(nanos: int) -> Seq<char>;

/// `serde_json::Value`'s `Display`, on an object built from the given names and values. It is printed
/// on one line: a line break within a text or a name is escaped.
#[verifier::external_body]
fn print_json(head: &Vec<TextField>, name: &str, data: &Payload) -> (r: String)
    ensures
        r@ == json_object(text_pairs(head@), name@, data@.texts, data@.flags),
        !r@.contains('\n'),
{
    let mut inner: serde_json::Map<String, serde_json::Value> =
        data.texts.iter().map(|f| (f.name.clone(), f.value.as_str().into())).collect();
    inner.extend(data.flags.iter().map(|f| (f.name.clone(), f.value.into())));
    let mut outer: serde_json::Map<String, serde_json::Value> =
        head.iter().map(|f| (f.name.clone(), f.value.as_str().into())).collect();
    outer.insert(name.to_string(), serde_json::Value::Object(inner));
    serde_json::Value::Object(outer).to_string()
}

/// `chrono::DateTime::to_rfc3339` on a time in UTC.
#[verifier::external_body]
fn print_time(nanos: i64) -> (r: String)
    ensures
        r@ == rfc3339(nanos as int),
{
    chrono::DateTime::from_timestamp_nanos(nanos).to_rfc3339()
}

/// An event, before it is printed.
#[derive(Debug)]
pub struct JournalEntry {
    pub event: String,
    pub data: Payload,
}

/// The journal of one slot.
#[derive(Clone, Debug)]
pub struct TradeJournal {
    path: String,
    slot_name: String,
}

/// A journal: its file and the slot that it is for.
pub struct JournalView {
    pub path: Seq<char>,
    pub slot_name: Seq<char>,
}

impl View for TradeJournal {
    type V = JournalView;

    closed spec fn view(&self) -> JournalView {
        JournalView { path: self.path@, slot_name: self.slot_name@ }
    }
}

impl JournalView {
    /// The line of an event.
    pub open spec fn line(self, event: Seq<char>, market: Seq<char>, data: PayloadView, now: Now) -> Seq<char> {
        json_object(
            seq![
                ("ts"@, rfc3339(now.utc as int)),
                ("slot"@, self.slot_name),
                ("event"@, event),
                ("market"@, market),
            ],
            "data"@,
            data.texts,
            data.flags,
        )
    }
}

impl TradeJournal {
    /// The journal of a slot, in the file that is set or else in `logs/trade_events.jsonl`.
    pub fn new(slot_name: &str, log_file: Option<&str>) -> (r: Self)
        ensures
            r@.slot_name == slot_name@,
            r@.path == match log_file {
                Some(path) => path@,
                None => "logs/trade_events.jsonl"@,
            },
    {
        let path = match log_file {
            Some(path) => path.to_string(),
            None => "logs/trade_events.jsonl".to_string(),
        };
        TradeJournal { path, slot_name: slot_name.to_string() }
    }

    /// The file.
    pub fn path(&self) -> (r: &str)
        ensures
            r@ == self@.path,
    {
        self.path.as_str()
    }

    /// The line for an event, without a line break in it.
    pub fn log_event(&self, event: &str, market: &str, data: &Payload, now: Now) -> (r: String)
        ensures
            r@ == self@.line(event@, market@, data@, now),
            !r@.contains('\n'),
    {
        let ts = print_time(now.utc);
        let mut head: Vec<TextField> = Vec::new();
        head.push(text_field("ts", ts.as_str()));
        head.push(text_field("slot", self.slot_name.as_str()));
        head.push(text_field("event", event));
        head.push(text_field("market", market));
        assert(text_pairs(head@) =~= seq![
            ("ts"@, rfc3339(now.utc as int)),
            ("slot"@, self@.slot_name),
            ("event"@, event@),
            ("market"@, market@),
        ]);
        print_json(&head, "data", data)
    }
}

} // verus!
