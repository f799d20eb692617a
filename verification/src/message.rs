//! Inbound envelopes: the classified message and the rules that derive it
//! from a JSON document.

use vstd::prelude::*;
use vstd::string::*;
use crate::codec::{is_plain, json_string, parse_document, parsed_document, quote_string};
use crate::json::{json_view, lookup, Json, JsonView};

verus! {

/// Why a single frame could not be classified.
#[derive(Clone, Copy, Debug, PartialEq, Eq, Structural)]
pub enum ParseError {
    /// The frame is not a JSON document.
    Malformed,
    /// An OHLC message lacks its data array, or a candle lacks a numeric close.
    MissingField,
}

/// One OHLC data point; only the closing price is kept, as its decimal text.
#[derive(Clone, Debug, PartialEq, Eq)]
pub struct Candle {
    pub close: String,
}

/// The mathematical value of a [`Candle`].
pub struct CandleView {
    pub close: Seq<char>,
}

impl View for Candle {
    type V = CandleView;

    open spec fn view(&self) -> CandleView {
        CandleView { close: self.close@ }
    }
}

/// A typed inbound message.
#[derive(Clone, Debug, PartialEq, Eq)]
pub enum ClassifiedMessage {
    AckSuccess,
    AckFailure { reason: String },
    OhlcSnapshot { entries: Vec<Candle> },
    OhlcUpdate { entry: Candle },
    Unrecognized,
}

/// The mathematical value of a [`ClassifiedMessage`].
pub enum MessageView {
    AckSuccess,
    AckFailure { reason: Seq<char> },
    OhlcSnapshot { entries: Seq<CandleView> },
    OhlcUpdate { entry: CandleView },
    Unrecognized,
}

/// The values of a list of candles, in order.
pub open spec fn candle_views(entries: Seq<Candle>) -> Seq<CandleView> {
    Seq::new(entries.len(), |i: int| entries[i]@)
}

impl View for ClassifiedMessage {
    type V = MessageView;

    open spec fn view(&self) -> MessageView {
        match self {
            ClassifiedMessage::AckSuccess => MessageView::AckSuccess,
            ClassifiedMessage::AckFailure { reason } => MessageView::AckFailure { reason: reason@ },
            ClassifiedMessage::OhlcSnapshot { entries } => MessageView::OhlcSnapshot {
                entries: candle_views(entries@),
            },
            ClassifiedMessage::OhlcUpdate { entry } => MessageView::OhlcUpdate { entry: entry@ },
            ClassifiedMessage::Unrecognized => MessageView::Unrecognized,
        }
    }
}

/// The candle that one element of a data array holds: its `close` member,
/// which must be a number.
pub open spec fn candle_model(element: JsonView) -> Option<CandleView> {
    match element.member("close"@) {
        Some(JsonView::Number(text)) => Some(CandleView { close: text }),
        _ => None,
    }
}

/// The reason that a rejected acknowledgement gives: the text of its `error`
/// member, and the empty text where it has none.
pub open spec fn reason_model(doc: JsonView) -> Seq<char> {
    match doc.member("error"@) {
        Some(JsonView::Text(text)) => text,
        _ => Seq::empty(),
    }
}

/// Whether `doc` is an OHLC message of the given type.
pub open spec fn is_ohlc(doc: JsonView, kind: Seq<char>) -> bool {
    &&& doc.member("channel"@) == Some(JsonView::Text("ohlc"@))
    &&& doc.member("type"@) == Some(JsonView::Text(kind))
}

/// A snapshot holds one candle for each element of its data array, in order.
pub open spec fn snapshot_model(doc: JsonView) -> Result<MessageView, ParseError> {
    match doc.member("data"@) {
        Some(JsonView::Array(items)) => {
            if forall|i: int| 0 <= i < items.len() ==> (#[trigger] candle_model(items[i])) is Some {
                Ok(
                    MessageView::OhlcSnapshot {
                        entries: Seq::new(items.len(), |i: int| candle_model(items[i])->0),
                    },
                )
            } else {
                Err(ParseError::MissingField)
            }
        },
        _ => Err(ParseError::MissingField),
    }
}

/// An update holds the candle of the first element of its data array.
pub open spec fn update_model(doc: JsonView) -> Result<MessageView, ParseError> {
    match doc.member("data"@) {
        Some(JsonView::Array(items)) => {
            if items.len() > 0 && candle_model(items[0]) is Some {
                Ok(MessageView::OhlcUpdate { entry: candle_model(items[0])->0 })
            } else {
                Err(ParseError::MissingField)
            }
        },
        _ => Err(ParseError::MissingField),
    }
}

/// The classification rules, in priority order: a boolean `success` member
/// decides first; then the OHLC channel with type `snapshot`, then with type
/// `update`; anything else is unrecognized.
pub open spec fn classify_model(doc: JsonView) -> Result<MessageView, ParseError> {
    match doc.member("success"@) {
        Some(JsonView::Bool(true)) => Ok(MessageView::AckSuccess),
        Some(JsonView::Bool(false)) => Ok(MessageView::AckFailure { reason: reason_model(doc) }),
        _ => {
            if is_ohlc(doc, "snapshot"@) {
                snapshot_model(doc)
            } else if is_ohlc(doc, "update"@) {
                update_model(doc)
            } else {
                Ok(MessageView::Unrecognized)
            }
        },
    }
}

/// What a text frame classifies as: malformed where it is no JSON document,
/// else what the rules make of the document.
pub open spec fn classify_text_model(raw: Seq<char>) -> Result<MessageView, ParseError> {
    match parsed_document(raw) {
        Some(doc) => classify_model(doc),
        None => Err(ParseError::Malformed),
    }
}

/// The mathematical value of a classification result.
pub open spec fn classified_view(classified: Result<ClassifiedMessage, ParseError>) -> Result<
    MessageView,
    ParseError,
> {
    match classified {
        Ok(message) => Ok(message@),
        Err(error) => Err(error),
    }
}

/// Whether `value` is the JSON string `literal`.
fn is_text(value: Option<&Json>, literal: &str) -> (r: bool)
    ensures
        r == (value matches Some(v) && v@ == JsonView::Text(literal@)),
{
    match value {
        Some(Json::Text(text)) => {
            let wanted = literal.to_owned();
            text.eq(&wanted)
        },
        _ => false,
    }
}

/// Reads the candle of one element of a data array.
fn read_candle(element: &Json) -> (r: Option<Candle>)
    ensures
        r matches Some(candle) ==> candle_model(element@) == Some(candle@),
        r is None ==> candle_model(element@) is None,
{
    match element.get("close") {
        Some(Json::Number(text)) => Some(Candle { close: text.clone() }),
        _ => None,
    }
}

/// Reads the candles of a snapshot.
fn read_snapshot(doc: &Json) -> (r: Result<ClassifiedMessage, ParseError>)
    ensures
        classified_view(r) == snapshot_model(doc@),
{
    match doc.get("data") {
        Some(Json::Array(items)) => {
            let ghost models = doc@.member("data"@)->0->Array_0;
            let mut entries: Vec<Candle> = Vec::new();
            let mut i: usize = 0;
            while i < items.len()
                invariant
                    0 <= i <= items.len(),
                    doc@.member("data"@) == Some(JsonView::Array(models)),
                    models.len() == items@.len(),
                    forall|j: int| 0 <= j < items@.len() ==> models[j] == items@[j]@,
                    entries@.len() == i,
                    forall|j: int| 0 <= j < i ==> candle_model(models[j]) == Some(entries@[j]@),
                decreases items.len() - i,
            {
                match read_candle(&items[i]) {
                    Some(candle) => {
                        entries.push(candle);
                    },
                    None => {
                        assert(candle_model(models[i as int]) is None);
                        return Err(ParseError::MissingField);
                    },
                }
                i += 1;
            }
            let message = ClassifiedMessage::OhlcSnapshot { entries };
            proof {
                assert(message@->OhlcSnapshot_entries =~= Seq::new(
                    models.len(),
                    |j: int| candle_model(models[j])->0,
                ));
            }
            Ok(message)
        },
        _ => Err(ParseError::MissingField),
    }
}

/// Reads the candle of an update.
fn read_update(doc: &Json) -> (r: Result<ClassifiedMessage, ParseError>)
    ensures
        classified_view(r) == update_model(doc@),
{
    match doc.get("data") {
        Some(Json::Array(items)) => {
            if items.len() == 0 {
                return Err(ParseError::MissingField);
            }
            match read_candle(&items[0]) {
                Some(entry) => Ok(ClassifiedMessage::OhlcUpdate { entry }),
                None => Err(ParseError::MissingField),
            }
        },
        _ => Err(ParseError::MissingField),
    }
}

/// Classifies a JSON document by the rules of [`classify_model`].
pub fn classify_document(doc: &Json) -> (r: Result<ClassifiedMessage, ParseError>)
    ensures
        classified_view(r) == classify_model(doc@),
{
    match doc.get("success") {
        Some(Json::Bool(true)) => {
            return Ok(ClassifiedMessage::AckSuccess);
        },
        Some(Json::Bool(false)) => {
            let reason = match doc.get("error") {
                Some(Json::Text(text)) => text.clone(),
                _ => String::new(),
            };
            return Ok(ClassifiedMessage::AckFailure { reason });
        },
        _ => {},
    }
    if is_text(doc.get("channel"), "ohlc") {
        if is_text(doc.get("type"), "snapshot") {
            return read_snapshot(doc);
        }
        if is_text(doc.get("type"), "update") {
            return read_update(doc);
        }
    }
    Ok(ClassifiedMessage::Unrecognized)
}

/// Classifies a raw text frame: [`ParseError::Malformed`] where the frame is
/// no JSON document, else the classification of the document it holds.
pub fn classify(raw: &str) -> (r: Result<ClassifiedMessage, ParseError>)
    ensures
        classified_view(r) == classify_text_model(raw@),
{
    match parse_document(raw) {
        Ok(doc) => classify_document(&doc),
        Err(error) => Err(error),
    }
}

/// The document of one candle: an object whose `close` member is the price.
pub open spec fn candle_document(candle: CandleView) -> JsonView {
    JsonView::Object(seq![("close"@, JsonView::Number(candle.close))])
}

/// The document of an OHLC message of the given type.
pub open spec fn ohlc_document(kind: Seq<char>, entries: Seq<CandleView>) -> JsonView {
    JsonView::Object(
        seq![
            ("channel"@, JsonView::Text("ohlc"@)),
            ("type"@, JsonView::Text(kind)),
            (
                "data"@,
                JsonView::Array(Seq::new(entries.len(), |i: int| candle_document(entries[i]))),
            ),
        ],
    )
}

/// The document that carries a message: the least envelope that the
/// classification rules read back as that message.
pub open spec fn document_model(message: MessageView) -> JsonView {
    match message {
        MessageView::AckSuccess => JsonView::Object(seq![("success"@, JsonView::Bool(true))]),
        MessageView::AckFailure { reason } => JsonView::Object(
            seq![("success"@, JsonView::Bool(false)), ("error"@, JsonView::Text(reason))],
        ),
        MessageView::OhlcSnapshot { entries } => ohlc_document("snapshot"@, entries),
        MessageView::OhlcUpdate { entry } => ohlc_document("update"@, seq![entry]),
        MessageView::Unrecognized => JsonView::Object(Seq::empty()),
    }
}

/// The member names and type names of the envelope differ from each other.
proof fn lemma_names_differ()
    ensures
        "success"@ != "channel"@,
        "success"@ != "type"@,
        "success"@ != "data"@,
        "success"@ != "error"@,
        "channel"@ != "type"@,
        "channel"@ != "data"@,
        "type"@ != "data"@,
        "snapshot"@ != "update"@,
{
    reveal_strlit("success");
    reveal_strlit("channel");
    reveal_strlit("type");
    reveal_strlit("data");
    reveal_strlit("error");
    reveal_strlit("snapshot");
    reveal_strlit("update");
    assert("channel"@[0] == 'c');
    assert("type"@[0] == 't');
    assert("data"@[0] == 'd');
    assert("error"@[0] == 'e');
    assert("update"@[0] == 'u');
}

/// The candle of a candle's document is that candle.
proof fn lemma_candle_roundtrip(candle: CandleView)
    ensures
        candle_model(candle_document(candle)) == Some(candle),
{
    reveal_with_fuel(lookup, 2);
}

/// Round trip: classifying the document of a message gives the message back,
/// for every message.
pub proof fn lemma_classify_roundtrip(message: MessageView)
    ensures
        classify_model(document_model(message)) == Ok::<MessageView, ParseError>(message),
{
    reveal_with_fuel(lookup, 4);
    lemma_names_differ();
    match message {
        MessageView::OhlcSnapshot { entries } => {
            let items = Seq::new(entries.len(), |i: int| candle_document(entries[i]));
            assert(Seq::new(items.len(), |i: int| candle_model(items[i])->0) =~= entries);
        },
        MessageView::OhlcUpdate { entry } => {
            lemma_candle_roundtrip(entry);
        },
        _ => {},
    }
}

/// Builds the document of one candle.
fn candle_to_document(candle: &Candle) -> (doc: Json)
    ensures
        doc@ == candle_document(candle@),
{
    let mut members: Vec<(String, Json)> = Vec::new();
    members.push(("close".to_owned(), Json::Number(candle.close.clone())));
    let doc = Json::Object(members);
    proof {
        reveal_with_fuel(json_view, 2);
        assert(doc@->Object_0 =~= seq![("close"@, JsonView::Number(candle.close@))]);
    }
    doc
}

/// Builds the document of an OHLC message of the given type.
fn ohlc_to_document(kind: &str, entries: &Vec<Candle>) -> (doc: Json)
    ensures
        doc@ == ohlc_document(kind@, candle_views(entries@)),
{
    let mut items: Vec<Json> = Vec::new();
    let mut i: usize = 0;
    while i < entries.len()
        invariant
            0 <= i <= entries.len(),
            items@.len() == i,
            forall|j: int| 0 <= j < i ==> (#[trigger] items@[j])@ == candle_document(entries@[j]@),
        decreases entries.len() - i,
    {
        items.push(candle_to_document(&entries[i]));
        i += 1;
    }
    let data = Json::Array(items);
    let ghost data_view = data@;
    proof {
        assert(data_view->Array_0 =~= Seq::new(
            candle_views(entries@).len(),
            |j: int| candle_document(candle_views(entries@)[j]),
        ));
    }
    let mut members: Vec<(String, Json)> = Vec::new();
    members.push(("channel".to_owned(), Json::Text("ohlc".to_owned())));
    members.push(("type".to_owned(), Json::Text(kind.to_owned())));
    members.push(("data".to_owned(), data));
    let doc = Json::Object(members);
    proof {
        reveal_with_fuel(json_view, 2);
        assert(doc@->Object_0 =~= seq![
            ("channel"@, JsonView::Text("ohlc"@)),
            ("type"@, JsonView::Text(kind@)),
            ("data"@, data_view),
        ]);
    }
    doc
}

impl ClassifiedMessage {
    /// The document that carries this message; classifying it gives the
    /// message back.
    pub fn to_document(&self) -> (doc: Json)
        ensures
            doc@ == document_model(self@),
            classify_model(doc@) == Ok::<MessageView, ParseError>(self@),
    {
        proof {
            lemma_classify_roundtrip(self@);
        }
        match self {
            ClassifiedMessage::AckSuccess => {
                let mut members: Vec<(String, Json)> = Vec::new();
                members.push(("success".to_owned(), Json::Bool(true)));
                let doc = Json::Object(members);
                proof {
                    reveal_with_fuel(json_view, 2);
                    assert(doc@->Object_0 =~= seq![("success"@, JsonView::Bool(true))]);
                }
                doc
            },
            ClassifiedMessage::AckFailure { reason } => {
                let mut members: Vec<(String, Json)> = Vec::new();
                members.push(("success".to_owned(), Json::Bool(false)));
                members.push(("error".to_owned(), Json::Text(reason.clone())));
                let doc = Json::Object(members);
                proof {
                    reveal_with_fuel(json_view, 2);
                    assert(doc@->Object_0 =~= seq![
                        ("success"@, JsonView::Bool(false)),
                        ("error"@, JsonView::Text(reason@)),
                    ]);
                }
                doc
            },
            ClassifiedMessage::OhlcSnapshot { entries } => ohlc_to_document("snapshot", entries),
            ClassifiedMessage::OhlcUpdate { entry } => {
                let mut entries: Vec<Candle> = Vec::new();
                entries.push(Candle { close: entry.close.clone() });
                proof {
                    assert(candle_views(entries@) =~= seq![entry@]);
                }
                ohlc_to_document("update", &entries)
            },
            ClassifiedMessage::Unrecognized => {
                let doc = Json::Object(Vec::new());
                proof {
                    assert(doc@->Object_0 =~= Seq::empty());
                }
                doc
            },
        }
    }
}

/// The text of one candle's document.
pub open spec fn candle_text(candle: CandleView) -> Seq<char> {
    "{\"close\":"@ + candle.close + "}"@
}

/// The texts of the candles' documents, in order, with a comma between
/// neighbours.
pub open spec fn candles_text(entries: Seq<CandleView>) -> Seq<char>
    decreases entries.len(),
{
    if entries.len() == 0 {
        Seq::empty()
    } else if entries.len() == 1 {
        candle_text(entries[0])
    } else {
        candles_text(entries.drop_last()) + ","@ + candle_text(entries.last())
    }
}

/// The text of a rejected acknowledgement around a reason that is already
/// quoted.
pub open spec fn failure_text(quoted_reason: Seq<char>) -> Seq<char> {
    "{\"success\":false,\"error\":"@ + quoted_reason + "}"@
}

/// The text frame of a message: its document in compact JSON, members in the
/// order of [`document_model`].
pub open spec fn message_text(message: MessageView) -> Seq<char> {
    match message {
        MessageView::AckSuccess => "{\"success\":true}"@,
        MessageView::AckFailure { reason } => failure_text(json_string(reason)),
        MessageView::OhlcSnapshot { entries } => "{\"channel\":\"ohlc\",\"type\":\"snapshot\",\"data\":["@
            + candles_text(entries) + "]}"@,
        MessageView::OhlcUpdate { entry } => "{\"channel\":\"ohlc\",\"type\":\"update\",\"data\":["@
            + candle_text(entry) + "]}"@,
        MessageView::Unrecognized => "{}"@,
    }
}

/// Appends the text of one candle's document to `out`.
fn push_candle(out: &mut String, candle: &Candle)
    ensures
        final(out)@ == old(out)@ + candle_text(candle@),
{
    out.append("{\"close\":");
    out.append(candle.close.as_str());
    out.append("}");
}

/// Appends the texts of the candles' documents to `out`, comma-separated.
fn push_candles(out: &mut String, entries: &Vec<Candle>)
    ensures
        final(out)@ == old(out)@ + candles_text(candle_views(entries@)),
{
    let ghost all = candle_views(entries@);
    let mut i: usize = 0;
    while i < entries.len()
        invariant
            0 <= i <= entries.len(),
            all == candle_views(entries@),
            out@ == old(out)@ + candles_text(all.take(i as int)),
        decreases entries.len() - i,
    {
        if i > 0 {
            out.append(",");
        }
        push_candle(out, &entries[i]);
        proof {
            let next = all.take(i + 1);
            assert(next.drop_last() =~= all.take(i as int));
        }
        i += 1;
    }
    assert(all.take(i as int) =~= all);
}

impl ClassifiedMessage {
    /// The text frame that carries this message. A reason that needs no
    /// escape stands in it unchanged, between double quotes.
    pub fn serialize(&self) -> (r: String)
        ensures
            r@ == message_text(self@),
            (self@ matches MessageView::AckFailure { reason } ==> (is_plain(reason) ==> r@
                == failure_text(seq!['"'] + reason + seq!['"']))),
    {
        match self {
            ClassifiedMessage::AckSuccess => "{\"success\":true}".to_owned(),
            ClassifiedMessage::AckFailure { reason } => {
                let mut out = "{\"success\":false,\"error\":".to_owned();
                let quoted = quote_string(reason.as_str());
                out.append(quoted.as_str());
                out.append("}");
                out
            },
            ClassifiedMessage::OhlcSnapshot { entries } => {
                let mut out = "{\"channel\":\"ohlc\",\"type\":\"snapshot\",\"data\":[".to_owned();
                push_candles(&mut out, entries);
                out.append("]}");
                out
            },
            ClassifiedMessage::OhlcUpdate { entry } => {
                let mut out = "{\"channel\":\"ohlc\",\"type\":\"update\",\"data\":[".to_owned();
                push_candle(&mut out, entry);
                out.append("]}");
                out
            },
            ClassifiedMessage::Unrecognized => "{}".to_owned(),
        }
    }
}

} // verus!
