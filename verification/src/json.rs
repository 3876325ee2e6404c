//! The JSON text of records, of record lists and of the not-found error.
//!
//! Objects and arrays are framed here, key by key, in compact form. The text
//! of a JSON string, quotes and escapes included, comes from `serde_json`.

use vstd::prelude::*;
use crate::record::{NotFound, NotFoundView, Record, RecordView};

verus! {

/// The ten decimal digits, in order.
pub open spec fn digits() -> Seq<char> {
    seq!['0', '1', '2', '3', '4', '5', '6', '7', '8', '9']
}

/// `n` in decimal notation, without sign or leading zeros.
pub open spec fn decimal_text(n: nat) -> Seq<char>
    decreases n,
{
    if n < 10 {
        seq![digits()[n as int]]
    } else {
        decimal_text(n / 10).push(digits()[(n % 10) as int])
    }
}

/// The JSON text of the string `s`, as `serde_json` writes it: `s` between
/// double quotes, with the characters escaped that JSON requires to be.
pub uninterp spec fn json_string(s: Seq<char>) -> Seq<char>;

/// The JSON object of a record with id `id` whose author is already encoded
/// as the JSON string `author`.
pub open spec fn record_frame(id: u32, author: Seq<char>) -> Seq<char> {
    "{\"id\":"@ + decimal_text(id as nat) + ",\"author\":"@ + author + "}"@
}

/// The JSON object of a not-found error for `id` whose message is already
/// encoded as the JSON string `message`.
pub open spec fn not_found_frame(id: u32, message: Seq<char>) -> Seq<char> {
    "{\"id\":"@ + decimal_text(id as nat) + ",\"err\":"@ + message + "}"@
}

/// The texts of `items` in order, with a comma between neighbours.
pub open spec fn comma_separated(items: Seq<Seq<char>>) -> Seq<char>
    decreases items.len(),
{
    if items.len() == 0 {
        Seq::<char>::empty()
    } else if items.len() == 1 {
        items[0]
    } else {
        comma_separated(items.drop_last()) + ","@ + items.last()
    }
}

/// The JSON array whose elements are the already encoded `items`.
pub open spec fn array_frame(items: Seq<Seq<char>>) -> Seq<char> {
    "["@ + comma_separated(items) + "]"@
}

/// The JSON text of a record.
pub open spec fn record_json(record: RecordView) -> Seq<char> {
    record_frame(record.id, json_string(record.author))
}

/// The JSON text of a list of records.
pub open spec fn records_json(records: Seq<RecordView>) -> Seq<char> {
    array_frame(records.map_values(|r: RecordView| record_json(r)))
}

/// The JSON text of a not-found error.
pub open spec fn not_found_json(e: NotFoundView) -> Seq<char> {
    not_found_frame(e.id, json_string(e.message))
}

/// The one-character text of a decimal digit.
fn digit(d: u32) -> (text: &'static str)
    requires
        d < 10,
    ensures
        text@ == seq![digits()[d as int]],
{
    proof {
        reveal_strlit("0");
        reveal_strlit("1");
        reveal_strlit("2");
        reveal_strlit("3");
        reveal_strlit("4");
        reveal_strlit("5");
        reveal_strlit("6");
        reveal_strlit("7");
        reveal_strlit("8");
        reveal_strlit("9");
    }
    let text = match d {
        0 => "0",
        1 => "1",
        2 => "2",
        3 => "3",
        4 => "4",
        5 => "5",
        6 => "6",
        7 => "7",
        8 => "8",
        _ => "9",
    };
    assert(text@ =~= seq![digits()[d as int]]);
    text
}

/// Writes `n` in decimal notation.
pub fn decimal(n: u32) -> (text: String)
    ensures
        text@ == decimal_text(n as nat),
    decreases n,
{
    if n < 10 {
        String::from_str(digit(n))
    } else {
        let mut text = decimal(n / 10);
        text.append(digit(n % 10));
        assert(text@ =~= decimal_text(n as nat));
        text
    }
}

/// `serde_json::Error`, declared so that it can appear in a signature.
/// Nothing is known of its values.
#[verifier::external_type_specification]
#[verifier::external_body]
pub struct ExJsonError(serde_json::Error);

/// Calls `serde_json::to_string` on a string slice. Trusted, not proved:
/// the call returns `Ok` for every string, because the only errors of
/// writing a string are those of the writer, and the byte vector that is
/// written to has none; and the text it returns is determined by the
/// characters of `s`, which is what `json_string` names.
#[verifier::external_body]
fn to_json_string(s: &str) -> (text: Result<String, serde_json::Error>)
    ensures
        text is Ok,
        text->Ok_0@ == json_string(s@),
{
    serde_json::to_string(s)
}

/// Encodes `s` as a JSON string.
pub fn encode_string(s: &str) -> (text: String)
    ensures
        text@ == json_string(s@),
{
    to_json_string(s).unwrap()
}

/// Frames the JSON object of a record from its id and its author, the latter
/// already encoded as a JSON string.
pub fn frame_record(id: u32, author: &str) -> (text: String)
    ensures
        text@ == record_frame(id, author@),
{
    let mut text = String::from_str("{\"id\":");
    text.append(decimal(id).as_str());
    text.append(",\"author\":");
    text.append(author);
    text.append("}");
    text
}

/// Frames the JSON object of a not-found error from the id that was asked
/// for and its message, the latter already encoded as a JSON string.
pub fn frame_not_found(id: u32, message: &str) -> (text: String)
    ensures
        text@ == not_found_frame(id, message@),
{
    let mut text = String::from_str("{\"id\":");
    text.append(decimal(id).as_str());
    text.append(",\"err\":");
    text.append(message);
    text.append("}");
    text
}

/// Frames a JSON array from its already encoded elements.
pub fn frame_array(items: &Vec<String>) -> (text: String)
    ensures
        text@ == array_frame(items.deep_view()),
{
    let ghost all = items.deep_view();
    let mut text = String::from_str("[");
    let mut i: usize = 0;
    assert(all.take(0) =~= Seq::<Seq<char>>::empty());
    assert(text@ =~= "["@ + comma_separated(all.take(0)));
    while i < items.len()
        invariant
            i <= items.len(),
            all == items.deep_view(),
            text@ == "["@ + comma_separated(all.take(i as int)),
        decreases items.len() - i,
    {
        if i > 0 {
            text.append(",");
        }
        text.append(items[i].as_str());
        proof {
            let before = all.take(i as int);
            let now = all.take(i + 1);
            assert(now.drop_last() =~= before);
            assert(now.last() == items[i as int]@);
            assert(text@ =~= "["@ + comma_separated(now));
        }
        i += 1;
    }
    assert(all.take(i as int) =~= all);
    text.append("]");
    text
}

impl Record {
    /// The JSON text of this record.
    pub fn to_json(&self) -> (text: String)
        ensures
            text@ == record_json(self@),
    {
        let author = encode_string(self.author.as_str());
        frame_record(self.id, author.as_str())
    }
}

impl NotFound {
    /// The JSON text of this error.
    pub fn to_json(&self) -> (text: String)
        ensures
            text@ == not_found_json(self@),
    {
        let message = encode_string(self.message.as_str());
        frame_not_found(self.id, message.as_str())
    }
}

/// The JSON text of `records`: an array of their objects, in order.
pub fn list_to_json(records: &Vec<Record>) -> (text: String)
    ensures
        text@ == records_json(records.deep_view()),
{
    let ghost all = records.deep_view();
    let ghost texts = all.map_values(|r: RecordView| record_json(r));
    let mut items: Vec<String> = Vec::new();
    let mut i: usize = 0;
    while i < records.len()
        invariant
            i <= records.len(),
            all == records.deep_view(),
            texts == all.map_values(|r: RecordView| record_json(r)),
            items.deep_view() =~= texts.take(i as int),
        decreases records.len() - i,
    {
        let ghost done = items.deep_view();
        let item = records[i].to_json();
        items.push(item);
        proof {
            assert(all[i as int] == records[i as int]@);
            assert(texts[i as int] == record_json(all[i as int]));
            assert(items.deep_view() =~= done.push(item@));
            assert(done.push(item@) =~= texts.take(i + 1));
        }
        i += 1;
    }
    assert(texts.take(i as int) =~= texts);
    frame_array(&items)
}

} // verus!
