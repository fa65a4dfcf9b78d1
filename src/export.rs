//! What an export appends to its output file: one CSV record for each item
//! that holds a string value under the primary key attribute.

use vstd::prelude::*;
use vstd::utf8::{encode_utf8, is_ascii_chars, is_ascii_chars_encode_utf8};
use crate::item::{Item, string_value};

verus! {

#[verifier::external_type_specification]
#[verifier::external_body]
pub struct ExCsvError(csv::Error);

/// The field holds a character that the csv crate quotes: the delimiter `,`,
/// the quote `"`, or a line break.
pub open spec fn needs_quotes(field: Seq<char>) -> bool {
    exists|i: int|
        0 <= i < field.len() && (#[trigger] field[i] == ',' || field[i] == '"' || field[i] == '\n'
            || field[i] == '\r')
}

/// The field with each quote doubled.
pub open spec fn double_quotes(field: Seq<char>) -> Seq<char>
    decreases field.len(),
{
    if field.len() == 0 {
        Seq::empty()
    } else if field.last() == '"' {
        double_quotes(field.drop_last()) + seq!['"', '"']
    } else {
        double_quotes(field.drop_last()).push(field.last())
    }
}

/// The bytes of one CSV record that holds the single field `field`, with the
/// csv crate's defaults: an empty field alone in its record is written as two
/// quotes; a field that needs quotes is enclosed in them with its own quotes
/// doubled; any other field is written as it stands. The record ends in `\n`.
pub open spec fn csv_record(field: Seq<char>) -> Seq<u8> {
    if field.len() == 0 {
        seq![34u8, 34u8, 10u8]
    } else if needs_quotes(field) {
        seq![34u8] + encode_utf8(double_quotes(field)) + seq![34u8, 10u8]
    } else {
        encode_utf8(field).push(10u8)
    }
}

/// Why an export produced no output.
#[derive(Debug, PartialEq, Eq, Clone, Copy, Structural)]
pub enum ExportError {
    /// A page request of the scan failed and the export was asked to be strict.
    Scan,
}

/// Relies on csv::WriterBuilder (headers off, otherwise the defaults: ',' as
/// delimiter, '"' as quote doubled inside a field, '\n' as terminator, quotes
/// only where needed) and csv::Writer::write_record and into_inner, writing one
/// single-field record into a `Vec`. Writing into a `Vec` does not fail, and
/// the field count of a writer's first record is always accepted.
#[verifier::external_body]
fn encode_record(field: &str) -> (r: Result<Vec<u8>, csv::Error>)
    ensures
        r is Ok,
        r matches Ok(b) ==> b@ == csv_record(field@),
{
    let mut wtr = csv::WriterBuilder::new().has_headers(false).from_writer(Vec::new());
    wtr.write_record([field])?;
    wtr.into_inner().map_err(|e| csv::Error::from(e.into_error()))
}

/// The string values held under `primary_key_name`, item by item in order;
/// items without a string value there contribute nothing.
pub open spec fn keys_of(items: Seq<Item>, primary_key_name: Seq<char>) -> Seq<Seq<char>>
    decreases items.len(),
{
    if items.len() == 0 {
        Seq::empty()
    } else {
        let rest = keys_of(items.drop_last(), primary_key_name);
        match string_value(items.last()@, primary_key_name) {
            Some(v) => rest.push(v),
            None => rest,
        }
    }
}

/// The CSV text of one single-field record for each of `fields`, in order.
pub open spec fn csv_text(fields: Seq<Seq<char>>) -> Seq<u8>
    decreases fields.len(),
{
    if fields.len() == 0 {
        Seq::empty()
    } else {
        csv_text(fields.drop_last()) + csv_record(fields.last())
    }
}

/// What an export of `items` appends to the output file.
pub open spec fn export_text(items: Seq<Item>, primary_key_name: Seq<char>) -> Seq<u8> {
    csv_text(keys_of(items, primary_key_name))
}

/// The views of a sequence of strings.
pub open spec fn views(strings: Seq<String>) -> Seq<Seq<char>> {
    strings.map_values(|s: String| s@)
}

/// The string values of `items` under `primary_key_name`, in item order.
pub fn primary_keys(items: &Vec<Item>, primary_key_name: &String) -> (r: Vec<String>)
    ensures
        views(r@) == keys_of(items@, primary_key_name@),
{
    let mut keys: Vec<String> = Vec::new();
    let mut i: usize = 0;
    while i < items.len()
        invariant
            i <= items.len(),
            views(keys@) == keys_of(items@.take(i as int), primary_key_name@),
        decreases items.len() - i,
    {
        assert(items@.take(i + 1).drop_last() =~= items@.take(i as int));
        match items[i].string_attribute(primary_key_name) {
            Some(v) => {
                keys.push(v);
                assert(views(keys@) =~= keys_of(items@.take(i as int), primary_key_name@).push(
                    v@,
                ));
            },
            None => {},
        }
        i = i + 1;
    }
    assert(items@.take(i as int) =~= items@);
    keys
}

/// The CSV text of one single-field record for each of `fields`, in order.
pub fn encode_lines(fields: &Vec<String>) -> (r: Vec<u8>)
    ensures
        r@ == csv_text(views(fields@)),
{
    let mut out: Vec<u8> = Vec::new();
    let mut i: usize = 0;
    while i < fields.len()
        invariant
            i <= fields.len(),
            out@ == csv_text(views(fields@.take(i as int))),
        decreases fields.len() - i,
    {
        let mut rec = encode_record(fields[i].as_str()).unwrap();
        assert(views(fields@.take(i + 1)).drop_last() =~= views(fields@.take(i as int)));
        out.append(&mut rec);
        i = i + 1;
    }
    assert(fields@.take(i as int) =~= fields@);
    out
}

/// The bytes that an export of `items` appends to the output file: one record
/// for each item with a string value under `primary_key_name`, in item order.
pub fn render_export(items: &Vec<Item>, primary_key_name: &String) -> (r: Vec<u8>)
    ensures
        r@ == export_text(items@, primary_key_name@),
{
    let keys = primary_keys(items, primary_key_name);
    encode_lines(&keys)
}

/// A non-empty ASCII field without a delimiter, a quote or a line break is
/// written as its own characters, one byte each, followed by `\n`.
pub proof fn lemma_plain_ascii_record(field: Seq<char>)
    requires
        field.len() > 0,
        is_ascii_chars(field),
        !needs_quotes(field),
    ensures
        csv_record(field) == Seq::new(field.len(), |i: int| field[i] as u8).push(10u8),
{
    is_ascii_chars_encode_utf8(field);
    assert(encode_utf8(field) =~= Seq::new(field.len(), |i: int| field[i] as u8));
}

/// Splitting the items in two splits the exported keys the same way.
pub proof fn lemma_keys_of_concat(a: Seq<Item>, b: Seq<Item>, primary_key_name: Seq<char>)
    ensures
        keys_of(a + b, primary_key_name) == keys_of(a, primary_key_name) + keys_of(
            b,
            primary_key_name,
        ),
    decreases b.len(),
{
    let ka = keys_of(a, primary_key_name);
    if b.len() == 0 {
        assert(a + b =~= a);
        assert(ka + keys_of(b, primary_key_name) =~= ka);
    } else {
        lemma_keys_of_concat(a, b.drop_last(), primary_key_name);
        assert((a + b).drop_last() =~= a + b.drop_last());
        assert((a + b).last() == b.last());
        let kb = keys_of(b.drop_last(), primary_key_name);
        match string_value(b.last()@, primary_key_name) {
            Some(v) => {
                assert(ka + kb.push(v) =~= (ka + kb).push(v));
            },
            None => {},
        }
    }
}

/// The CSV text of two runs of fields is the text of the first, then that of
/// the second.
pub proof fn lemma_csv_text_concat(x: Seq<Seq<char>>, y: Seq<Seq<char>>)
    ensures
        csv_text(x + y) == csv_text(x) + csv_text(y),
    decreases y.len(),
{
    if y.len() == 0 {
        assert(x + y =~= x);
        assert(csv_text(x) + csv_text(y) =~= csv_text(x));
    } else {
        lemma_csv_text_concat(x, y.drop_last());
        assert((x + y).drop_last() =~= x + y.drop_last());
        assert((x + y).last() == y.last());
        assert(csv_text(x) + (csv_text(y.drop_last()) + csv_record(y.last())) =~= (csv_text(x)
            + csv_text(y.drop_last())) + csv_record(y.last()));
    }
}

/// Where every item holds a string value under the primary key, the export
/// has exactly one line for each item, in scan order, holding that value.
pub proof fn lemma_one_line_per_keyed_item(items: Seq<Item>, primary_key_name: Seq<char>)
    requires
        forall|i: int| 0 <= i < items.len() ==> #[trigger] string_value(items[i]@, primary_key_name) is Some,
    ensures
        keys_of(items, primary_key_name).len() == items.len(),
        forall|i: int|
            0 <= i < items.len() ==> #[trigger] keys_of(items, primary_key_name)[i] == string_value(
                items[i]@,
                primary_key_name,
            ).unwrap(),
    decreases items.len(),
{
    if items.len() > 0 {
        let rest = items.drop_last();
        assert forall|i: int| 0 <= i < rest.len() implies #[trigger] string_value(rest[i]@, primary_key_name) is Some by {
            assert(rest[i] == items[i]);
        }
        lemma_one_line_per_keyed_item(rest, primary_key_name);
        assert(string_value(items[items.len() - 1]@, primary_key_name) is Some);
        assert forall|i: int|
            0 <= i < items.len() implies #[trigger] keys_of(items, primary_key_name)[i] == string_value(
                items[i]@,
                primary_key_name,
            ).unwrap() by {
            if i < rest.len() {
                assert(rest[i] == items[i]);
            }
        }
    }
}

/// An item without a string value under the primary key contributes no line,
/// wherever it stands among the others.
pub proof fn lemma_unkeyed_item_adds_nothing(
    before: Seq<Item>,
    item: Item,
    after: Seq<Item>,
    primary_key_name: Seq<char>,
)
    requires
        string_value(item@, primary_key_name) is None,
    ensures
        keys_of(before.push(item) + after, primary_key_name) == keys_of(
            before + after,
            primary_key_name,
        ),
        export_text(before.push(item) + after, primary_key_name) == export_text(
            before + after,
            primary_key_name,
        ),
{
    assert(before.push(item).drop_last() =~= before);
    lemma_keys_of_concat(before.push(item), after, primary_key_name);
    lemma_keys_of_concat(before, after, primary_key_name);
}

/// Exporting an unchanged table twice to the same file appends its lines
/// twice: the file gains what one export of the table doubled would give.
pub proof fn lemma_export_twice(items: Seq<Item>, primary_key_name: Seq<char>)
    ensures
        export_text(items, primary_key_name) + export_text(items, primary_key_name) == export_text(
            items + items,
            primary_key_name,
        ),
{
    lemma_keys_of_concat(items, items, primary_key_name);
    let k = keys_of(items, primary_key_name);
    lemma_csv_text_concat(k, k);
}

} // verus!
