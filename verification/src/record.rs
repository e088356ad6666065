//! The store's single table: its statements, the values a transfer is
//! inserted with, and the text a stored row is shown as.

use crate::decimal::{amount_text, decimal_text};
use crate::keys::encoded_key;
use crate::transfer::Transfer;
use vstd::prelude::*;
use vstd::string::StringExecFns;

verus! {

/// A row as read back from the store; a column that is null or of another
/// type than expected is absent.
#[derive(Debug, Clone)]
pub struct StoredRow {
    /// The sender column.
    pub sender: Option<String>,
    /// The receiver column.
    pub receiver: Option<String>,
    /// The amount column.
    pub amount: Option<i64>,
    /// The timestamp column.
    pub timestamp: Option<String>,
    /// The signature column.
    pub signature: Option<String>,
}

/// The statement that creates the table where it does not exist.
pub fn create_table_statement() -> (r: &'static str)
    ensures
        r@ == "CREATE TABLE IF NOT EXISTS transactions (sender text, receiver text, amount bigint, timestamp char(20), signature text)"@,
{
    "CREATE TABLE IF NOT EXISTS transactions (sender text, receiver text, amount bigint, timestamp char(20), signature text)"
}

/// The statement that appends one row, its five values given as parameters.
pub fn insert_statement() -> (r: &'static str)
    ensures
        r@ == "INSERT INTO transactions (sender, receiver, amount, timestamp, signature) VALUES ($1, $2, $3, $4, $5)"@,
{
    "INSERT INTO transactions (sender, receiver, amount, timestamp, signature) VALUES ($1, $2, $3, $4, $5)"
}

/// The five values a transfer is inserted with, in column order.
pub open spec fn parameters_of(transfer: Transfer) -> Seq<Seq<char>> {
    seq![
        encoded_key(transfer.sender@),
        encoded_key(transfer.receiver@),
        decimal_text(transfer.amount as int),
        transfer.timestamp@,
        transfer.signature@,
    ]
}

/// The values to bind when inserting `transfer`: sender and receiver in
/// base58, the amount in decimal, the timestamp and the signature.
pub fn insert_parameters(transfer: &Transfer) -> (values: Vec<String>)
    ensures
        values@.len() == 5,
        forall|i: int| 0 <= i < 5 ==> (#[trigger] values@[i])@ == parameters_of(*transfer)[i],
{
    let mut values: Vec<String> = Vec::new();
    values.push(transfer.sender.to_text());
    values.push(transfer.receiver.to_text());
    values.push(amount_text(transfer.amount));
    values.push(transfer.timestamp.clone());
    values.push(transfer.signature.clone());
    values
}

/// A row's text under construction: whether a column stands in it, and the text.
pub type Shown = (bool, Seq<char>);

/// The text after one more column: where the column is present, its label
/// and value, set off from a column before it by a comma and a space.
pub open spec fn with_field(shown: Shown, label: Seq<char>, value: Option<Seq<char>>) -> Shown {
    match value {
        Some(v) => (
            true,
            shown.1 + (if shown.0 {
                ", "@
            } else {
                Seq::empty()
            }) + label + v,
        ),
        None => shown,
    }
}

/// The view of an optional text.
pub open spec fn text_of(value: Option<String>) -> Option<Seq<char>> {
    match value {
        Some(s) => Some(s@),
        None => None,
    }
}

/// The decimal text of an optional amount.
pub open spec fn amount_of(value: Option<i64>) -> Option<Seq<char>> {
    match value {
        Some(a) => Some(decimal_text(a as int)),
        None => None,
    }
}

impl StoredRow {
    /// The row as shown: in braces, the present columns in table order, each
    /// as label and value, separated by a comma and a space.
    pub open spec fn text(self) -> Seq<char> {
        let s0: Shown = (false, "{"@);
        let s1 = with_field(s0, "sender:"@, text_of(self.sender));
        let s2 = with_field(s1, "receiver:"@, text_of(self.receiver));
        let s3 = with_field(s2, "amount:"@, amount_of(self.amount));
        let s4 = with_field(s3, "timestamp:"@, text_of(self.timestamp));
        let s5 = with_field(s4, "signature:"@, text_of(self.signature));
        s5.1 + "}"@
    }
}

/// Appends one column to the text of a row, where it is present.
fn push_field(any: &mut bool, result: &mut String, label: &str, value: Option<&str>)
    ensures
        (*final(any), final(result)@) == with_field(
            (*old(any), old(result)@),
            label@,
            match value {
                Some(v) => Some(v@),
                None => None,
            },
        ),
{
    match value {
        Some(v) => {
            if *any {
                result.append(", ");
            }
            result.append(label);
            result.append(v);
            *any = true;
            assert(result@ =~= old(result)@ + (if *old(any) {
                ", "@
            } else {
                Seq::empty()
            }) + label@ + v@);
        },
        None => {},
    }
}

/// The optional text as a borrowed slice.
fn borrowed(value: &Option<String>) -> (r: Option<&str>)
    ensures
        match r {
            Some(v) => text_of(*value) == Some(v@),
            None => value is None,
        },
{
    match value {
        Some(s) => Some(s.as_str()),
        None => None,
    }
}

/// The text a stored row is shown as.
pub fn format_row(row: &StoredRow) -> (text: String)
    ensures
        text@ == row.text(),
{
    let mut result = String::from_str("{");
    let mut any = false;
    push_field(&mut any, &mut result, "sender:", borrowed(&row.sender));
    push_field(&mut any, &mut result, "receiver:", borrowed(&row.receiver));
    match row.amount {
        Some(amount) => {
            let digits = amount_text(amount);
            push_field(&mut any, &mut result, "amount:", Some(digits.as_str()));
        },
        None => {},
    }
    push_field(&mut any, &mut result, "timestamp:", borrowed(&row.timestamp));
    push_field(&mut any, &mut result, "signature:", borrowed(&row.signature));
    result.append("}");
    result
}

/// The texts of the rows of a query's answer, in the order they were read.
pub fn format_rows(rows: &Vec<StoredRow>) -> (texts: Vec<String>)
    ensures
        texts@.len() == rows@.len(),
        forall|i: int| 0 <= i < rows@.len() ==> (#[trigger] texts@[i])@ == rows@[i].text(),
{
    let mut texts: Vec<String> = Vec::new();
    let mut i: usize = 0;
    while i < rows.len()
        invariant
            i <= rows.len(),
            texts@.len() == i,
            forall|k: int| 0 <= k < i ==> (#[trigger] texts@[k])@ == rows@[k].text(),
        decreases rows.len() - i,
    {
        texts.push(format_row(&rows[i]));
        i += 1;
    }
    texts
}

} // verus!
