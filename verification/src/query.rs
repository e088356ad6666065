//! Retrieval queries: the statement that a set of optional filters selects
//! rows with, and the values bound to it. Filters are joined by logical AND in
//! a fixed order; a filter's value is bound to a placeholder and never becomes
//! part of the statement text.

use vstd::prelude::*;
use vstd::string::StringExecFns;

verus! {

/// The optional filters of one retrieval request.
#[derive(Debug, Clone)]
pub struct Filter {
    /// Lower bound on the stored timestamp.
    pub start_date: Option<String>,
    /// Upper bound on the stored timestamp.
    pub end_date: Option<String>,
    /// Exact signature.
    pub signature: Option<String>,
    /// Exact sender.
    pub sender: Option<String>,
    /// Exact receiver.
    pub receiver: Option<String>,
}

/// The statement that selects every row.
pub open spec fn select_all() -> Seq<char> {
    "SELECT * FROM transactions"@
}

/// The word that introduces a condition: the first one opens the filter, any
/// later one is joined to those before it.
pub open spec fn connective(filtered: bool) -> Seq<char> {
    if filtered {
        " AND"@
    } else {
        " WHERE"@
    }
}

/// Condition that the sender column equals `value`.
pub open spec fn sender_clause(value: Seq<char>) -> Seq<char> {
    " sender=\""@ + value + "\""@
}

/// Condition that the receiver column equals `value`.
pub open spec fn receiver_clause(value: Seq<char>) -> Seq<char> {
    " receiver=\""@ + value + "\""@
}

/// Condition that the signature column equals `value`.
pub open spec fn signature_clause(value: Seq<char>) -> Seq<char> {
    " signature=\""@ + value + "\""@
}

/// Condition that the timestamp column is at least `value`.
pub open spec fn start_date_clause(value: Seq<char>) -> Seq<char> {
    " timestamp>="@ + value
}

/// Condition that the timestamp column is at most `value`.
pub open spec fn end_date_clause(value: Seq<char>) -> Seq<char> {
    " timestamp<="@ + value
}

/// A query under construction: whether a condition has been added, and the text.
pub type Partial = (bool, Seq<char>);

/// The query after one more optional condition.
pub open spec fn with_clause(q: Partial, clause: Option<Seq<char>>) -> Partial {
    match clause {
        Some(c) => (true, q.1 + connective(q.0) + c),
        None => q,
    }
}

impl Filter {
    /// Whether no filter is set.
    pub open spec fn is_empty(self) -> bool {
        self.start_date is None && self.end_date is None && self.signature is None
            && self.sender is None && self.receiver is None
    }

    /// A filter set with nothing set.
    pub fn none() -> (f: Filter)
        ensures
            f.is_empty(),
    {
        Filter { start_date: None, end_date: None, signature: None, sender: None, receiver: None }
    }
}

/// Opens or continues the filter part of `query`.
fn push_connective(flag: &mut bool, query: &mut String)
    ensures
        *final(flag),
        final(query)@ == old(query)@ + connective(*old(flag)),
{
    if !(*flag) {
        query.append(" WHERE");
    } else {
        query.append(" AND");
    }
    *flag = true;
}

/// Adds the sender condition to `query`; `flag` tells whether a condition
/// stands there already, and is set. The value is written into the text as
/// it stands, between double quotes: it is for values the caller vouches for.
pub fn sender_query(flag: &mut bool, query: &mut String, sender: &str)
    ensures
        *final(flag),
        final(query)@ == old(query)@ + connective(*old(flag)) + sender_clause(sender@),
{
    push_connective(flag, query);
    query.append(" sender=\"");
    query.append(sender);
    query.append("\"");
    assert(query@ =~= old(query)@ + connective(*old(flag)) + sender_clause(sender@));
}

/// Adds the receiver condition to `query`; `flag` tells whether a condition
/// stands there already, and is set. The value is written into the text as
/// it stands, between double quotes: it is for values the caller vouches for.
pub fn receiver_query(flag: &mut bool, query: &mut String, receiver: &str)
    ensures
        *final(flag),
        final(query)@ == old(query)@ + connective(*old(flag)) + receiver_clause(receiver@),
{
    push_connective(flag, query);
    query.append(" receiver=\"");
    query.append(receiver);
    query.append("\"");
    assert(query@ =~= old(query)@ + connective(*old(flag)) + receiver_clause(receiver@));
}

/// Adds the signature condition to `query`; `flag` tells whether a condition
/// stands there already, and is set. The value is written into the text as
/// it stands, between double quotes: it is for values the caller vouches for.
pub fn signature_query(flag: &mut bool, query: &mut String, signature: &str)
    ensures
        *final(flag),
        final(query)@ == old(query)@ + connective(*old(flag)) + signature_clause(signature@),
{
    push_connective(flag, query);
    query.append(" signature=\"");
    query.append(signature);
    query.append("\"");
    assert(query@ =~= old(query)@ + connective(*old(flag)) + signature_clause(signature@));
}

/// Adds the lower timestamp bound to `query`; `flag` tells whether a
/// condition stands there already, and is set. The value is written into the
/// text as it stands, unquoted: it is for values the caller vouches for.
pub fn start_date_query(flag: &mut bool, query: &mut String, start_date: &str)
    ensures
        *final(flag),
        final(query)@ == old(query)@ + connective(*old(flag)) + start_date_clause(start_date@),
{
    push_connective(flag, query);
    query.append(" timestamp>=");
    query.append(start_date);
    assert(query@ =~= old(query)@ + connective(*old(flag)) + start_date_clause(start_date@));
}

/// Adds the upper timestamp bound to `query`; `flag` tells whether a
/// condition stands there already, and is set. The value is written into the
/// text as it stands, unquoted: it is for values the caller vouches for.
pub fn end_date_query(flag: &mut bool, query: &mut String, end_date: &str)
    ensures
        *final(flag),
        final(query)@ == old(query)@ + connective(*old(flag)) + end_date_clause(end_date@),
{
    push_connective(flag, query);
    query.append(" timestamp<=");
    query.append(end_date);
    assert(query@ =~= old(query)@ + connective(*old(flag)) + end_date_clause(end_date@));
}

/// The condition with a placeholder, where the filter value is set.
pub open spec fn bound_part(value: Option<String>, clause: Seq<char>) -> Option<Seq<char>> {
    match value {
        Some(_) => Some(clause),
        None => None,
    }
}

/// The value to bind for a filter, where it is set.
pub open spec fn bound_value(value: Option<String>) -> Seq<Seq<char>> {
    match value {
        Some(s) => seq![s@],
        None => Seq::empty(),
    }
}

/// The texts of a list of strings.
pub open spec fn texts(values: Seq<String>) -> Seq<Seq<char>> {
    Seq::new(values.len(), |i: int| values[i]@)
}

impl Filter {
    /// The statement text with a placeholder in place of each filter value;
    /// no filter value is part of the text.
    pub open spec fn prepared_statement(self) -> Seq<char> {
        let q0: Partial = (false, select_all());
        let q1 = with_clause(q0, bound_part(self.start_date, " timestamp>=?"@));
        let q2 = with_clause(q1, bound_part(self.end_date, " timestamp<=?"@));
        let q3 = with_clause(q2, bound_part(self.signature, " signature=?"@));
        let q4 = with_clause(q3, bound_part(self.sender, " sender=?"@));
        let q5 = with_clause(q4, bound_part(self.receiver, " receiver=?"@));
        q5.1
    }

    /// The values to bind to the placeholders, in the order of the placeholders.
    pub open spec fn bound_values(self) -> Seq<Seq<char>> {
        bound_value(self.start_date) + bound_value(self.end_date) + bound_value(self.signature)
            + bound_value(self.sender) + bound_value(self.receiver)
    }
}

impl Filter {
    /// Whether two filter sets have the same filters set, whatever their values.
    pub open spec fn set_like(self, other: Filter) -> bool {
        &&& (self.start_date is Some) == (other.start_date is Some)
        &&& (self.end_date is Some) == (other.end_date is Some)
        &&& (self.signature is Some) == (other.signature is Some)
        &&& (self.sender is Some) == (other.sender is Some)
        &&& (self.receiver is Some) == (other.receiver is Some)
    }
}

/// The statement text depends only on which filters are set, never on their
/// values: two filter sets that are set in the same places have the same text.
pub proof fn statement_ignores_values(a: Filter, b: Filter)
    requires
        a.set_like(b),
    ensures
        a.prepared_statement() == b.prepared_statement(),
{
}

/// A filter set with only the sender set asks for the rows whose sender
/// column equals the bound value: the text is the same for every sender, and
/// the sender is the one bound value.
pub proof fn sender_filter_binds_its_value(filter: Filter)
    requires
        filter.sender is Some,
        filter.start_date is None,
        filter.end_date is None,
        filter.signature is None,
        filter.receiver is None,
    ensures
        filter.prepared_statement() == select_all() + " WHERE"@ + " sender=?"@,
        filter.bound_values() == seq![filter.sender.unwrap()@],
{
    assert(filter.bound_values() =~= seq![filter.sender.unwrap()@]);
}

/// An empty filter set selects every row and binds no value.
pub proof fn empty_filter_selects_all(filter: Filter)
    requires
        filter.is_empty(),
    ensures
        filter.prepared_statement() == select_all(),
        filter.bound_values().len() == 0,
{
}

/// Adds one condition with a placeholder and its value, where the filter is set.
fn bind(
    flag: &mut bool,
    query: &mut String,
    values: &mut Vec<String>,
    clause: &str,
    value: &Option<String>,
)
    ensures
        (*final(flag), final(query)@) == with_clause(
            (*old(flag), old(query)@),
            bound_part(*value, clause@),
        ),
        texts(final(values)@) == texts(old(values)@) + bound_value(*value),
{
    match value {
        Some(v) => {
            push_connective(flag, query);
            query.append(clause);
            values.push(v.clone());
            assert(texts(values@) =~= texts(old(values)@) + seq![v@]);
        },
        None => {
            assert(texts(values@) =~= texts(old(values)@) + Seq::<Seq<char>>::empty());
        },
    }
}

/// The statement with placeholders that retrieves the rows meeting every
/// filter that is set, and the values to bind to it. The filter values reach
/// the store only as bound values, never as statement text.
pub fn transactions(info: &Filter) -> (r: (String, Vec<String>))
    ensures
        r.0@ == info.prepared_statement(),
        texts(r.1@) == info.bound_values(),
        info.is_empty() ==> r.0@ == select_all() && r.1@.len() == 0,
{
    let mut query = String::from_str("SELECT * FROM transactions");
    let mut values: Vec<String> = Vec::new();
    let mut flag = false;
    assert(texts(values@) =~= Seq::<Seq<char>>::empty());
    bind(&mut flag, &mut query, &mut values, " timestamp>=?", &info.start_date);
    bind(&mut flag, &mut query, &mut values, " timestamp<=?", &info.end_date);
    bind(&mut flag, &mut query, &mut values, " signature=?", &info.signature);
    bind(&mut flag, &mut query, &mut values, " sender=?", &info.sender);
    bind(&mut flag, &mut query, &mut values, " receiver=?", &info.receiver);
    assert(texts(values@) =~= info.bound_values());
    assert(info.is_empty() ==> texts(values@).len() == 0);
    (query, values)
}

} // verus!
