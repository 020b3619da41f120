//! The diagnostic query and what is made of its rows.

use vstd::prelude::*;

use crate::settings::text_of;

verus! {

/// The characters of the diagnostic statement: a query without parameters
/// for the name of the catalog the connection is in.
pub open spec fn diagnostic_query() -> Seq<char> {
    "SELECT * FROM information_schema.information_schema_catalog_name"@
}

/// The diagnostic statement.
pub fn query_text() -> (sql: &'static str)
    ensures
        sql@ == diagnostic_query(),
{
    "SELECT * FROM information_schema.information_schema_catalog_name"
}

/// The step of the diagnostic run that comes next.
#[derive(Clone, Copy, Debug, PartialEq, Eq, Structural)]
pub enum RunStage {
    /// A connection is to be checked out of the pool.
    Checkout,
    /// The statement is to be prepared.
    Prepare,
    /// The prepared statement is to be executed.
    Execute,
}

/// The characters of each text of a list.
pub open spec fn texts(lines: Seq<String>) -> Seq<Seq<char>> {
    Seq::new(lines.len(), |i: int| lines[i]@)
}

/// The rows of a result as mathematical values: for each row its first
/// column as text, or nothing where that column is not text.
pub open spec fn row_texts(rows: Seq<Option<String>>) -> Seq<Option<Seq<char>>> {
    Seq::new(rows.len(), |i: int| text_of(rows[i]))
}

/// The rows that are logged: those before the first row whose column is
/// not text, in order.
pub open spec fn leading_text(rows: Seq<Option<Seq<char>>>) -> Seq<Seq<char>>
    decreases rows.len(),
{
    if rows.len() == 0 {
        Seq::empty()
    } else {
        let before = leading_text(rows.drop_last());
        if before.len() == rows.len() - 1 && rows.last() is Some {
            before.push(rows.last()->0)
        } else {
            before
        }
    }
}

/// The logged rows are a prefix of the result, every one of them is text,
/// and where they are not the whole result, the row after them is not
/// text.
pub proof fn leading_text_is_the_text_prefix(rows: Seq<Option<Seq<char>>>)
    ensures
        leading_text(rows).len() <= rows.len(),
        forall|i: int| 0 <= i < leading_text(rows).len() ==> rows[i] == Some(#[trigger] leading_text(rows)[i]),
        leading_text(rows).len() < rows.len() ==> rows[leading_text(rows).len() as int] is None,
    decreases rows.len(),
{
    if rows.len() > 0 {
        leading_text_is_the_text_prefix(rows.drop_last());
        let before = leading_text(rows.drop_last());
        assert forall|i: int| 0 <= i < before.len() implies rows[i] == Some(#[trigger] before[i]) by {
            assert(rows.drop_last()[i] == rows[i]);
        }
        if before.len() < rows.len() - 1 {
            assert(rows.drop_last()[before.len() as int] == rows[before.len() as int]);
        }
    }
}

/// Where every row is text, all of them are logged.
pub proof fn all_text_is_logged(rows: Seq<Option<Seq<char>>>)
    requires
        forall|i: int| 0 <= i < rows.len() ==> (#[trigger] rows[i]) is Some,
    ensures
        leading_text(rows).len() == rows.len(),
    decreases rows.len(),
{
    if rows.len() > 0 {
        assert forall|i: int| 0 <= i < rows.drop_last().len() implies (#[trigger] rows.drop_last()[i]) is Some by {
            assert(rows.drop_last()[i] == rows[i]);
        }
        all_text_is_logged(rows.drop_last());
    }
}

/// The text of each row up to the first row whose column is not text.
///
/// The result is shorter than `rows` exactly where some row is not text;
/// its length is then the index of the first such row.
pub fn diagnostic_lines(rows: &Vec<Option<String>>) -> (lines: Vec<String>)
    ensures
        texts(lines@) == leading_text(row_texts(rows@)),
{
    let ghost all = row_texts(rows@);
    let mut lines: Vec<String> = Vec::new();
    let mut i: usize = 0;
    proof {
        assert(all.subrange(0, 0) =~= Seq::<Option<Seq<char>>>::empty());
        assert(texts(lines@) =~= Seq::<Seq<char>>::empty());
    }
    while i < rows.len()
        invariant
            0 <= i <= rows.len(),
            all == row_texts(rows@),
            lines@.len() == i,
            texts(lines@) == leading_text(all.subrange(0, i as int)),
        decreases rows.len() - i,
    {
        let ghost head = all.subrange(0, i as int);
        let ghost more = all.subrange(0, i + 1);
        proof {
            assert(more.drop_last() =~= head);
            assert(more.last() == text_of(rows@[i as int]));
        }
        match &rows[i] {
            Some(text) => {
                let ghost before = lines@;
                lines.push(text.clone());
                proof {
                    assert(texts(lines@) =~= texts(before).push(text@));
                }
            },
            None => {
                proof {
                    lemma_stops_at_first_gap(all, i as int);
                }
                return lines;
            },
        }
        i = i + 1;
    }
    proof {
        assert(all.subrange(0, i as int) =~= all);
    }
    lines
}

/// Once a row is not text, later rows add nothing to what is logged.
proof fn lemma_stops_at_first_gap(rows: Seq<Option<Seq<char>>>, gap: int)
    requires
        0 <= gap < rows.len(),
        rows[gap] is None,
        leading_text(rows.subrange(0, gap)).len() == gap,
    ensures
        leading_text(rows) == leading_text(rows.subrange(0, gap)),
    decreases rows.len(),
{
    if gap == rows.len() - 1 {
        assert(rows.drop_last() =~= rows.subrange(0, gap));
    } else {
        assert(rows.drop_last().subrange(0, gap) =~= rows.subrange(0, gap));
        lemma_stops_at_first_gap(rows.drop_last(), gap);
    }
}

} // verus!
