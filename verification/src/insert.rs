//! The binding of `INSERT`: where the rows come from, and into which
//! columns they go.

use crate::error::{BAD_ARGUMENTS, ErrorCode};
use crate::plan_parser::{SelectPlan};
use crate::text::{same_text, trim_end_matches, trim_start, without_leading_white_space, without_trailing};
use vstd::prelude::*;
use vstd::string::*;

verus! {

/// The upper-case form of a text.
pub uninterp spec fn uppercased(s: Seq<char>) -> Seq<char>;

/// The upper-case form of `s`.
///
/// Calls `str::to_uppercase`, which maps each character by the Unicode
/// upper-case mapping. The result depends on the text alone; the contract
/// gives it a name.
#[verifier::external_body]
pub(crate) fn to_uppercase(s: &str) -> (r: String)
    ensures
        r@ == uppercased(s@),
{
    s.to_uppercase()
}

/// The source of the rows, as the statement gives it.
#[derive(Debug, PartialEq, Eq)]
pub enum InsertSource {
    /// Rows that follow the statement, in the named format.
    Streaming { format: String, rest_str: String, start: usize },
    /// Rows that follow the statement, in a format given by settings.
    StreamingV2 { start: usize },
    /// Rows written out as values.
    Values { rest_str: String },
    /// Rows that a query delivers.
    Select,
}

/// The source of the rows, as the plan takes it.
#[derive(Debug, PartialEq, Eq)]
pub enum InsertInputSource {
    /// The text of the values.
    Values(String),
    /// Rows streamed in a named format, from offset `start`.
    StreamingWithFormat(String, usize),
    /// Rows streamed in a format given by settings, from offset `start`.
    StreamingWithFileFormat(usize),
    /// Values that go with a stage attachment.
    Stage { values_str: String },
    /// The plan of a query.
    SelectPlan,
}

/// The text of the values: what follows the statement, without the
/// semicolons at its end and the white space at its start.
pub open spec fn values_text(rest: Seq<char>) -> Seq<char> {
    without_leading_white_space(without_trailing(rest, ';'))
}

/// The text of the values that follow the statement.
pub fn values_of(rest_str: &str) -> (data: String)
    ensures
        data@ == values_text(rest_str@),
{
    String::from_str(trim_start(trim_end_matches(rest_str, ';')))
}

/// Whether the upper-case form of a format name is `VALUES`.
pub open spec fn is_values_format(upper: Seq<char>) -> bool {
    upper == "VALUES"@
}

/// The source of a streaming insert, given the upper-case form of the
/// name of its format: the text of the values for the format `VALUES`, the
/// stream in its format for any other.
pub fn streaming_source(upper: &str, format: &String, rest_str: &str, start: usize) -> (r:
    InsertInputSource)
    ensures
        is_values_format(upper@) ==> r is Values && r->Values_0@ == values_text(rest_str@),
        !is_values_format(upper@) ==> r is StreamingWithFormat && r->StreamingWithFormat_0@
            == format@ && r->StreamingWithFormat_1 == start,
{
    if same_text(upper, "VALUES") {
        InsertInputSource::Values(values_of(rest_str))
    } else {
        InsertInputSource::StreamingWithFormat(format.clone(), start)
    }
}

/// Decides where the rows of an insert come from. Values that come with
/// a stage attachment go to the stage.
pub fn bind_insert(source: &InsertSource, has_stage_attachment: bool) -> (r: InsertInputSource)
    ensures
        match *source {
            InsertSource::Streaming { format, rest_str, start } => if is_values_format(
                uppercased(format@),
            ) {
                r is Values && r->Values_0@ == values_text(rest_str@)
            } else {
                r is StreamingWithFormat && r->StreamingWithFormat_0@ == format@
                    && r->StreamingWithFormat_1 == start
            },
            InsertSource::StreamingV2 { start } => r == InsertInputSource::StreamingWithFileFormat(
                start,
            ),
            InsertSource::Values { rest_str } => if has_stage_attachment {
                r is Stage && r->Stage_values_str@ == values_text(rest_str@)
            } else {
                r is Values && r->Values_0@ == values_text(rest_str@)
            },
            InsertSource::Select => r == InsertInputSource::SelectPlan,
        },
{
    match source {
        InsertSource::Streaming { format, rest_str, start } => {
            let upper = to_uppercase(format.as_str());
            streaming_source(upper.as_str(), format, rest_str.as_str(), *start)
        },
        InsertSource::StreamingV2 { start } => InsertInputSource::StreamingWithFileFormat(*start),
        InsertSource::Values { rest_str } => {
            let values_str = values_of(rest_str.as_str());
            if has_stage_attachment {
                InsertInputSource::Stage { values_str }
            } else {
                InsertInputSource::Values(values_str)
            }
        },
        InsertSource::Select => InsertInputSource::SelectPlan,
    }
}

/// The texts of a vector of names.
pub open spec fn names(v: Seq<String>) -> Seq<Seq<char>> {
    Seq::new(v.len(), |i: int| v[i]@)
}

/// The position of the first of the first `n` fields with the name.
pub open spec fn field_position(fields: Seq<Seq<char>>, name: Seq<char>, n: nat) -> Option<nat>
    decreases n,
{
    if n == 0 {
        None
    } else {
        match field_position(fields, name, (n - 1) as nat) {
            Some(i) => Some(i),
            None => if fields[n - 1] == name {
                Some((n - 1) as nat)
            } else {
                None
            },
        }
    }
}

/// The first field with a name among the first `n` is the first among any
/// longer prefix.
pub proof fn field_position_stays(fields: Seq<Seq<char>>, name: Seq<char>, n: nat, m: nat)
    requires
        n <= m,
        field_position(fields, name, n) is Some,
    ensures
        field_position(fields, name, m) == field_position(fields, name, n),
    decreases m,
{
    if n < m {
        field_position_stays(fields, name, n, (m - 1) as nat);
    }
}

/// The position in `fields` of the field called `name`.
pub fn field_with_name(fields: &Vec<String>, name: &String) -> (r: Option<usize>)
    ensures
        match field_position(names(fields@), name@, fields.len() as nat) {
            Some(i) => r == Some(i as usize) && i < fields.len(),
            None => r is None,
        },
{
    let ghost all = names(fields@);
    let mut i: usize = 0;
    while i < fields.len()
        invariant
            i <= fields.len(),
            all == names(fields@),
            field_position(all, name@, i as nat) is None,
        decreases fields.len() - i,
    {
        assert(all[i as int] == fields[i as int]@);
        if fields[i] == *name {
            proof {
                field_position_stays(all, name@, (i + 1) as nat, fields.len() as nat);
            }
            return Some(i);
        }
        i = i + 1;
    }
    None
}

/// The fields of the table into which an insert writes: all of them, in
/// the table's order, where the statement names none; else the named ones,
/// in the statement's order. Fails where the table has no field of a name.
pub fn insert_fields(fields: &Vec<String>, columns: &Vec<String>) -> (r: Result<
    Vec<usize>,
    ErrorCode,
>)
    ensures
        columns.len() == 0 ==> r is Ok && r->Ok_0@ == Seq::new(
            fields.len() as nat,
            |i: int| i as usize,
        ),
        columns.len() > 0 ==> {
            if forall|k: int|
                0 <= k < columns.len() ==> field_position(
                    names(fields@),
                    #[trigger] columns[k]@,
                    fields.len() as nat,
                ) is Some {
                &&& r is Ok
                &&& r->Ok_0.len() == columns.len()
                &&& forall|k: int|
                    0 <= k < columns.len() ==> Some((#[trigger] r->Ok_0[k]) as nat)
                        == field_position(names(fields@), columns[k]@, fields.len() as nat)
            } else {
                r is Err && r->Err_0.code == BAD_ARGUMENTS && r->Err_0.message@
                    == "Unable to get field of that name"@
            }
        },
{
    let mut out: Vec<usize> = Vec::new();
    if columns.len() == 0 {
        let mut i: usize = 0;
        while i < fields.len()
            invariant
                i <= fields.len(),
                out@ == Seq::new(i as nat, |k: int| k as usize),
            decreases fields.len() - i,
        {
            out.push(i);
            assert(out@ =~= Seq::new((i + 1) as nat, |k: int| k as usize));
            i = i + 1;
        }
        return Ok(out);
    }
    let mut k: usize = 0;
    while k < columns.len()
        invariant
            k <= columns.len(),
            out.len() == k,
            forall|j: int|
                0 <= j < k ==> Some((#[trigger] out[j]) as nat) == field_position(
                    names(fields@),
                    columns[j]@,
                    fields.len() as nat,
                ),
        decreases columns.len() - k,
    {
        match field_with_name(fields, &columns[k]) {
            Some(i) => {
                out.push(i);
            },
            None => {
                assert(field_position(names(fields@), columns[k as int]@, fields.len() as nat)
                    is None);
                return Err(ErrorCode::create(BAD_ARGUMENTS, "Unable to get field of that name"));
            },
        }
        k = k + 1;
    }
    proof {
        assert forall|j: int| 0 <= j < columns.len() implies field_position(
            names(fields@),
            #[trigger] columns[j]@,
            fields.len() as nat,
        ) is Some by {
            assert(Some(out[j] as nat) == field_position(
                names(fields@),
                columns[j]@,
                fields.len() as nat,
            ));
        }
    }
    Ok(out)
}

} // verus!
