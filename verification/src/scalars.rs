//! Scalar functions on booleans, addresses and columns of numbers, each
//! as a function on plain values.

use crate::error::{BAD_ARGUMENTS, ErrorCode};
use crate::text::{all_digits, decimal, digit_of, digits_value, eq_ignore_ascii_case, find_char_from, i64_to_string, is_digit, position_of, push_decimal, same_ignoring_ascii_case, signed_decimal, text_bounds};
use vstd::prelude::*;
use vstd::string::*;

verus! {

/// The logic operators.
#[derive(Clone, Copy, Debug, PartialEq, Eq, Structural)]
pub enum LogicOperator {
    And,
    Or,
    Not,
}

/// A logic function over columns of booleans.
#[derive(Clone, Copy, Debug, PartialEq, Eq, Structural)]
pub struct LogicFunction {
    pub op: LogicOperator,
}

/// The value of a logic operator on one row. `Not` reads its first
/// operand only.
pub open spec fn logic_value(op: LogicOperator, a: bool, b: bool) -> bool {
    match op {
        LogicOperator::And => a && b,
        LogicOperator::Or => a || b,
        LogicOperator::Not => !a,
    }
}

/// The number of columns that a logic operator takes.
pub open spec fn logic_arity(op: LogicOperator) -> nat {
    match op {
        LogicOperator::Not => 1,
        _ => 2,
    }
}

impl LogicFunction {
    /// The names under which the logic functions are registered, each
    /// with its operator.
    pub fn register() -> (r: Vec<(&'static str, LogicOperator)>)
        ensures
            r.len() == 3,
            r[0].0@ == "and"@ && r[0].1 == LogicOperator::And,
            r[1].0@ == "or"@ && r[1].1 == LogicOperator::Or,
            r[2].0@ == "not"@ && r[2].1 == LogicOperator::Not,
    {
        let mut r: Vec<(&'static str, LogicOperator)> = Vec::new();
        r.push(("and", LogicOperator::And));
        r.push(("or", LogicOperator::Or));
        r.push(("not", LogicOperator::Not));
        r
    }

    /// The logic function of an operator.
    pub fn try_create_func(op: LogicOperator) -> (f: LogicFunction)
        ensures
            f.op == op,
    {
        LogicFunction { op }
    }

    /// The name of the function.
    pub fn name(&self) -> (s: &'static str)
        ensures
            s@ == "LogicFunction"@,
    {
        "LogicFunction"
    }

    /// Whether the result can be absent: never.
    pub fn nullable(&self) -> (b: bool)
        ensures
            !b,
    {
        false
    }

    /// The display text of the function: its operator.
    pub fn to_string(&self) -> (s: &'static str)
        ensures
            s@ == (match self.op {
                LogicOperator::And => "and"@,
                LogicOperator::Or => "or"@,
                LogicOperator::Not => "not"@,
            }),
    {
        match self.op {
            LogicOperator::And => "and",
            LogicOperator::Or => "or",
            LogicOperator::Not => "not",
        }
    }

    /// Applies the function row by row. Each column must have
    /// `input_rows` rows, and there must be as many columns as the operator
    /// takes; anything else is an error of the arguments.
    pub fn eval(&self, columns: &Vec<Vec<bool>>, input_rows: usize) -> (r: Result<
        Vec<bool>,
        ErrorCode,
    >)
        ensures
            ({
                let fits = columns.len() == logic_arity(self.op) && forall|c: int|
                    0 <= c < columns.len() ==> (#[trigger] columns[c]).len() == input_rows;
                &&& fits ==> r is Ok && r->Ok_0.len() == input_rows && forall|i: int|
                    0 <= i < input_rows ==> (#[trigger] r->Ok_0[i]) == logic_value(
                        self.op,
                        columns[0][i],
                        columns[columns.len() - 1][i],
                    )
                &&& !fits ==> r is Err && r->Err_0.code == BAD_ARGUMENTS && r->Err_0.message@ == (
                if columns.len() != logic_arity(self.op) {
                    "Wrong number of columns"@
                } else {
                    "Wrong number of rows"@
                })
            }),
    {
        let arity: usize = match self.op {
            LogicOperator::Not => 1,
            _ => 2,
        };
        if columns.len() != arity {
            return Err(ErrorCode::create(BAD_ARGUMENTS, "Wrong number of columns"));
        }
        let mut c: usize = 0;
        while c < columns.len()
            invariant
                c <= columns.len(),
                columns.len() == logic_arity(self.op),
                forall|k: int| 0 <= k < c ==> (#[trigger] columns[k]).len() == input_rows,
            decreases columns.len() - c,
        {
            if columns[c].len() != input_rows {
                return Err(ErrorCode::create(BAD_ARGUMENTS, "Wrong number of rows"));
            }
            c = c + 1;
        }
        let last = columns.len() - 1;
        let mut out: Vec<bool> = Vec::new();
        let mut i: usize = 0;
        while i < input_rows
            invariant
                i <= input_rows,
                out.len() == i,
                last == columns.len() - 1,
                columns.len() == logic_arity(self.op),
                forall|k: int| 0 <= k < columns.len() ==> (#[trigger] columns[k]).len() == input_rows,
                forall|k: int|
                    0 <= k < i ==> (#[trigger] out[k]) == logic_value(
                        self.op,
                        columns[0][k],
                        columns[last as int][k],
                    ),
            decreases input_rows - i,
        {
            assert(columns[0].len() == input_rows);
            assert(columns[last as int].len() == input_rows);
            let a = columns[0][i];
            let b = columns[last][i];
            let v = match self.op {
                LogicOperator::And => a && b,
                LogicOperator::Or => a || b,
                LogicOperator::Not => !a,
            };
            out.push(v);
            i = i + 1;
        }
        Ok(out)
    }
}

/// Which truth values a column may hold.
#[derive(Clone, Copy, Debug, PartialEq, Eq, Structural)]
pub struct BooleanDomain {
    pub has_false: bool,
    pub has_true: bool,
}

/// Whether the truth value lies in the domain.
pub open spec fn in_domain(d: BooleanDomain, v: bool) -> bool {
    if v {
        d.has_true
    } else {
        d.has_false
    }
}

/// The domain of the negation of a column.
pub fn not_domain(arg: BooleanDomain) -> (d: BooleanDomain)
    ensures
        d == (BooleanDomain { has_false: arg.has_true, has_true: arg.has_false }),
        forall|v: bool| in_domain(arg, v) ==> in_domain(d, !v),
{
    BooleanDomain { has_false: arg.has_true, has_true: arg.has_false }
}

/// The domain of the conjunction of two columns.
pub fn and_domain(lhs: BooleanDomain, rhs: BooleanDomain) -> (d: BooleanDomain)
    ensures
        d == (BooleanDomain {
            has_false: lhs.has_false || rhs.has_false,
            has_true: lhs.has_true && rhs.has_true,
        }),
        forall|a: bool, b: bool| in_domain(lhs, a) && in_domain(rhs, b) ==> in_domain(d, a && b),
{
    BooleanDomain {
        has_false: lhs.has_false || rhs.has_false,
        has_true: lhs.has_true && rhs.has_true,
    }
}

/// The domain of the disjunction of two columns.
pub fn or_domain(lhs: BooleanDomain, rhs: BooleanDomain) -> (d: BooleanDomain)
    ensures
        d == (BooleanDomain {
            has_false: lhs.has_false && rhs.has_false,
            has_true: lhs.has_true || rhs.has_true,
        }),
        forall|a: bool, b: bool| in_domain(lhs, a) && in_domain(rhs, b) ==> in_domain(d, a || b),
{
    BooleanDomain {
        has_false: lhs.has_false && rhs.has_false,
        has_true: lhs.has_true || rhs.has_true,
    }
}

/// The conjunction of two truth values that may be unknown: false if
/// either is false, true if both are true, unknown else.
pub open spec fn and3(a: Option<bool>, b: Option<bool>) -> Option<bool> {
    if a == Some(false) || b == Some(false) {
        Some(false)
    } else if a == Some(true) && b == Some(true) {
        Some(true)
    } else {
        None
    }
}

/// The disjunction of two truth values that may be unknown: true if
/// either is true, false if both are false, unknown else.
pub open spec fn or3(a: Option<bool>, b: Option<bool>) -> Option<bool> {
    if a == Some(true) || b == Some(true) {
        Some(true)
    } else if a == Some(false) && b == Some(false) {
        Some(false)
    } else {
        None
    }
}

/// The conjunction of two truth values that may be unknown.
pub fn and_nullable(a: Option<bool>, b: Option<bool>) -> (r: Option<bool>)
    ensures
        r == and3(a, b),
{
    match (a, b) {
        (Some(false), _) => Some(false),
        (_, Some(false)) => Some(false),
        (Some(true), Some(true)) => Some(true),
        _ => None,
    }
}

/// The disjunction of two truth values that may be unknown.
pub fn or_nullable(a: Option<bool>, b: Option<bool>) -> (r: Option<bool>)
    ensures
        r == or3(a, b),
{
    match (a, b) {
        (Some(true), _) => Some(true),
        (_, Some(true)) => Some(true),
        (Some(false), Some(false)) => Some(false),
        _ => None,
    }
}

/// Which truth values a column that may hold unknowns may hold.
#[derive(Clone, Copy, Debug, PartialEq, Eq, Structural)]
pub struct NullableBooleanDomain {
    pub has_null: bool,
    pub value: Option<BooleanDomain>,
}

/// Whether the value lies in the domain.
pub open spec fn in_nullable_domain(d: NullableBooleanDomain, v: Option<bool>) -> bool {
    match v {
        None => d.has_null,
        Some(b) => d.value is Some && in_domain(d.value->Some_0, b),
    }
}

/// Whether a column with this domain may hold true.
pub open spec fn may_be_true(d: NullableBooleanDomain) -> bool {
    d.value is Some && d.value->Some_0.has_true
}

/// Whether a column with this domain may hold false.
pub open spec fn may_be_false(d: NullableBooleanDomain) -> bool {
    d.value is Some && d.value->Some_0.has_false
}

/// The domain that may hold the unknown, true and false as stated; it has
/// no domain of truth values where it may hold neither true nor false.
pub open spec fn nullable_domain(has_null: bool, has_true: bool, has_false: bool) -> NullableBooleanDomain {
    NullableBooleanDomain {
        has_null,
        value: if has_true || has_false {
            Some(BooleanDomain { has_false, has_true })
        } else {
            None
        },
    }
}

/// The domain of a conjunction over columns that may hold unknowns.
pub open spec fn conjunction_domain(lhs: NullableBooleanDomain, rhs: NullableBooleanDomain) -> NullableBooleanDomain {
    if (!lhs.has_null && !may_be_true(lhs)) || (!rhs.has_null && !may_be_true(rhs)) {
        nullable_domain(false, false, true)
    } else {
        nullable_domain(
            lhs.has_null || rhs.has_null,
            may_be_true(lhs) && may_be_true(rhs),
            may_be_false(lhs) || may_be_false(rhs),
        )
    }
}

/// The domain of a disjunction over columns that may hold unknowns.
pub open spec fn disjunction_domain(lhs: NullableBooleanDomain, rhs: NullableBooleanDomain) -> NullableBooleanDomain {
    if (!lhs.has_null && !may_be_false(lhs)) || (!rhs.has_null && !may_be_false(rhs)) {
        nullable_domain(false, true, false)
    } else {
        nullable_domain(
            lhs.has_null || rhs.has_null,
            may_be_true(lhs) || may_be_true(rhs),
            may_be_false(lhs) && may_be_false(rhs),
        )
    }
}

/// The domain of the conjunction of two columns that may hold unknowns.
///
/// Where one side can be neither unknown nor true, the result is always
/// false. Else the result may be unknown if either side may, true if both
/// sides may, and false if either side may.
pub fn and_nullable_domain(lhs: NullableBooleanDomain, rhs: NullableBooleanDomain) -> (d:
    NullableBooleanDomain)
    ensures
        d == conjunction_domain(lhs, rhs),
        forall|a: Option<bool>, b: Option<bool>|
            in_nullable_domain(lhs, a) && in_nullable_domain(rhs, b) ==> in_nullable_domain(
                d,
                and3(a, b),
            ),
{
    let lhs_has_true = match lhs.value {
        Some(v) => v.has_true,
        None => false,
    };
    let lhs_has_false = match lhs.value {
        Some(v) => v.has_false,
        None => false,
    };
    let rhs_has_true = match rhs.value {
        Some(v) => v.has_true,
        None => false,
    };
    let rhs_has_false = match rhs.value {
        Some(v) => v.has_false,
        None => false,
    };
    let (has_null, has_true, has_false) = if (!lhs.has_null && !lhs_has_true) || (!rhs.has_null
        && !rhs_has_true) {
        (false, false, true)
    } else {
        (lhs.has_null || rhs.has_null, lhs_has_true && rhs_has_true, lhs_has_false || rhs_has_false)
    };
    let value = if has_true || has_false {
        Some(BooleanDomain { has_true, has_false })
    } else {
        None
    };
    NullableBooleanDomain { has_null, value }
}

/// The domain of the disjunction of two columns that may hold unknowns.
///
/// Where one side can be neither unknown nor false, the result is always
/// true. Else the result may be unknown if either side may, true if either
/// side may, and false if both sides may.
pub fn or_nullable_domain(lhs: NullableBooleanDomain, rhs: NullableBooleanDomain) -> (d:
    NullableBooleanDomain)
    ensures
        d == disjunction_domain(lhs, rhs),
        forall|a: Option<bool>, b: Option<bool>|
            in_nullable_domain(lhs, a) && in_nullable_domain(rhs, b) ==> in_nullable_domain(
                d,
                or3(a, b),
            ),
{
    let lhs_has_true = match lhs.value {
        Some(v) => v.has_true,
        None => false,
    };
    let lhs_has_false = match lhs.value {
        Some(v) => v.has_false,
        None => false,
    };
    let rhs_has_true = match rhs.value {
        Some(v) => v.has_true,
        None => false,
    };
    let rhs_has_false = match rhs.value {
        Some(v) => v.has_false,
        None => false,
    };
    let (has_null, has_true, has_false) = if (!lhs.has_null && !lhs_has_false) || (!rhs.has_null
        && !rhs_has_false) {
        (false, true, false)
    } else {
        (lhs.has_null || rhs.has_null, lhs_has_true || rhs_has_true, lhs_has_false && rhs_has_false)
    };
    let value = if has_true || has_false {
        Some(BooleanDomain { has_true, has_false })
    } else {
        None
    };
    NullableBooleanDomain { has_null, value }
}

/// The domain of the exclusive disjunction of two columns.
pub fn xor_domain(lhs: BooleanDomain, rhs: BooleanDomain) -> (d: BooleanDomain)
    ensures
        d == (BooleanDomain {
            has_false: (lhs.has_false && rhs.has_false) || (lhs.has_true && rhs.has_true),
            has_true: (lhs.has_false && rhs.has_true) || (lhs.has_true && rhs.has_false),
        }),
        forall|a: bool, b: bool| in_domain(lhs, a) && in_domain(rhs, b) ==> in_domain(d, a != b),
        forall|v: bool|
            in_domain(d, v) ==> exists|a: bool, b: bool|
                in_domain(lhs, a) && in_domain(rhs, b) && v == (a != b),
{
    let d = BooleanDomain {
        has_false: (lhs.has_false && rhs.has_false) || (lhs.has_true && rhs.has_true),
        has_true: (lhs.has_false && rhs.has_true) || (lhs.has_true && rhs.has_false),
    };
    proof {
        assert forall|v: bool| in_domain(d, v) implies exists|a: bool, b: bool|
            in_domain(lhs, a) && in_domain(rhs, b) && v == (a != b) by {
            if v {
                if lhs.has_false && rhs.has_true {
                    assert(in_domain(lhs, false) && in_domain(rhs, true) && v == (false != true));
                } else {
                    assert(in_domain(lhs, true) && in_domain(rhs, false) && v == (true != false));
                }
            } else {
                if lhs.has_false && rhs.has_false {
                    assert(in_domain(lhs, false) && in_domain(rhs, false) && v == (false != false));
                } else {
                    assert(in_domain(lhs, true) && in_domain(rhs, true) && v == (true != true));
                }
            }
        }
    }
    d
}

/// The exclusive disjunction of two truth values.
pub fn xor(lhs: bool, rhs: bool) -> (r: bool)
    ensures
        r == (lhs != rhs),
{
    match (lhs, rhs) {
        (true, other) => !other,
        (false, other) => other,
    }
}

/// Whether a truth value that may be unknown is true.
pub fn is_true(val: Option<bool>) -> (r: bool)
    ensures
        r == (val == Some(true)),
{
    match val {
        None => false,
        Some(scalar) => scalar,
    }
}

/// The domain of `is_true` over a column that may hold unknowns: false
/// where the column may be unknown or false, true where it may be true.
pub fn is_true_domain(domain: NullableBooleanDomain) -> (d: BooleanDomain)
    ensures
        d == (BooleanDomain {
            has_false: domain.has_null || may_be_false(domain),
            has_true: may_be_true(domain),
        }),
        forall|v: Option<bool>| in_nullable_domain(domain, v) ==> in_domain(d, v == Some(true)),
{
    let has_false = domain.has_null || match domain.value {
        Some(v) => v.has_false,
        None => false,
    };
    let has_true = match domain.value {
        Some(v) => v.has_true,
        None => false,
    };
    BooleanDomain { has_false, has_true }
}

/// The truth value of an integer: true unless it is zero.
pub open spec fn truth_of(val: i64) -> bool {
    val != 0
}

/// The truth value of an integer.
pub fn number_to_boolean(val: i64) -> (r: bool)
    ensures
        r == truth_of(val),
{
    val != 0
}

/// The domain of the truth values of the integers from `min` to `max`.
pub fn number_to_boolean_domain(min: i64, max: i64) -> (d: BooleanDomain)
    ensures
        d == (BooleanDomain { has_false: min <= 0 && max >= 0, has_true: !(min == 0 && max == 0) }),
        forall|v: i64| min <= v <= max ==> in_domain(d, #[trigger] truth_of(v)),
{
    BooleanDomain { has_false: min <= 0 && max >= 0, has_true: !(min == 0 && max == 0) }
}

/// The integer of a truth value: one for true, zero for false.
pub fn boolean_to_number(val: bool) -> (r: u8)
    ensures
        r == (if val { 1u8 } else { 0u8 }),
{
    if val {
        1
    } else {
        0
    }
}

/// The least and the greatest integer of the truth values of a domain.
pub fn boolean_to_number_domain(domain: BooleanDomain) -> (r: (u8, u8))
    ensures
        r.0 == (if domain.has_false { 0u8 } else { 1u8 }),
        r.1 == (if domain.has_true { 1u8 } else { 0u8 }),
        forall|v: bool| in_domain(domain, v) ==> r.0 <= (if v { 1u8 } else { 0u8 }) <= r.1,
{
    (if domain.has_false { 0 } else { 1 }, if domain.has_true { 1 } else { 0 })
}

/// The text of a truth value.
pub fn eval_boolean_to_string(val: bool) -> (s: &'static str)
    ensures
        s@ == if val {
            "true"@
        } else {
            "false"@
        },
{
    if val {
        "true"
    } else {
        "false"
    }
}

/// The truth value that a text writes: `true` or `false`, in any case.
/// Any other text is an error of the arguments.
pub fn eval_string_to_boolean(val: &str) -> (r: Result<bool, ErrorCode>)
    ensures
        same_ignoring_ascii_case(val@, "true"@) ==> r == Ok::<bool, ErrorCode>(true),
        !same_ignoring_ascii_case(val@, "true"@) && same_ignoring_ascii_case(val@, "false"@) ==> r
            == Ok::<bool, ErrorCode>(false),
        !same_ignoring_ascii_case(val@, "true"@) && !same_ignoring_ascii_case(val@, "false"@)
            ==> r is Err && r->Err_0.code == BAD_ARGUMENTS && r->Err_0.message@
            == "cannot parse to type `BOOLEAN`"@,
{
    if eq_ignore_ascii_case(val, "true") {
        Ok(true)
    } else if eq_ignore_ascii_case(val, "false") {
        Ok(false)
    } else {
        Err(ErrorCode::create(BAD_ARGUMENTS, "cannot parse to type `BOOLEAN`"))
    }
}

/// The number as a 32-bit unsigned number, where it is one.
///
/// Calls `num_traits::cast::cast` from `i64` to `u32`, which gives the
/// number in the target type if it can be represented there, and `None` if
/// not. The contract states that.
#[verifier::external_body]
pub(crate) fn cast_to_u32(val: i64) -> (r: Option<u32>)
    ensures
        0 <= val <= u32::MAX ==> r == Some(val as u32),
        !(0 <= val <= u32::MAX) ==> r is None,
{
    num_traits::cast::cast::<i64, u32>(val)
}

/// The dotted text of an address: its four bytes as decimal numerals,
/// the highest first, with dots between them.
pub open spec fn dotted(address: u32) -> Seq<char> {
    decimal((address / 0x100_0000) as nat) + "."@ + decimal((address / 0x1_0000 % 0x100) as nat)
        + "."@ + decimal((address / 0x100 % 0x100) as nat) + "."@ + decimal(
        (address % 0x100) as nat,
    )
}

/// The message for a number that is no address.
pub open spec fn not_an_address_message(val: i64) -> Seq<char> {
    "Failed to parse '"@ + signed_decimal(val as int) + "' into a IPV4 address"@
}

/// The dotted text of the address `address`.
pub fn address_to_string(address: u32) -> (s: String)
    ensures
        s@ == dotted(address),
{
    let mut s = String::new();
    push_decimal(&mut s, (address / 0x100_0000) as u64);
    s.append(".");
    push_decimal(&mut s, (address / 0x1_0000 % 0x100) as u64);
    s.append(".");
    push_decimal(&mut s, (address / 0x100 % 0x100) as u64);
    s.append(".");
    push_decimal(&mut s, (address % 0x100) as u64);
    assert(s@ =~= dotted(address));
    s
}

/// The dotted text of the address that a number stands for. A number
/// that does not fit 32 bits is an error of the arguments.
pub fn inet_ntoa(val: i64) -> (r: Result<String, ErrorCode>)
    ensures
        0 <= val <= u32::MAX ==> r is Ok && r->Ok_0@ == dotted(val as u32),
        !(0 <= val <= u32::MAX) ==> r is Err && r->Err_0.code == BAD_ARGUMENTS
            && r->Err_0.message@ == not_an_address_message(val),
{
    match cast_to_u32(val) {
        Some(address) => Ok(address_to_string(address)),
        None => {
            let mut message = String::from_str("Failed to parse '");
            message.append(i64_to_string(val).as_str());
            message.append("' into a IPV4 address");
            Err(ErrorCode::create(BAD_ARGUMENTS, message.as_str()))
        },
    }
}

/// The byte that a text writes: one to three digits, without a leading
/// zero unless the text is `0`, and at most 255.
pub open spec fn parsed_byte(s: Seq<char>) -> Option<u8> {
    if 1 <= s.len() <= 3 && all_digits(s) && (s.len() == 1 || s[0] != '0') && digits_value(s)
        <= 255 {
        Some(digits_value(s) as u8)
    } else {
        None
    }
}

/// Reads a byte of an address from characters `from` to `to` of `s`.
pub fn parse_byte(s: &str, from: usize, to: usize) -> (r: Option<u8>)
    requires
        from <= to <= s@.len(),
    ensures
        r == parsed_byte(s@.subrange(from as int, to as int)),
{
    let ghost part = s@.subrange(from as int, to as int);
    if to - from < 1 || to - from > 3 {
        return None;
    }
    let mut acc: u32 = 0;
    let mut i: usize = from;
    proof {
        assert(part.take(0) =~= Seq::empty());
    }
    while i < to
        invariant
            from <= i <= to,
            to <= s@.len(),
            to - from <= 3,
            part == s@.subrange(from as int, to as int),
            acc == digits_value(part.take(i - from)),
            acc < 1000,
            forall|k: int| 0 <= k < i - from ==> is_digit(#[trigger] part[k]),
        decreases to - i,
    {
        let c = s.get_char(i);
        assert(part[i - from] == c);
        let d = match digit_of(c) {
            Some(d) => d,
            None => {
                assert(!is_digit(part[i - from]));
                return None;
            },
        };
        proof {
            assert(part.take(i - from + 1).drop_last() =~= part.take(i - from));
            assert(part.take(i - from + 1).last() == c);
            digits_bound(part.take(i - from + 1));
        }
        acc = acc * 10 + d as u32;
        i = i + 1;
    }
    proof {
        assert(part.take(to - from) =~= part);
    }
    if to - from > 1 && s.get_char(from) == '0' {
        assert(part[0] == '0');
        return None;
    }
    if to - from > 1 {
        assert(part[0] == s@[from as int]);
    }
    if acc > 255 {
        return None;
    }
    Some(acc as u8)
}

/// A run of `n` characters writes a number below ten to the `n`.
pub proof fn digits_bound(s: Seq<char>)
    ensures
        s.len() <= 1 ==> digits_value(s) < 10,
        s.len() <= 2 ==> digits_value(s) < 100,
        s.len() <= 3 ==> digits_value(s) < 1000,
    decreases s.len(),
{
    if s.len() > 0 {
        digits_bound(s.drop_last());
    }
}

/// The address that four bytes make, the first the highest.
pub open spec fn address_of(a: u8, b: u8, c: u8, d: u8) -> u32 {
    (a as u32 * 0x100_0000 + b as u32 * 0x1_0000 + c as u32 * 0x100 + d as u32) as u32
}

/// The address that a dotted text writes: four bytes with a dot between
/// each two, and nothing else. `None` for any other text.
pub open spec fn parsed_address(s: Seq<char>) -> Option<u32> {
    let p1 = position_of(s, '.');
    let r1 = s.subrange(if p1 < s.len() {
        p1 + 1
    } else {
        s.len() as int
    }, s.len() as int);
    let p2 = position_of(r1, '.');
    let r2 = r1.subrange(if p2 < r1.len() {
        p2 + 1
    } else {
        r1.len() as int
    }, r1.len() as int);
    let p3 = position_of(r2, '.');
    let r3 = r2.subrange(if p3 < r2.len() {
        p3 + 1
    } else {
        r2.len() as int
    }, r2.len() as int);
    if p1 < s.len() && p2 < r1.len() && p3 < r2.len() {
        match (
            parsed_byte(s.subrange(0, p1)),
            parsed_byte(r1.subrange(0, p2)),
            parsed_byte(r2.subrange(0, p3)),
            parsed_byte(r3),
        ) {
            (Some(a), Some(b), Some(c), Some(d)) => Some(address_of(a, b, c, d)),
            _ => None,
        }
    } else {
        None
    }
}

/// Reads an address from its dotted text. A text that is no address is an
/// error of the arguments.
pub fn inet_aton(v: &str) -> (r: Result<u32, ErrorCode>)
    ensures
        match parsed_address(v@) {
            Some(address) => r == Ok::<u32, ErrorCode>(address),
            None => r is Err && r->Err_0.code == BAD_ARGUMENTS && r->Err_0.message@
                == "invalid IPv4 address syntax"@,
        },
{
    let n = v.unicode_len();
    proof {
        assert(v@.subrange(0, n as int) =~= v@);
        text_bounds(v@, '.');
    }
    let p1 = find_char_from(v, '.', 0);
    if p1 >= n {
        return Err(ErrorCode::create(BAD_ARGUMENTS, "invalid IPv4 address syntax"));
    }
    let s1 = p1 + 1;
    let ghost r1 = v@.subrange(s1 as int, n as int);
    let p2 = find_char_from(v, '.', s1);
    if p2 >= n {
        return Err(ErrorCode::create(BAD_ARGUMENTS, "invalid IPv4 address syntax"));
    }
    let s2 = p2 + 1;
    let ghost r2 = v@.subrange(s2 as int, n as int);
    proof {
        assert(r1.subrange(p2 - s1 + 1, r1.len() as int) =~= r2);
    }
    let p3 = find_char_from(v, '.', s2);
    if p3 >= n {
        return Err(ErrorCode::create(BAD_ARGUMENTS, "invalid IPv4 address syntax"));
    }
    let s3 = p3 + 1;
    let ghost r3 = v@.subrange(s3 as int, n as int);
    proof {
        assert(r2.subrange(p3 - s2 + 1, r2.len() as int) =~= r3);
        assert(r1.subrange(0, p2 - s1) =~= v@.subrange(s1 as int, p2 as int));
        assert(r2.subrange(0, p3 - s2) =~= v@.subrange(s2 as int, p3 as int));
    }
    let a = parse_byte(v, 0, p1);
    let b = parse_byte(v, s1, p2);
    let c = parse_byte(v, s2, p3);
    let d = parse_byte(v, s3, n);
    match (a, b, c, d) {
        (Some(a), Some(b), Some(c), Some(d)) => Ok(
            a as u32 * 0x100_0000 + b as u32 * 0x1_0000 + c as u32 * 0x100 + d as u32,
        ),
        _ => Err(ErrorCode::create(BAD_ARGUMENTS, "invalid IPv4 address syntax")),
    }
}

/// The difference of two 64-bit numbers, wrapped around on overflow.
pub open spec fn wrapped_difference(a: i64, b: i64) -> i64 {
    let d = a - b;
    if d > i64::MAX {
        (d - 0x1_0000_0000_0000_0000) as i64
    } else if d < i64::MIN {
        (d + 0x1_0000_0000_0000_0000) as i64
    } else {
        d as i64
    }
}

/// The running difference of a column: zero in the first row, and in
/// every other row the value of the row less the value of the row before
/// it, wrapped around on overflow.
pub fn running_difference(column: &Vec<i64>) -> (out: Vec<i64>)
    ensures
        out.len() == column.len(),
        column.len() > 0 ==> out[0] == 0,
        forall|i: int|
            1 <= i < column.len() ==> (#[trigger] out[i]) == wrapped_difference(
                column[i],
                column[i - 1],
            ),
{
    let mut out: Vec<i64> = Vec::new();
    if column.len() == 0 {
        return out;
    }
    out.push(0);
    let mut i: usize = 1;
    while i < column.len()
        invariant
            1 <= i <= column.len(),
            out.len() == i,
            out[0] == 0,
            forall|k: int|
                1 <= k < i ==> (#[trigger] out[k]) == wrapped_difference(column[k], column[k - 1]),
        decreases column.len() - i,
    {
        let a = column[i];
        let b = column[i - 1];
        let wide: i128 = a as i128 - b as i128;
        let diff: i64 = if wide > i64::MAX as i128 {
            (wide - 0x1_0000_0000_0000_0000) as i64
        } else if wide < i64::MIN as i128 {
            (wide + 0x1_0000_0000_0000_0000) as i64
        } else {
            wide as i64
        };
        out.push(diff);
        i = i + 1;
    }
    out
}

/// The longest time that `sleep` may be asked for, in milliseconds.
pub const MAX_SLEEP_MILLIS: u64 = 300_000;

/// Whether `sleep` may be asked to sleep for this many milliseconds and
/// nanoseconds beyond them: at most 300 seconds.
pub open spec fn sleep_is_allowed(millis: u64, nanos_beyond: u32) -> bool {
    millis < MAX_SLEEP_MILLIS || (millis == MAX_SLEEP_MILLIS && nanos_beyond == 0)
}

/// Checks the time that `sleep` is asked for, given in whole milliseconds
/// and the nanoseconds beyond them; a time of more than 300 seconds is
/// refused.
pub fn check_sleep_duration(millis: u64, nanos_beyond: u32) -> (r: Result<(), ErrorCode>)
    ensures
        sleep_is_allowed(millis, nanos_beyond) ==> r is Ok,
        !sleep_is_allowed(millis, nanos_beyond) ==> r is Err && r->Err_0.code == BAD_ARGUMENTS
            && r->Err_0.message@ == "The maximum sleep time is 300 seconds"@,
{
    if millis < MAX_SLEEP_MILLIS || (millis == MAX_SLEEP_MILLIS && nanos_beyond == 0) {
        Ok(())
    } else {
        Err(ErrorCode::create(BAD_ARGUMENTS, "The maximum sleep time is 300 seconds"))
    }
}

/// The result of `ignore`: false, whatever its arguments.
pub fn ignore() -> (b: bool)
    ensures
        !b,
{
    false
}

/// The value of `assume_not_null`: the value where there is one, and the
/// default of the type where there is none.
pub fn assume_not_null(val: Option<i64>, default_value: i64) -> (r: i64)
    ensures
        r == match val {
            Some(v) => v,
            None => default_value,
        },
{
    match val {
        Some(v) => v,
        None => default_value,
    }
}

/// The offsets of a column of `num_rows` identifiers of 36 bytes each:
/// row `i` starts at byte `36 * i`. `None` where the column does not fit
/// the machine.
pub fn uuid_offsets(num_rows: usize) -> (r: Option<Vec<u64>>)
    ensures
        36 * num_rows <= u64::MAX ==> r is Some && r->Some_0.len() == num_rows + 1 && forall|i: int|
            0 <= i <= num_rows ==> (#[trigger] r->Some_0[i]) == 36 * i,
        36 * num_rows > u64::MAX ==> r is None,
{
    if num_rows as u128 * 36 > u64::MAX as u128 {
        return None;
    }
    let mut offsets: Vec<u64> = Vec::new();
    offsets.push(0);
    let mut i: usize = 0;
    while i < num_rows
        invariant
            i <= num_rows,
            36 * num_rows <= u64::MAX,
            offsets.len() == i + 1,
            forall|k: int| 0 <= k <= i ==> (#[trigger] offsets[k]) == 36 * k,
        decreases num_rows - i,
    {
        let last = offsets[i];
        offsets.push(last + 36);
        i = i + 1;
    }
    Some(offsets)
}

/// The other names under which functions are registered: each pair is
/// a name and one more name for the same function.
pub fn register() -> (aliases: Vec<(&'static str, &'static str)>)
    ensures
        aliases.len() == 6,
        aliases[0].0@ == "inet_aton"@ && aliases[0].1@ == "ipv4_string_to_num"@,
        aliases[1].0@ == "try_inet_aton"@ && aliases[1].1@ == "try_ipv4_string_to_num"@,
        aliases[2].0@ == "inet_ntoa"@ && aliases[2].1@ == "ipv4_num_to_string"@,
        aliases[3].0@ == "try_inet_ntoa"@ && aliases[3].1@ == "try_ipv4_num_to_string"@,
        aliases[4].0@ == "assume_not_null"@ && aliases[4].1@ == "remove_nullable"@,
        aliases[5].0@ == "gen_random_uuid"@ && aliases[5].1@ == "uuid"@,
{
    let mut aliases: Vec<(&'static str, &'static str)> = Vec::new();
    aliases.push(("inet_aton", "ipv4_string_to_num"));
    aliases.push(("try_inet_aton", "try_ipv4_string_to_num"));
    aliases.push(("inet_ntoa", "ipv4_num_to_string"));
    aliases.push(("try_inet_ntoa", "try_ipv4_num_to_string"));
    aliases.push(("assume_not_null", "remove_nullable"));
    aliases.push(("gen_random_uuid", "uuid"));
    aliases
}

} // verus!
