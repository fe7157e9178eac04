//! The serial line protocol: nine comma-separated integers, a button field
//! followed by four (low, high) direction pairs, turned into a validated
//! `SerialInput` or a precise `ParseInputError`.

use vstd::prelude::*;
use crate::text::{
    decimal, i32_text, parse_i32, push_decimal, push_nat_decimal, push_str, split_on, split_str,
    trim_str, trimmed,
};

verus! {

/// The number of fields of a line.
pub const FIELD_COUNT: usize = 9;

/// The reading of one direction. `Middle` is a tier that the wire format
/// reserves; the parser never produces it.
#[derive(Debug, Clone, Copy, PartialEq, Eq, Structural)]
pub enum ControllerValue {
    Noinput(i32),
    Low(i32),
    Middle(i32),
    High(i32),
}

#[derive(Debug, Clone, Copy, PartialEq, Eq, Structural)]
pub struct ButtonInput {
    pub is_pushed: bool,
}

#[derive(Debug, Clone, Copy, PartialEq, Eq, Structural)]
pub struct ControllerInput {
    pub left: ControllerValue,
    pub right: ControllerValue,
    pub up: ControllerValue,
    pub down: ControllerValue,
}

/// One frame of telemetry, built only from a line that passed every check.
#[derive(Debug, Clone, Copy, PartialEq, Eq, Structural)]
pub struct SerialInput {
    pub button: ButtonInput,
    pub controller: ControllerInput,
}

/// Why a line was rejected. Field indices count from 0.
#[derive(Debug)]
pub enum ParseInputError {
    FieldCount { expected: usize, actual: usize },
    ParseInt { index: usize, value: String, source: core::num::ParseIntError },
    InvalidButtonValue(i32),
    InvalidControllerValue { index: usize, value: i32 },
    InvalidControllerCombination {
        low_index: usize,
        high_index: usize,
        low_value: i32,
        high_value: i32,
    },
}

/// The fields of a line: its trimmed text split at every comma.
pub open spec fn line_fields(line: Seq<char>) -> Seq<Seq<char>> {
    split_on(trimmed(line), ',')
}

/// How many fields a line has; a line that is blank once trimmed has none.
pub open spec fn field_count(line: Seq<char>) -> nat {
    if trimmed(line).len() == 0 {
        0
    } else {
        line_fields(line).len()
    }
}

/// The integer written in a field, surrounding white space aside.
pub open spec fn field_int(field: Seq<char>) -> Option<i32> {
    i32_text(trimmed(field))
}

pub open spec fn is_binary(v: i32) -> bool {
    v == 0 || v == 1
}

/// Field `i` fails its own check, given that the fields before it passed:
/// it is no integer, or not 0 or 1, or it is the high field of a pair that
/// reports high without low.
pub open spec fn field_fault(fields: Seq<Seq<char>>, i: int) -> bool {
    match field_int(fields[i]) {
        None => true,
        Some(v) => !is_binary(v) || (i > 0 && i % 2 == 0 && v == 1 && field_int(fields[i - 1])
            == Some(0i32)),
    }
}

/// The index of the first field, from `i` on, that fails its check; 9 if none.
pub open spec fn first_fault(fields: Seq<Seq<char>>, i: int) -> int
    decreases 9 - i,
{
    if i >= 9 {
        9
    } else if field_fault(fields, i) {
        i
    } else {
        first_fault(fields, i + 1)
    }
}

/// The line holds nine fields and every one of them passes its check.
pub open spec fn line_accepted(line: Seq<char>) -> bool {
    field_count(line) == 9 && first_fault(line_fields(line), 0) == 9
}

/// The reading of a (low, high) pair: high wins, then low, else no input.
pub open spec fn level_of(low: i32, high: i32) -> ControllerValue {
    if high > 0 {
        ControllerValue::High(high)
    } else if low > 0 {
        ControllerValue::Low(low)
    } else {
        ControllerValue::Noinput(0)
    }
}

/// The frame that an accepted line describes.
pub open spec fn frame_of(line: Seq<char>) -> SerialInput {
    let f = line_fields(line);
    let v = |i: int| field_int(f[i])->0;
    SerialInput {
        button: ButtonInput { is_pushed: v(0) == 1 },
        controller: ControllerInput {
            up: level_of(v(1), v(2)),
            right: level_of(v(3), v(4)),
            down: level_of(v(5), v(6)),
            left: level_of(v(7), v(8)),
        },
    }
}

/// `e` reports the failing check of field `i`.
pub open spec fn reports_field(e: ParseInputError, fields: Seq<Seq<char>>, i: int) -> bool {
    match field_int(fields[i]) {
        None => e matches ParseInputError::ParseInt { index, value, .. } && index == i && value@
            == trimmed(fields[i]),
        Some(v) => if i == 0 {
            e matches ParseInputError::InvalidButtonValue(w) && w == v
        } else if !is_binary(v) {
            e matches ParseInputError::InvalidControllerValue { index, value } && index == i && value
                == v
        } else {
            e matches ParseInputError::InvalidControllerCombination {
                low_index,
                high_index,
                low_value,
                high_value,
            } && low_index == i - 1 && high_index == i && low_value == 0 && high_value == 1
        },
    }
}

/// `e` is the error owed for `line`: a field count, else the first field that
/// fails its check, scanning from the left.
pub open spec fn rejects_with(line: Seq<char>, e: ParseInputError) -> bool {
    if field_count(line) != 9 {
        e matches ParseInputError::FieldCount { expected, actual } && expected == 9 && actual
            == field_count(line)
    } else {
        reports_field(e, line_fields(line), first_fault(line_fields(line), 0))
    }
}


impl ParseInputError {
    /// A one-line description of the error for the log.
    pub fn message(&self) -> (r: String)
        ensures
            match *self {
                ParseInputError::FieldCount { expected, actual } => r@ == "expected "@ + decimal(
                    expected as int,
                ) + " fields but got "@ + decimal(actual as int),
                ParseInputError::ParseInt { index, value, .. } => exists|cause: Seq<char>|
                    r@ == "failed to parse field #"@ + decimal(index as int) + " ('"@ + value@
                        + "'): "@ + cause,
                ParseInputError::InvalidButtonValue(value) => r@ == "invalid button value: "@
                    + decimal(value as int) + " (expected 0 or 1)"@,
                ParseInputError::InvalidControllerValue { index, value } => r@
                    == "invalid controller field #"@ + decimal(index as int) + " value: "@
                    + decimal(value as int) + " (expected 0 or 1)"@,
                ParseInputError::InvalidControllerCombination {
                    low_index,
                    high_index,
                    low_value,
                    high_value,
                } => r@ == "invalid controller combination (field #"@ + decimal(low_index as int)
                    + "="@ + decimal(low_value as int) + ", field #"@ + decimal(high_index as int)
                    + "="@ + decimal(high_value as int) + "): high=1 requires low=1"@,
            },
    {
        let mut out = String::new();
        match self {
            ParseInputError::FieldCount { expected, actual } => {
                push_str(&mut out, "expected ");
                push_nat_decimal(&mut out, *expected as u64);
                push_str(&mut out, " fields but got ");
                push_nat_decimal(&mut out, *actual as u64);
                assert(out@ =~= "expected "@ + decimal(*expected as int) + " fields but got "@
                    + decimal(*actual as int));
            },
            ParseInputError::ParseInt { index, value, source } => {
                push_str(&mut out, "failed to parse field #");
                push_nat_decimal(&mut out, *index as u64);
                push_str(&mut out, " ('");
                push_str(&mut out, value.as_str());
                push_str(&mut out, "'): ");
                let cause = source.to_string();
                push_str(&mut out, cause.as_str());
                assert(out@ =~= "failed to parse field #"@ + decimal(*index as int) + " ('"@
                    + value@ + "'): "@ + cause@);
            },
            ParseInputError::InvalidButtonValue(value) => {
                push_str(&mut out, "invalid button value: ");
                push_decimal(&mut out, *value);
                push_str(&mut out, " (expected 0 or 1)");
                assert(out@ =~= "invalid button value: "@ + decimal(*value as int)
                    + " (expected 0 or 1)"@);
            },
            ParseInputError::InvalidControllerValue { index, value } => {
                push_str(&mut out, "invalid controller field #");
                push_nat_decimal(&mut out, *index as u64);
                push_str(&mut out, " value: ");
                push_decimal(&mut out, *value);
                push_str(&mut out, " (expected 0 or 1)");
                assert(out@ =~= "invalid controller field #"@ + decimal(*index as int) + " value: "@
                    + decimal(*value as int) + " (expected 0 or 1)"@);
            },
            ParseInputError::InvalidControllerCombination {
                low_index,
                high_index,
                low_value,
                high_value,
            } => {
                push_str(&mut out, "invalid controller combination (field #");
                push_nat_decimal(&mut out, *low_index as u64);
                push_str(&mut out, "=");
                push_decimal(&mut out, *low_value);
                push_str(&mut out, ", field #");
                push_nat_decimal(&mut out, *high_index as u64);
                push_str(&mut out, "=");
                push_decimal(&mut out, *high_value);
                push_str(&mut out, "): high=1 requires low=1");
                assert(out@ =~= "invalid controller combination (field #"@ + decimal(
                    *low_index as int,
                ) + "="@ + decimal(*low_value as int) + ", field #"@ + decimal(*high_index as int)
                    + "="@ + decimal(*high_value as int) + "): high=1 requires low=1"@);
            },
        }
        out
    }

    /// The integer error behind a field that is no integer.
    pub fn source(&self) -> (r: Option<&core::num::ParseIntError>)
        ensures
            r is Some <==> self is ParseInt,
    {
        match self {
            ParseInputError::ParseInt { source, .. } => Some(source),
            _ => None,
        }
    }
}

fn parse_button(value: i32) -> (r: Result<ButtonInput, ParseInputError>)
    ensures
        match r {
            Ok(b) => is_binary(value) && b.is_pushed == (value == 1),
            Err(e) => !is_binary(value) && (e matches ParseInputError::InvalidButtonValue(w) && w
                == value),
        },
{
    match value {
        0 => Ok(ButtonInput { is_pushed: false }),
        1 => Ok(ButtonInput { is_pushed: true }),
        other => Err(ParseInputError::InvalidButtonValue(other)),
    }
}

fn ensure_binary_controller_value(value: i32, index: usize) -> (r: Result<(), ParseInputError>)
    ensures
        match r {
            Ok(_) => is_binary(value),
            Err(e) => !is_binary(value) && (e matches ParseInputError::InvalidControllerValue {
                index: i,
                value: v,
            } && i == index && v == value),
        },
{
    match value {
        0 | 1 => Ok(()),
        other => Err(ParseInputError::InvalidControllerValue { index, value: other }),
    }
}

fn controller_value_from_pair(low: i32, high: i32, low_index: usize, high_index: usize) -> (r:
    Result<ControllerValue, ParseInputError>)
    ensures
        match r {
            Ok(c) => !(high == 1 && low == 0) && c == level_of(low, high),
            Err(e) => high == 1 && low == 0 && (e matches ParseInputError::InvalidControllerCombination {
                low_index: li,
                high_index: hi,
                low_value: lv,
                high_value: hv,
            } && li == low_index && hi == high_index && lv == low && hv == high),
        },
{
    // a direction cannot report high without also reporting low
    if high == 1 && low == 0 {
        return Err(
            ParseInputError::InvalidControllerCombination {
                low_index,
                high_index,
                low_value: low,
                high_value: high,
            },
        );
    }
    let value = if high > 0 {
        ControllerValue::High(high)
    } else if low > 0 {
        ControllerValue::Low(low)
    } else {
        ControllerValue::Noinput(0)
    };
    Ok(value)
}

/// Parses one serial line. The line is trimmed and split at commas into
/// exactly nine fields; each field, trimmed, must be a decimal `i32`. Field 0
/// is the button (0 or 1); fields 1 to 8 are the (low, high) pairs of up,
/// right, down and left, each 0 or 1, and no pair may be high without low.
/// Fields are checked from the left and the first failure is returned.
pub fn parse_input_line(line: &str) -> (r: Result<SerialInput, ParseInputError>)
    ensures
        match r {
            Ok(frame) => line_accepted(line@) && frame == frame_of(line@),
            Err(e) => !line_accepted(line@) && rejects_with(line@, e),
        },
{
    let trimmed_line = trim_str(line);
    if trimmed_line.unicode_len() == 0 {
        return Err(ParseInputError::FieldCount { expected: FIELD_COUNT, actual: 0 });
    }
    let tokens = split_str(trimmed_line, ',');
    let ghost fields = line_fields(line@);
    assert(fields.len() == tokens@.len());
    if tokens.len() != FIELD_COUNT {
        return Err(ParseInputError::FieldCount { expected: FIELD_COUNT, actual: tokens.len() });
    }
    assert forall|j: int| 0 <= j < 9 implies #[trigger] fields[j] == tokens@[j]@ by {
        assert(tokens@.map_values(|t: &str| t@)[j] == tokens@[j]@);
    }
    let mut values: Vec<i32> = Vec::new();
    let mut levels: Vec<ControllerValue> = Vec::new();
    let mut button = ButtonInput { is_pushed: false };
    let mut idx: usize = 0;
    while idx < FIELD_COUNT
        invariant
            tokens@.len() == 9,
            fields == line_fields(line@),
            fields.len() == 9,
            field_count(line@) == 9,
            forall|j: int| 0 <= j < 9 ==> #[trigger] fields[j] == tokens@[j]@,
            idx <= 9,
            values@.len() == idx,
            levels@.len() == if idx == 0 {
                0
            } else {
                (idx - 1) / 2
            },
            forall|j: int| 0 <= j < idx ==> field_int(fields[j]) == Some(#[trigger] values@[j]),
            forall|k: int|
                0 <= k < levels@.len() ==> #[trigger] levels@[k] == level_of(
                    values@[2 * k + 1],
                    values@[2 * k + 2],
                ),
            idx > 0 ==> button.is_pushed == (values@[0] == 1),
            first_fault(fields, 0) == first_fault(fields, idx as int),
        decreases 9 - idx,
    {
        let token = trim_str(tokens[idx]);
        let value = match parse_i32(token) {
            Ok(v) => v,
            Err(source) => {
                return Err(
                    ParseInputError::ParseInt { index: idx, value: token.to_string(), source },
                );
            },
        };
        if idx == 0 {
            match parse_button(value) {
                Ok(b) => {
                    button = b;
                },
                Err(e) => {
                    return Err(e);
                },
            }
        } else {
            match ensure_binary_controller_value(value, idx) {
                Ok(_) => {},
                Err(e) => {
                    return Err(e);
                },
            }
            if idx % 2 == 0 {
                match controller_value_from_pair(values[idx - 1], value, idx - 1, idx) {
                    Ok(level) => {
                        levels.push(level);
                    },
                    Err(e) => {
                        return Err(e);
                    },
                }
            }
        }
        values.push(value);
        idx = idx + 1;
    }
    let controller = ControllerInput {
        up: levels[0],
        right: levels[1],
        down: levels[2],
        left: levels[3],
    };
    Ok(SerialInput { button, controller })
}

proof fn lemma_first_fault_is(fields: Seq<Seq<char>>, i: int, k: int)
    requires
        0 <= i <= k <= 9,
        forall|j: int| i <= j < k ==> !#[trigger] field_fault(fields, j),
        k < 9 ==> field_fault(fields, k),
    ensures
        first_fault(fields, i) == k,
    decreases k - i,
{
    if i < k {
        lemma_first_fault_is(fields, i + 1, k);
    }
}

/// The reading that a (low, high) pair of 0/1 fields gives.
pub open spec fn reading(low: Option<i32>, high: Option<i32>) -> ControllerValue {
    if high == Some(1i32) {
        ControllerValue::High(1)
    } else if low == Some(1i32) {
        ControllerValue::Low(1)
    } else {
        ControllerValue::Noinput(0)
    }
}

/// A line of nine fields, each an integer 0 or 1, where no pair has high 1
/// and low 0, is accepted; each direction is `High` when its high field is
/// 1, else `Low` when its low field is 1, else `Noinput`.
pub proof fn lemma_well_formed_line_accepted(line: Seq<char>)
    requires
        field_count(line) == 9,
        forall|i: int|
            0 <= i < 9 ==> #[trigger] field_int(line_fields(line)[i]) is Some && is_binary(
                field_int(line_fields(line)[i])->0,
            ),
        forall|j: int|
            1 <= j < 9 && j % 2 == 0 ==> !(#[trigger] field_int(line_fields(line)[j]) == Some(1i32)
                && field_int(line_fields(line)[j - 1]) == Some(0i32)),
    ensures
        line_accepted(line),
        frame_of(line).button.is_pushed == (field_int(line_fields(line)[0]) == Some(1i32)),
        frame_of(line).controller.up == reading(
            field_int(line_fields(line)[1]),
            field_int(line_fields(line)[2]),
        ),
        frame_of(line).controller.right == reading(
            field_int(line_fields(line)[3]),
            field_int(line_fields(line)[4]),
        ),
        frame_of(line).controller.down == reading(
            field_int(line_fields(line)[5]),
            field_int(line_fields(line)[6]),
        ),
        frame_of(line).controller.left == reading(
            field_int(line_fields(line)[7]),
            field_int(line_fields(line)[8]),
        ),
{
    let f = line_fields(line);
    assert forall|j: int| 0 <= j < 9 implies !#[trigger] field_fault(f, j) by {
        assert(field_int(f[j]) is Some);
        if j > 0 && j % 2 == 0 {
            assert(field_int(f[j - 1]) is Some);
        }
    }
    lemma_first_fault_is(f, 0, 9);
    assert(field_int(f[1]) is Some && field_int(f[2]) is Some);
    assert(field_int(f[3]) is Some && field_int(f[4]) is Some);
    assert(field_int(f[5]) is Some && field_int(f[6]) is Some);
    assert(field_int(f[7]) is Some && field_int(f[8]) is Some);
}

/// A line whose number of comma-separated fields is not nine is rejected
/// with a field-count error that gives the exact count.
pub proof fn lemma_field_count_rejected(line: Seq<char>, e: ParseInputError)
    requires
        field_count(line) != 9,
    ensures
        !line_accepted(line),
        rejects_with(line, e) <==> (e matches ParseInputError::FieldCount { expected, actual }
            && expected == 9 && actual == field_count(line)),
{
}

/// A nine-field line whose button field is an integer other than 0 and 1 is
/// rejected with an invalid-button error that carries that value.
pub proof fn lemma_invalid_button_rejected(line: Seq<char>, v: i32, e: ParseInputError)
    requires
        field_count(line) == 9,
        field_int(line_fields(line)[0]) == Some(v),
        !is_binary(v),
    ensures
        !line_accepted(line),
        rejects_with(line, e) <==> (e matches ParseInputError::InvalidButtonValue(w) && w == v),
{
    lemma_first_fault_is(line_fields(line), 0, 0);
}

/// A nine-field line in which the pair at (`low_index`, `low_index + 1`) has
/// low 0 and high 1, and whose fields before that pair pass their checks, is
/// rejected with an invalid-combination error naming both indices and values.
pub proof fn lemma_high_without_low_rejected(line: Seq<char>, low_index: int, e: ParseInputError)
    requires
        field_count(line) == 9,
        1 <= low_index <= 7,
        low_index % 2 == 1,
        field_int(line_fields(line)[low_index]) == Some(0i32),
        field_int(line_fields(line)[low_index + 1]) == Some(1i32),
        forall|j: int| 0 <= j < low_index ==> !#[trigger] field_fault(line_fields(line), j),
    ensures
        !line_accepted(line),
        rejects_with(line, e) <==> (e matches ParseInputError::InvalidControllerCombination {
            low_index: li,
            high_index: hi,
            low_value: lv,
            high_value: hv,
        } && li == low_index && hi == low_index + 1 && lv == 0 && hv == 1),
{
    let f = line_fields(line);
    assert(!field_fault(f, low_index));
    lemma_first_fault_is(f, 0, low_index + 1);
}

} // verus!
