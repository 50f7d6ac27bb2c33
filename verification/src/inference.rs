//! Schema inference: given the raw cell values observed in one CSV column,
//! determine the narrowest data type under which every non-empty value parses.
//!
//! The candidate type starts at the most specific type (`Boolean`) and widens
//! monotonically along the chain `Boolean -> Integer -> Float -> String` the
//! first time a value fails to parse under the current candidate. A column
//! with no non-empty value resolves to `String`.

use vstd::prelude::*;

use crate::models::DataType;

verus! {

/// Decimal digit, `'0'` through `'9'`.
pub open spec fn spec_is_digit(c: char) -> bool {
    '0' <= c && c <= '9'
}

/// Number of leading sign characters (0 or 1) of a raw value.
pub open spec fn sign_len(s: Seq<char>) -> int {
    if s.len() > 0 && (s[0] == '+' || s[0] == '-') {
        1
    } else {
        0
    }
}

/// A value is boolean when it is exactly `true` or `false`.
pub open spec fn is_bool_chars(s: Seq<char>) -> bool {
    s == "true"@ || s == "false"@
}

/// A value is an integer when, after an optional sign, it is one or more
/// decimal digits.
pub open spec fn is_int_chars(s: Seq<char>) -> bool {
    let body = s.skip(sign_len(s));
    body.len() > 0 && (forall|i: int| 0 <= i < body.len() ==> spec_is_digit(#[trigger] body[i]))
}

/// A value is a float when, after an optional sign, it consists of decimal
/// digits and at most one `.`, with at least one digit.
pub open spec fn is_float_chars(s: Seq<char>) -> bool {
    let body = s.skip(sign_len(s));
    &&& body.len() > 0
    &&& forall|i: int| 0 <= i < body.len() ==> (spec_is_digit(#[trigger] body[i]) || body[i] == '.')
    &&& exists|i: int| 0 <= i < body.len() && spec_is_digit(#[trigger] body[i])
    &&& forall|i: int, j: int|
        0 <= i < j < body.len() ==> !(#[trigger] body[i] == '.' && #[trigger] body[j] == '.')
}

/// Position of a type on the widening chain; widening only ever increases it.
pub open spec fn rank(t: DataType) -> int {
    match t {
        DataType::Boolean => 0,
        DataType::Integer => 1,
        DataType::Float => 2,
        DataType::String => 3,
    }
}

/// Whether a raw value parses under a data type. Every value parses as
/// `String`.
pub open spec fn parses_as(s: Seq<char>, t: DataType) -> bool {
    match t {
        DataType::Boolean => is_bool_chars(s),
        DataType::Integer => is_int_chars(s),
        DataType::Float => is_float_chars(s),
        DataType::String => true,
    }
}

/// The least type, no narrower than the current candidate, under which the
/// value parses.
pub open spec fn widened(cur: DataType, s: Seq<char>) -> DataType {
    if rank(cur) <= 0 && is_bool_chars(s) {
        DataType::Boolean
    } else if rank(cur) <= 1 && is_int_chars(s) {
        DataType::Integer
    } else if rank(cur) <= 2 && is_float_chars(s) {
        DataType::Float
    } else {
        DataType::String
    }
}

/// One inference step: empty values carry no type information and are
/// skipped; any other value widens the candidate as needed.
pub open spec fn step_type(cur: DataType, s: Seq<char>) -> DataType {
    if s.len() == 0 {
        cur
    } else {
        widened(cur, s)
    }
}

/// Fold of `step_type` over a column's values, in row order.
pub open spec fn fold_type(cur: DataType, vals: Seq<Seq<char>>) -> DataType
    decreases vals.len(),
{
    if vals.len() == 0 {
        cur
    } else {
        fold_type(step_type(cur, vals[0]), vals.drop_first())
    }
}

/// Whether the column has at least one non-empty value.
pub open spec fn has_nonempty(vals: Seq<Seq<char>>) -> bool {
    exists|i: int| 0 <= i < vals.len() && #[trigger] vals[i].len() > 0
}

/// The inferred type of a column: `String` when no value carries type
/// information, otherwise the fold starting from the most specific type.
pub open spec fn column_type(vals: Seq<Seq<char>>) -> DataType {
    if !has_nonempty(vals) {
        DataType::String
    } else {
        fold_type(DataType::Boolean, vals)
    }
}

/// Appending one value to a column folds as one extra step.
pub proof fn lemma_fold_type_push(cur: DataType, vals: Seq<Seq<char>>, v: Seq<char>)
    ensures
        fold_type(cur, vals.push(v)) == step_type(fold_type(cur, vals), v),
    decreases vals.len(),
{
    let w = vals.push(v);
    assert(w.len() == vals.len() + 1);
    if vals.len() == 0 {
        assert(w[0] == v);
        assert(w.drop_first() =~= vals);
        assert(fold_type(cur, w) == fold_type(step_type(cur, v), vals));
        assert(fold_type(step_type(cur, v), vals) == step_type(cur, v));
        assert(fold_type(cur, vals) == cur);
    } else {
        assert(w[0] == vals[0]);
        assert(w.drop_first() =~= vals.drop_first().push(v));
        assert(fold_type(cur, w) == fold_type(step_type(cur, vals[0]), w.drop_first()));
        lemma_fold_type_push(step_type(cur, vals[0]), vals.drop_first(), v);
        assert(fold_type(cur, vals) == fold_type(step_type(cur, vals[0]), vals.drop_first()));
    }
}

/// Every integer value is also a float value.
pub proof fn lemma_int_is_float(s: Seq<char>)
    requires
        is_int_chars(s),
    ensures
        is_float_chars(s),
{
    let body = s.skip(sign_len(s));
    assert(spec_is_digit(body[0]));
}

/// A boolean value is neither an integer nor a float value.
pub proof fn lemma_bool_not_numeric(s: Seq<char>)
    requires
        is_bool_chars(s),
    ensures
        !is_int_chars(s),
        !is_float_chars(s),
{
    reveal_strlit("true");
    reveal_strlit("false");
    assert(s[0] == 't' || s[0] == 'f');
    assert(sign_len(s) == 0);
    let body = s.skip(0);
    assert(body[0] == s[0]);
    assert(!spec_is_digit(body[0]) && body[0] != '.');
}

proof fn lemma_fold_int(cur: DataType, vals: Seq<Seq<char>>)
    requires
        cur == DataType::Boolean || cur == DataType::Integer,
        forall|i: int|
            0 <= i < vals.len() && (#[trigger] vals[i]).len() > 0 ==> is_int_chars(vals[i]),
    ensures
        fold_type(cur, vals) == if has_nonempty(vals) {
            DataType::Integer
        } else {
            cur
        },
    decreases vals.len(),
{
    if vals.len() > 0 {
        let v = vals[0];
        let rest = vals.drop_first();
        assert(forall|i: int|
            0 <= i < rest.len() && (#[trigger] rest[i]).len() > 0 ==> is_int_chars(rest[i]))
            by {
            assert(forall|i: int| 0 <= i < rest.len() ==> #[trigger] rest[i] == vals[i + 1]);
        }
        if v.len() == 0 {
            lemma_fold_int(cur, rest);
            assert(has_nonempty(vals) == has_nonempty(rest)) by {
                if has_nonempty(vals) {
                    let k = choose|k: int| 0 <= k < vals.len() && (#[trigger] vals[k]).len() > 0;
                    assert(rest[k - 1].len() > 0);
                }
                if has_nonempty(rest) {
                    let k = choose|k: int| 0 <= k < rest.len() && (#[trigger] rest[k]).len() > 0;
                    assert(vals[k + 1].len() > 0);
                }
            }
        } else {
            assert(is_int_chars(v));
            if is_bool_chars(v) {
                lemma_bool_not_numeric(v);
            }
            assert(step_type(cur, v) == DataType::Integer);
            lemma_fold_int(DataType::Integer, rest);
            assert(has_nonempty(vals));
        }
    }
}

/// A column whose non-empty values are all integer values is inferred as
/// `Integer`.
pub proof fn lemma_integer_column(vals: Seq<Seq<char>>)
    requires
        has_nonempty(vals),
        forall|i: int|
            0 <= i < vals.len() && (#[trigger] vals[i]).len() > 0 ==> is_int_chars(vals[i]),
    ensures
        column_type(vals) == DataType::Integer,
{
    lemma_fold_int(DataType::Boolean, vals);
}

proof fn lemma_fold_float(cur: DataType, vals: Seq<Seq<char>>)
    requires
        rank(cur) <= 2,
        forall|i: int|
            0 <= i < vals.len() && (#[trigger] vals[i]).len() > 0 ==> is_float_chars(vals[i]),
    ensures
        rank(fold_type(cur, vals)) <= 2,
        (cur == DataType::Float || exists|i: int|
            0 <= i < vals.len() && (#[trigger] vals[i]).len() > 0 && !is_int_chars(vals[i]))
            ==> fold_type(cur, vals) == DataType::Float,
    decreases vals.len(),
{
    if vals.len() > 0 {
        let v = vals[0];
        let rest = vals.drop_first();
        assert(forall|i: int| 0 <= i < rest.len() ==> #[trigger] rest[i] == vals[i + 1]);
        let cur2 = step_type(cur, v);
        if v.len() == 0 {
            assert(cur2 == cur);
        } else {
            assert(is_float_chars(v));
            if is_bool_chars(v) {
                lemma_bool_not_numeric(v);
            }
            assert(rank(cur2) <= 2);
            if cur == DataType::Float || !is_int_chars(v) {
                assert(cur2 == DataType::Float);
            }
        }
        lemma_fold_float(cur2, rest);
        if cur != DataType::Float && !(v.len() > 0 && !is_int_chars(v)) {
            if exists|i: int|
                0 <= i < vals.len() && (#[trigger] vals[i]).len() > 0 && !is_int_chars(vals[i]) {
                let k = choose|k: int|
                    0 <= k < vals.len() && (#[trigger] vals[k]).len() > 0 && !is_int_chars(
                        vals[k],
                    );
                assert(k > 0);
                assert(rest[k - 1].len() > 0 && !is_int_chars(rest[k - 1]));
            }
        }
    }
}

/// A column of numeric values with at least one float that is not an
/// integer is inferred as `Float`.
pub proof fn lemma_float_column(vals: Seq<Seq<char>>)
    requires
        forall|i: int|
            0 <= i < vals.len() && (#[trigger] vals[i]).len() > 0 ==> is_float_chars(vals[i]),
        exists|i: int|
            0 <= i < vals.len() && (#[trigger] vals[i]).len() > 0 && !is_int_chars(vals[i]),
    ensures
        column_type(vals) == DataType::Float,
{
    let k = choose|k: int|
        0 <= k < vals.len() && (#[trigger] vals[k]).len() > 0 && !is_int_chars(vals[k]);
    assert(has_nonempty(vals));
    lemma_fold_float(DataType::Boolean, vals);
}

proof fn lemma_fold_absorbs_string(vals: Seq<Seq<char>>)
    ensures
        fold_type(DataType::String, vals) == DataType::String,
    decreases vals.len(),
{
    if vals.len() > 0 {
        assert(step_type(DataType::String, vals[0]) == DataType::String);
        lemma_fold_absorbs_string(vals.drop_first());
    }
}

proof fn lemma_fold_string(cur: DataType, vals: Seq<Seq<char>>)
    requires
        exists|i: int|
            0 <= i < vals.len() && (#[trigger] vals[i]).len() > 0 && !is_float_chars(vals[i])
                && !is_bool_chars(vals[i]),
    ensures
        fold_type(cur, vals) == DataType::String,
    decreases vals.len(),
{
    let k = choose|k: int|
        0 <= k < vals.len() && (#[trigger] vals[k]).len() > 0 && !is_float_chars(vals[k])
            && !is_bool_chars(vals[k]);
    let v = vals[0];
    let rest = vals.drop_first();
    assert(forall|i: int| 0 <= i < rest.len() ==> #[trigger] rest[i] == vals[i + 1]);
    if v.len() > 0 && !is_float_chars(v) && !is_bool_chars(v) {
        if is_int_chars(v) {
            lemma_int_is_float(v);
        }
        assert(step_type(cur, v) == DataType::String);
        lemma_fold_absorbs_string(rest);
    } else {
        assert(k > 0);
        assert(rest[k - 1] == vals[k]);
        lemma_fold_string(step_type(cur, v), rest);
    }
}

/// One non-numeric, non-boolean value anywhere in the column forces the
/// inferred type to `String`, irrespective of its position.
pub proof fn lemma_non_numeric_column(vals: Seq<Seq<char>>)
    requires
        exists|i: int|
            0 <= i < vals.len() && (#[trigger] vals[i]).len() > 0 && !is_float_chars(vals[i])
                && !is_bool_chars(vals[i]),
    ensures
        column_type(vals) == DataType::String,
{
    if has_nonempty(vals) {
        lemma_fold_string(DataType::Boolean, vals);
    }
}

/// Character-by-character string equality.
pub fn str_eq_chars(a: &str, b: &str) -> (r: bool)
    ensures
        r == (a@ == b@),
{
    let n = a.unicode_len();
    let m = b.unicode_len();
    if n != m {
        return false;
    }
    let mut i: usize = 0;
    while i < n
        invariant
            i <= n,
            n == a@.len(),
            n == b@.len(),
            forall|k: int| 0 <= k < i ==> a@[k] == b@[k],
        decreases n - i,
    {
        if a.get_char(i) != b.get_char(i) {
            return false;
        }
        i += 1;
    }
    proof {
        assert(a@ =~= b@);
    }
    true
}

/// Whether the raw value is a boolean.
pub fn is_bool_str(s: &str) -> (r: bool)
    ensures
        r == is_bool_chars(s@),
{
    str_eq_chars(s, "true") || str_eq_chars(s, "false")
}

/// Whether the raw value is an integer.
pub fn is_int_str(s: &str) -> (r: bool)
    ensures
        r == is_int_chars(s@),
{
    let n = s.unicode_len();
    if n == 0 {
        return false;
    }
    let c0 = s.get_char(0);
    let start: usize = if c0 == '+' || c0 == '-' {
        1
    } else {
        0
    };
    assert(start as int == sign_len(s@));
    if start == n {
        return false;
    }
    let ghost body = s@.skip(start as int);
    let mut i: usize = start;
    while i < n
        invariant
            start <= i <= n,
            n == s@.len(),
            start as int == sign_len(s@),
            body == s@.skip(start as int),
            forall|k: int| start <= k < i ==> spec_is_digit(#[trigger] s@[k]),
        decreases n - i,
    {
        let c = s.get_char(i);
        if !('0' <= c && c <= '9') {
            assert(body[i - start] == s@[i as int]);
            return false;
        }
        i += 1;
    }
    assert forall|k: int| 0 <= k < body.len() implies spec_is_digit(#[trigger] body[k]) by {
        assert(body[k] == s@[k + start]);
    }
    true
}

/// Whether the raw value is a float.
pub fn is_float_str(s: &str) -> (r: bool)
    ensures
        r == is_float_chars(s@),
{
    let n = s.unicode_len();
    if n == 0 {
        return false;
    }
    let c0 = s.get_char(0);
    let start: usize = if c0 == '+' || c0 == '-' {
        1
    } else {
        0
    };
    assert(start as int == sign_len(s@));
    if start == n {
        return false;
    }
    let ghost body = s@.skip(start as int);
    let mut i: usize = start;
    let mut saw_digit = false;
    let mut dot_at: Option<usize> = None;
    while i < n
        invariant
            start <= i <= n,
            n == s@.len(),
            start as int == sign_len(s@),
            body == s@.skip(start as int),
            forall|k: int|
                start <= k < i ==> (spec_is_digit(#[trigger] s@[k]) || s@[k] == '.'),
            saw_digit == exists|k: int| start <= k < i && spec_is_digit(#[trigger] s@[k]),
            match dot_at {
                Option::None => forall|k: int| start <= k < i ==> #[trigger] s@[k] != '.',
                Option::Some(d) => start <= d < i && s@[d as int] == '.' && forall|k: int|
                    start <= k < i && k != d ==> #[trigger] s@[k] != '.',
            },
        decreases n - i,
    {
        let c = s.get_char(i);
        if c == '.' {
            if dot_at.is_some() {
                proof {
                    let d = dot_at->Some_0;
                    assert(body[d - start] == s@[d as int]);
                    assert(body[i - start] == s@[i as int]);
                }
                return false;
            }
            dot_at = Some(i);
        } else if '0' <= c && c <= '9' {
            saw_digit = true;
        } else {
            assert(body[i - start] == s@[i as int]);
            return false;
        }
        i += 1;
    }
    proof {
        assert forall|k: int| 0 <= k < body.len() implies (spec_is_digit(#[trigger] body[k])
            || body[k] == '.') by {
            assert(body[k] == s@[k + start]);
        }
        if saw_digit {
            let k = choose|k: int| start <= k < n && spec_is_digit(#[trigger] s@[k]);
            assert(body[k - start] == s@[k]);
            assert(is_float_chars(s@)) by {
                assert forall|p: int, q: int|
                    0 <= p < q < body.len() implies !(#[trigger] body[p] == '.'
                    && #[trigger] body[q] == '.') by {
                    assert(body[p] == s@[p + start]);
                    assert(body[q] == s@[q + start]);
                }
            }
        } else {
            if is_float_chars(s@) {
                let k = choose|k: int| 0 <= k < body.len() && spec_is_digit(#[trigger] body[k]);
                assert(body[k] == s@[k + start]);
            }
        }
    }
    saw_digit
}

/// Executable counterpart of `rank`.
pub fn rank_exec(t: DataType) -> (r: u8)
    ensures
        r as int == rank(t),
{
    match t {
        DataType::Boolean => 0,
        DataType::Integer => 1,
        DataType::Float => 2,
        DataType::String => 3,
    }
}

/// Widens the candidate type just enough for the value to parse.
pub fn widen_exec(cur: DataType, s: &str) -> (r: DataType)
    ensures
        r == widened(cur, s@),
{
    let rk = rank_exec(cur);
    if rk == 0 && is_bool_str(s) {
        DataType::Boolean
    } else if rk <= 1 && is_int_str(s) {
        DataType::Integer
    } else if rk <= 2 && is_float_str(s) {
        DataType::Float
    } else {
        DataType::String
    }
}

/// The values observed for one column position, row by row; a row too short
/// to reach the position contributes an empty value.
pub open spec fn column_cells(rows: Seq<Seq<Seq<char>>>, j: int) -> Seq<Seq<char>> {
    rows.map_values(|r: Seq<Seq<char>>| if 0 <= j < r.len() {
        r[j]
    } else {
        Seq::<char>::empty()
    })
}

/// Infers the data type of the column at position `j` from the raw rows.
pub fn infer_column_type(content: &Vec<Vec<String>>, j: usize) -> (t: DataType)
    ensures
        t == column_type(column_cells(content.deep_view(), j as int)),
{
    let ghost rows = content.deep_view();
    let ghost cells = column_cells(rows, j as int);
    let n = content.len();
    let mut cur = DataType::Boolean;
    let mut seen = false;
    let mut i: usize = 0;
    while i < n
        invariant
            i <= n,
            n == content@.len(),
            rows == content.deep_view(),
            cells == column_cells(rows, j as int),
            cells.len() == n,
            cur == fold_type(DataType::Boolean, cells.take(i as int)),
            seen == has_nonempty(cells.take(i as int)),
        decreases n - i,
    {
        let ghost cell = cells[i as int];
        proof {
            assert(cell == if 0 <= j < rows[i as int].len() {
                rows[i as int][j as int]
            } else {
                Seq::<char>::empty()
            });
            assert(cells.take(i + 1) =~= cells.take(i as int).push(cell));
            lemma_fold_type_push(DataType::Boolean, cells.take(i as int), cell);
        }
        let row: &Vec<String> = &content[i];
        proof {
            assert(rows[i as int] == row.deep_view());
        }
        if j < row.len() {
            let s: &String = &row[j];
            proof {
                assert(row.deep_view()[j as int] == s@);
            }
            if !s.as_str().is_empty() {
                cur = widen_exec(cur, s.as_str());
                seen = true;
            }
        }
        proof {
            let pre = cells.take(i as int);
            if cell.len() > 0 {
                assert(pre.push(cell)[pre.len() as int] == cell);
                assert(has_nonempty(pre.push(cell)));
            } else {
                assert(has_nonempty(pre.push(cell)) == has_nonempty(pre)) by {
                    if has_nonempty(pre) {
                        let k = choose|k: int| 0 <= k < pre.len() && #[trigger] pre[k].len() > 0;
                        assert(pre.push(cell)[k].len() > 0);
                    }
                    if has_nonempty(pre.push(cell)) {
                        let k = choose|k: int|
                            0 <= k < pre.push(cell).len() && #[trigger] pre.push(cell)[k].len()
                                > 0;
                        if k < pre.len() {
                            assert(pre[k].len() > 0);
                        }
                    }
                }
            }
        }
        i += 1;
    }
    proof {
        assert(cells.take(n as int) =~= cells);
    }
    if seen {
        cur
    } else {
        DataType::String
    }
}

} // verus!
