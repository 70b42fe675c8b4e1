//! Sorting of table rows by a column: rows are ordered by the column's
//! value, then by id, ascending or descending, and keep every row.
use vstd::prelude::*;

verus! {

/// The direction of a column sort.
#[derive(Clone, Copy, Debug, PartialEq, Eq, Structural)]
pub enum SortDirection {
    Ascending,
    Descending,
}

/// The value a row is sorted by, as mathematics sees it.
pub enum SortValue {
    Text(Seq<char>),
    Count(int),
    Number(int),
    Maybe(Option<int>),
    Flag(bool),
}

/// The value a row is sorted by.
#[derive(Clone, Debug)]
pub enum SortField {
    Text(String),
    Count(u64),
    Number(i64),
    Maybe(Option<i64>),
    Flag(bool),
}

impl SortField {
    /// The value this field stands for.
    pub open spec fn value(&self) -> SortValue {
        match self {
            SortField::Text(s) => SortValue::Text(s@),
            SortField::Count(n) => SortValue::Count(*n as int),
            SortField::Number(n) => SortValue::Number(*n as int),
            SortField::Maybe(n) => SortValue::Maybe(
                match n {
                    Some(v) => Some(*v as int),
                    None => None,
                },
            ),
            SortField::Flag(b) => SortValue::Flag(*b),
        }
    }
}

/// -1, 0 or 1 as `a` is below, equal to or above `b`.
pub open spec fn sign(d: int) -> int {
    if d < 0 {
        -1
    } else if d > 0 {
        1
    } else {
        0
    }
}

/// Compares texts character by character, a prefix first; for texts this
/// is the order of their UTF-8 bytes, which `String`'s order goes by.
pub open spec fn text_order(a: Seq<char>, b: Seq<char>) -> int
    decreases a.len(),
{
    if a.len() == 0 {
        if b.len() == 0 {
            0
        } else {
            -1
        }
    } else if b.len() == 0 {
        1
    } else if a[0] != b[0] {
        sign(a[0] as int - b[0] as int)
    } else {
        text_order(a.drop_first(), b.drop_first())
    }
}

/// The rank of a kind of value, so that values of different kinds compare.
pub open spec fn value_rank(v: SortValue) -> int {
    match v {
        SortValue::Text(_) => 0,
        SortValue::Count(_) => 1,
        SortValue::Number(_) => 2,
        SortValue::Maybe(_) => 3,
        SortValue::Flag(_) => 4,
    }
}

/// Compares two sort values: texts as texts, numbers as numbers, nothing
/// before something, `false` before `true`.
pub open spec fn value_order(a: SortValue, b: SortValue) -> int {
    match (a, b) {
        (SortValue::Text(x), SortValue::Text(y)) => text_order(x, y),
        (SortValue::Count(x), SortValue::Count(y)) => sign(x - y),
        (SortValue::Number(x), SortValue::Number(y)) => sign(x - y),
        (SortValue::Maybe(x), SortValue::Maybe(y)) => match (x, y) {
            (Some(u), Some(v)) => sign(u - v),
            (None, None) => 0,
            (None, Some(_)) => -1,
            (Some(_), None) => 1,
        },
        (SortValue::Flag(x), SortValue::Flag(y)) => sign((if x { 1int } else { 0 }) - (if y { 1int } else { 0 })),
        _ => sign(value_rank(a) - value_rank(b)),
    }
}

/// Compares two rows by value, then by id.
pub open spec fn key_order(a: (SortValue, int), b: (SortValue, int)) -> int {
    let c = value_order(a.0, b.0);
    if c != 0 {
        c
    } else {
        sign(a.1 - b.1)
    }
}

/// Whether a row with key `a` may come before one with key `b` in the
/// given direction.
pub open spec fn row_le(a: (SortValue, int), b: (SortValue, int), direction: SortDirection) -> bool {
    match direction {
        SortDirection::Ascending => key_order(a, b) <= 0,
        SortDirection::Descending => key_order(b, a) <= 0,
    }
}

proof fn lemma_text_order(a: Seq<char>, b: Seq<char>, c: Seq<char>)
    ensures
        text_order(a, b) == -text_order(b, a),
        text_order(a, b) == 0 ==> a == b,
        text_order(a, b) <= 0 && text_order(b, c) <= 0 ==> text_order(a, c) <= 0,
        -1 <= text_order(a, b) <= 1,
    decreases a.len(),
{
    if a.len() > 0 && b.len() > 0 && c.len() > 0 {
        lemma_text_order(a.drop_first(), b.drop_first(), c.drop_first());
        if text_order(a, b) == 0 {
            assert(a =~= seq![a[0]] + a.drop_first());
            assert(b =~= seq![b[0]] + b.drop_first());
        }
    } else if a.len() > 0 && b.len() > 0 {
        lemma_text_order(a.drop_first(), b.drop_first(), c);
        if text_order(a, b) == 0 {
            assert(a =~= seq![a[0]] + a.drop_first());
            assert(b =~= seq![b[0]] + b.drop_first());
        }
    } else if a.len() == 0 && b.len() == 0 {
        assert(a =~= b);
    }
}

proof fn lemma_value_order(a: SortValue, b: SortValue, c: SortValue)
    ensures
        value_order(a, b) == -value_order(b, a),
        value_order(a, b) == 0 ==> a == b,
        value_order(a, b) <= 0 && value_order(b, c) <= 0 ==> value_order(a, c) <= 0,
{
    match (a, b, c) {
        (SortValue::Text(x), SortValue::Text(y), SortValue::Text(z)) => {
            lemma_text_order(x, y, z);
        },
        (SortValue::Text(x), SortValue::Text(y), _) => {
            lemma_text_order(x, y, y);
        },
        _ => {},
    }
}

/// The order of rows is a total preorder: any two rows compare, and it is
/// transitive.
pub proof fn lemma_row_le_total_transitive(
    a: (SortValue, int),
    b: (SortValue, int),
    c: (SortValue, int),
    direction: SortDirection,
)
    ensures
        row_le(a, b, direction) || row_le(b, a, direction),
        row_le(a, b, direction) && row_le(b, c, direction) ==> row_le(a, c, direction),
{
    lemma_value_order(a.0, b.0, c.0);
    lemma_value_order(c.0, b.0, a.0);
    lemma_value_order(a.0, c.0, b.0);
    lemma_value_order(b.0, a.0, c.0);
}

/// Compares two texts.
pub fn compare_text(a: &str, b: &str) -> (r: i8)
    ensures
        r as int == text_order(a@, b@),
{
    let n = a.unicode_len();
    let m = b.unicode_len();
    let mut i: usize = 0;
    assert(a@.skip(0) =~= a@);
    assert(b@.skip(0) =~= b@);
    while i < n && i < m
        invariant
            n == a@.len(),
            m == b@.len(),
            i <= n,
            i <= m,
            a@.subrange(0, i as int) == b@.subrange(0, i as int),
            text_order(a@, b@) == text_order(a@.skip(i as int), b@.skip(i as int)),
        decreases n - i,
    {
        let x = a.get_char(i);
        let y = b.get_char(i);
        assert(a@.skip(i as int)[0] == x);
        assert(b@.skip(i as int)[0] == y);
        if x != y {
            return if x < y {
                -1
            } else {
                1
            };
        }
        assert(a@.skip(i as int).drop_first() =~= a@.skip(i + 1));
        assert(b@.skip(i as int).drop_first() =~= b@.skip(i + 1));
        assert(a@.subrange(0, i + 1) =~= a@.subrange(0, i as int).push(x));
        assert(b@.subrange(0, i + 1) =~= b@.subrange(0, i as int).push(y));
        i = i + 1;
    }
    if i == n && i == m {
        0
    } else if i == n {
        -1
    } else {
        1
    }
}

/// Compares two sort fields.
pub fn compare_field(a: &SortField, b: &SortField) -> (r: i8)
    ensures
        r as int == value_order(a.value(), b.value()),
{
    match (a, b) {
        (SortField::Text(x), SortField::Text(y)) => compare_text(x.as_str(), y.as_str()),
        (SortField::Count(x), SortField::Count(y)) => if *x < *y {
            -1
        } else if *x > *y {
            1
        } else {
            0
        },
        (SortField::Number(x), SortField::Number(y)) => if *x < *y {
            -1
        } else if *x > *y {
            1
        } else {
            0
        },
        (SortField::Maybe(x), SortField::Maybe(y)) => match (x, y) {
            (Some(u), Some(v)) => if *u < *v {
                -1
            } else if *u > *v {
                1
            } else {
                0
            },
            (None, None) => 0,
            (None, Some(_)) => -1,
            (Some(_), None) => 1,
        },
        (SortField::Flag(x), SortField::Flag(y)) => if *x == *y {
            0
        } else if !*x {
            -1
        } else {
            1
        },
        _ => {
            let ra = field_rank(a);
            let rb = field_rank(b);
            if ra < rb {
                -1
            } else {
                1
            }
        },
    }
}

/// The rank of a field's kind.
fn field_rank(f: &SortField) -> (r: u8)
    ensures
        r as int == value_rank(f.value()),
{
    match f {
        SortField::Text(_) => 0,
        SortField::Count(_) => 1,
        SortField::Number(_) => 2,
        SortField::Maybe(_) => 3,
        SortField::Flag(_) => 4,
    }
}

/// The key of a row as the sort compares it.
pub open spec fn field_key(k: (SortField, i64)) -> (SortValue, int) {
    (k.0.value(), k.1 as int)
}

/// Whether a row with key `a` may come before one with key `b`.
fn key_le(a: &(SortField, i64), b: &(SortField, i64), direction: SortDirection) -> (r: bool)
    ensures
        r == row_le(field_key(*a), field_key(*b), direction),
{
    let c = compare_field(&a.0, &b.0);
    let ab: i8 = if c != 0 {
        c
    } else if a.1 < b.1 {
        -1
    } else if a.1 > b.1 {
        1
    } else {
        0
    };
    proof {
        lemma_value_order(a.0.value(), b.0.value(), b.0.value());
    }
    match direction {
        SortDirection::Ascending => ab <= 0,
        SortDirection::Descending => ab >= 0,
    }
}

/// Whether rows are in sort order.
pub open spec fn rows_sorted<T>(
    rows: Seq<T>,
    key_of: spec_fn(T) -> (SortValue, int),
    direction: SortDirection,
) -> bool {
    forall|i: int, j: int|
        0 <= i < j < rows.len() ==> row_le(key_of(rows[i]), key_of(rows[j]), direction)
}

/// Sorts rows whose keys are given alongside them, keeping equal rows in
/// their order: the result holds the same rows, in sort order.
pub fn sort_by_keys<T>(
    rows: Vec<T>,
    keys: Vec<(SortField, i64)>,
    direction: SortDirection,
    key_of: Ghost<spec_fn(T) -> (SortValue, int)>,
) -> (r: Vec<T>)
    requires
        rows@.len() == keys@.len(),
        forall|i: int| 0 <= i < rows@.len() ==> field_key(#[trigger] keys@[i]) == key_of@(rows@[i]),
    ensures
        r@.to_multiset() == rows@.to_multiset(),
        rows_sorted(r@, key_of@, direction),
{
    broadcast use vstd::seq_lib::group_to_multiset_ensures;
    broadcast use vstd::multiset::group_multiset_axioms;
    broadcast use vstd::seq_lib::to_multiset_remove;
    broadcast use vstd::seq_lib::to_multiset_insert;

    let ghost all = rows@;
    let mut rest = rows;
    let mut rest_keys = keys;
    let mut out: Vec<T> = Vec::new();
    let mut out_keys: Vec<(SortField, i64)> = Vec::new();
    while rest.len() > 0
        invariant
            rest@.len() == rest_keys@.len(),
            out@.len() == out_keys@.len(),
            forall|i: int| 0 <= i < rest@.len() ==> field_key(#[trigger] rest_keys@[i]) == key_of@(rest@[i]),
            forall|i: int| 0 <= i < out@.len() ==> field_key(#[trigger] out_keys@[i]) == key_of@(out@[i]),
            out@.to_multiset().add(rest@.to_multiset()) == all.to_multiset(),
            rows_sorted(out@, key_of@, direction),
        decreases rest@.len(),
    {
        let ghost rest_before = rest@;
        let ghost rest_keys_before = rest_keys@;
        let row = rest.remove(0);
        let key = rest_keys.remove(0);
        assert(field_key(key) == key_of@(row)) by {
            assert(field_key(rest_keys_before[0]) == key_of@(rest_before[0]));
        }
        assert forall|i: int| 0 <= i < rest@.len() implies field_key(#[trigger] rest_keys@[i]) == key_of@(rest@[i]) by {
            assert(rest_keys@[i] == rest_keys_before[i + 1]);
            assert(rest@[i] == rest_before[i + 1]);
        }
        let mut p: usize = 0;
        while p < out_keys.len() && key_le(&out_keys[p], &key, direction)
            invariant
                p <= out_keys@.len(),
                out@.len() == out_keys@.len(),
                forall|i: int| 0 <= i < out@.len() ==> field_key(#[trigger] out_keys@[i]) == key_of@(out@[i]),
                field_key(key) == key_of@(row),
                forall|i: int| 0 <= i < p ==> row_le(key_of@(#[trigger] out@[i]), key_of@(row), direction),
            decreases out_keys@.len() - p,
        {
            assert(field_key(out_keys@[p as int]) == key_of@(out@[p as int]));
            p = p + 1;
        }
        let ghost before = out@;
        let ghost before_keys = out_keys@;
        proof {
            if p < before.len() {
                assert(field_key(before_keys[p as int]) == key_of@(before[p as int]));
                assert(!row_le(key_of@(before[p as int]), key_of@(row), direction));
            }
        }
        out.insert(p, row);
        out_keys.insert(p, key);
        proof {
            assert forall|i: int| 0 <= i < out@.len() implies field_key(#[trigger] out_keys@[i]) == key_of@(out@[i]) by {
                if i < p {
                    assert(out_keys@[i] == before_keys[i]);
                    assert(field_key(before_keys[i]) == key_of@(before[i]));
                } else if i > p {
                    assert(out_keys@[i] == before_keys[i - 1]);
                    assert(field_key(before_keys[i - 1]) == key_of@(before[i - 1]));
                }
            }
            assert forall|i: int, j: int| 0 <= i < j < out@.len() implies row_le(
                key_of@(out@[i]),
                key_of@(out@[j]),
                direction,
            ) by {
                let kr = key_of@(row);
                if j < p {
                    assert(row_le(key_of@(before[i]), key_of@(before[j]), direction));
                } else if j == p {
                    assert(row_le(key_of@(before[i]), kr, direction));
                } else if i < p {
                    let kb = key_of@(before[j - 1]);
                    assert(row_le(key_of@(before[i]), kr, direction));
                    lemma_row_le_total_transitive(key_of@(before[p as int]), kr, kb, direction);
                    lemma_row_le_total_transitive(kr, key_of@(before[p as int]), kb, direction);
                    if p < j - 1 {
                        assert(row_le(key_of@(before[p as int]), kb, direction));
                    }
                    lemma_row_le_total_transitive(key_of@(before[i]), kr, kb, direction);
                } else if i == p {
                    let kb = key_of@(before[j - 1]);
                    lemma_row_le_total_transitive(key_of@(before[p as int]), kr, kb, direction);
                    lemma_row_le_total_transitive(kr, key_of@(before[p as int]), kb, direction);
                    if p < j - 1 {
                        assert(row_le(key_of@(before[p as int]), kb, direction));
                    }
                } else {
                    assert(row_le(key_of@(before[i - 1]), key_of@(before[j - 1]), direction));
                }
            }
            assert(out@ == before.insert(p as int, row));
            vstd::seq_lib::to_multiset_insert(before, p as int, row);
            assert(out@.to_multiset() == before.to_multiset().insert(row));
            assert(rest@ == rest_before.remove(0));
            vstd::seq_lib::to_multiset_remove(rest_before, 0);
            assert(rest@.to_multiset() == rest_before.to_multiset().remove(row));
            assert(rest_before.to_multiset().count(row) > 0) by {
                rest_before.to_multiset_ensures();
                assert(rest_before[0] == row);
                assert(rest_before.contains(row));
            }
            assert(rest_before.to_multiset() =~= rest@.to_multiset().insert(row));
            assert(out@.to_multiset().add(rest@.to_multiset()) =~= before.to_multiset().add(
                rest_before.to_multiset(),
            ));
        }
    }
    assert(rest@.to_multiset() =~= vstd::multiset::Multiset::empty());
    assert(out@.to_multiset().add(rest@.to_multiset()) =~= out@.to_multiset());
    out
}

} // verus!

verus! {

/// Whether no two rows share an id.
pub open spec fn distinct_ids<T>(rows: Seq<T>, key_of: spec_fn(T) -> (SortValue, int)) -> bool {
    forall|i: int, j: int|
        #![trigger rows[i], rows[j]]
        0 <= i < j < rows.len() ==> key_of(rows[i]).1 != key_of(rows[j]).1
}

/// Rows with the same rows as ones with distinct ids have distinct ids too.
proof fn lemma_distinct_ids_transfer<T>(
    rows: Seq<T>,
    other: Seq<T>,
    key_of: spec_fn(T) -> (SortValue, int),
)
    requires
        distinct_ids(rows, key_of),
        other.to_multiset() == rows.to_multiset(),
    ensures
        distinct_ids(other, key_of),
{
    broadcast use vstd::seq_lib::group_to_multiset_ensures;

    assert(rows.no_duplicates()) by {
        assert forall|i: int, j: int|
            0 <= i < rows.len() && 0 <= j < rows.len() && i != j implies rows[i] != rows[j] by {
            if i < j {
                assert(key_of(rows[i]).1 != key_of(rows[j]).1);
            } else {
                assert(key_of(rows[j]).1 != key_of(rows[i]).1);
            }
        }
    }
    rows.lemma_multiset_has_no_duplicates();
    other.lemma_multiset_has_no_duplicates_conv();
    assert forall|i: int, j: int| 0 <= i < j < other.len() implies key_of(other[i]).1 != key_of(
        other[j],
    ).1 by {
        assert(other.contains(other[i]));
        assert(other.contains(other[j]));
        assert(rows.to_multiset().count(other[i]) > 0);
        assert(rows.to_multiset().count(other[j]) > 0);
        assert(rows.contains(other[i]));
        assert(rows.contains(other[j]));
        let a = choose|a: int| 0 <= a < rows.len() && rows[a] == other[i];
        let b = choose|b: int| 0 <= b < rows.len() && rows[b] == other[j];
        assert(other[i] != other[j]);
        if a < b {
            assert(key_of(rows[a]).1 != key_of(rows[b]).1);
        } else {
            assert(key_of(rows[b]).1 != key_of(rows[a]).1);
        }
    }
}

/// Rows sorted descending are the reverse of the same rows sorted
/// ascending, where no two share an id.
proof fn lemma_reverse_unique<T>(s: Seq<T>, t: Seq<T>, key_of: spec_fn(T) -> (SortValue, int))
    requires
        s.to_multiset() == t.to_multiset(),
        rows_sorted(s, key_of, SortDirection::Ascending),
        rows_sorted(t, key_of, SortDirection::Descending),
        distinct_ids(s, key_of),
        distinct_ids(t, key_of),
    ensures
        t == s.reverse(),
    decreases s.len(),
{
    broadcast use vstd::seq_lib::group_to_multiset_ensures;
    broadcast use vstd::multiset::group_multiset_axioms;

    assert(s.len() == s.to_multiset().len());
    assert(t.len() == t.to_multiset().len());
    let n = s.len() as int;
    if n == 0 {
        assert(t =~= s.reverse());
    } else {
        let x = s[0];
        assert(s.contains(x));
        assert(s.to_multiset().count(x) > 0);
        assert(t.to_multiset().count(x) > 0);
        assert(t.contains(x));
        let k = choose|k: int| 0 <= k < n && t[k] == x;
        let y = t[n - 1];
        assert(t.contains(y));
        assert(t.to_multiset().count(y) > 0);
        assert(s.to_multiset().count(y) > 0);
        assert(s.contains(y));
        let m = choose|m: int| 0 <= m < n && s[m] == y;
        if k < n - 1 {
            assert(row_le(key_of(t[k]), key_of(t[n - 1]), SortDirection::Descending));
            assert(key_of(t[k]).1 != key_of(t[n - 1]).1);
            lemma_value_order(key_of(x).0, key_of(y).0, key_of(y).0);
            if m == 0 {
                assert(y == x);
                assert(false);
            } else {
                assert(row_le(key_of(s[0]), key_of(s[m]), SortDirection::Ascending));
                assert(key_of(s[0]).1 != key_of(s[m]).1);
                assert(false);
            }
        }
        assert(t[n - 1] == x);
        let s2 = s.drop_first();
        let t2 = t.drop_last();
        assert(s.remove(0) =~= s2);
        assert(t.remove(n - 1) =~= t2);
        assert(s2.to_multiset() == t2.to_multiset());
        assert forall|i: int, j: int| 0 <= i < j < s2.len() implies row_le(
            key_of(s2[i]),
            key_of(s2[j]),
            SortDirection::Ascending,
        ) by {
            assert(s2[i] == s[i + 1] && s2[j] == s[j + 1]);
        }
        assert forall|i: int, j: int| 0 <= i < j < t2.len() implies row_le(
            key_of(t2[i]),
            key_of(t2[j]),
            SortDirection::Descending,
        ) by {
            assert(t2[i] == t[i] && t2[j] == t[j]);
        }
        assert forall|i: int, j: int| 0 <= i < j < s2.len() implies key_of(s2[i]).1 != key_of(
            s2[j],
        ).1 by {
            assert(s2[i] == s[i + 1] && s2[j] == s[j + 1]);
        }
        assert forall|i: int, j: int| 0 <= i < j < t2.len() implies key_of(t2[i]).1 != key_of(
            t2[j],
        ).1 by {
            assert(t2[i] == t[i] && t2[j] == t[j]);
        }
        lemma_reverse_unique(s2, t2, key_of);
        assert forall|i: int| 0 <= i < n implies t[i] == s.reverse()[i] by {
            if i < n - 1 {
                assert(t[i] == t2[i]);
                assert(t2[i] == s2.reverse()[i]);
                assert(s2.reverse()[i] == s2[n - 2 - i]);
                assert(s2[n - 2 - i] == s[n - 1 - i]);
            }
        }
        assert(t =~= s.reverse());
    }
}

/// Sorting the same rows, no two of which share an id, descending gives
/// exactly the reverse of sorting them ascending.
pub proof fn lemma_descending_reverses_ascending<T>(
    rows: Seq<T>,
    ascending: Seq<T>,
    descending: Seq<T>,
    key_of: spec_fn(T) -> (SortValue, int),
)
    requires
        distinct_ids(rows, key_of),
        ascending.to_multiset() == rows.to_multiset(),
        descending.to_multiset() == rows.to_multiset(),
        rows_sorted(ascending, key_of, SortDirection::Ascending),
        rows_sorted(descending, key_of, SortDirection::Descending),
    ensures
        descending == ascending.reverse(),
{
    lemma_distinct_ids_transfer(rows, ascending, key_of);
    lemma_distinct_ids_transfer(rows, descending, key_of);
    lemma_reverse_unique(ascending, descending, key_of);
}

} // verus!

verus! {

/// Whether a row with key `a` comes strictly before one with key `b` in the
/// given direction.
pub open spec fn row_lt(a: (SortValue, int), b: (SortValue, int), direction: SortDirection) -> bool {
    match direction {
        SortDirection::Ascending => key_order(a, b) < 0,
        SortDirection::Descending => key_order(b, a) < 0,
    }
}

/// Whether every row comes strictly before the next one.
pub open spec fn strictly_sorted<T>(
    rows: Seq<T>,
    key_of: spec_fn(T) -> (SortValue, int),
    direction: SortDirection,
) -> bool {
    forall|i: int|
        #![trigger rows[i]]
        0 <= i < rows.len() - 1 ==> row_lt(key_of(rows[i]), key_of(rows[i + 1]), direction)
}

/// Rows no two of which share an id, once sorted, come each strictly
/// before the next.
pub proof fn lemma_sorted_distinct_is_strict<T>(
    rows: Seq<T>,
    sorted: Seq<T>,
    key_of: spec_fn(T) -> (SortValue, int),
    direction: SortDirection,
)
    requires
        distinct_ids(rows, key_of),
        sorted.to_multiset() == rows.to_multiset(),
        rows_sorted(sorted, key_of, direction),
    ensures
        strictly_sorted(sorted, key_of, direction),
{
    lemma_distinct_ids_transfer(rows, sorted, key_of);
    assert forall|i: int| 0 <= i < sorted.len() - 1 implies row_lt(
        key_of(#[trigger] sorted[i]),
        key_of(sorted[i + 1]),
        direction,
    ) by {
        assert(row_le(key_of(sorted[i]), key_of(sorted[i + 1]), direction));
        assert(key_of(sorted[i]).1 != key_of(sorted[i + 1]).1);
    }
}

} // verus!

verus! {

/// Whether two counts are in the given order.
pub open spec fn counts_in_order(a: int, b: int, direction: SortDirection) -> bool {
    match direction {
        SortDirection::Ascending => a <= b,
        SortDirection::Descending => a >= b,
    }
}

/// Whether two texts are in the given order, character by character.
pub open spec fn texts_in_order(a: Seq<char>, b: Seq<char>, direction: SortDirection) -> bool {
    match direction {
        SortDirection::Ascending => text_order(a, b) <= 0,
        SortDirection::Descending => text_order(b, a) <= 0,
    }
}

/// Whether two flags are in the given order: `false` first when ascending.
pub open spec fn flags_in_order(a: bool, b: bool, direction: SortDirection) -> bool {
    match direction {
        SortDirection::Ascending => !(a && !b),
        SortDirection::Descending => !(!a && b),
    }
}

/// Whether two optional numbers are in the given order: none first when
/// ascending, then by value.
pub open spec fn options_in_order(a: Option<int>, b: Option<int>, direction: SortDirection) -> bool {
    match direction {
        SortDirection::Ascending => match (a, b) {
            (Some(x), Some(y)) => x <= y,
            (Some(_), None) => false,
            _ => true,
        },
        SortDirection::Descending => match (a, b) {
            (Some(x), Some(y)) => x >= y,
            (None, Some(_)) => false,
            _ => true,
        },
    }
}

/// Whether two column values are in the given order, as the table shows
/// them: counts and numbers by size, texts by their characters, flags with
/// `false` first, and absent values first, when ascending.
pub open spec fn values_in_order(a: SortValue, b: SortValue, direction: SortDirection) -> bool {
    match (a, b) {
        (SortValue::Text(x), SortValue::Text(y)) => texts_in_order(x, y, direction),
        (SortValue::Count(x), SortValue::Count(y)) => counts_in_order(x, y, direction),
        (SortValue::Number(x), SortValue::Number(y)) => counts_in_order(x, y, direction),
        (SortValue::Flag(x), SortValue::Flag(y)) => flags_in_order(x, y, direction),
        (SortValue::Maybe(x), SortValue::Maybe(y)) => options_in_order(x, y, direction),
        _ => true,
    }
}

/// In sorted rows the column values come in order: whatever the ids, a
/// row never comes before one whose column value belongs before its own.
pub proof fn lemma_sorted_rows_values_in_order<T>(
    rows: Seq<T>,
    key_of: spec_fn(T) -> (SortValue, int),
    direction: SortDirection,
)
    requires
        rows_sorted(rows, key_of, direction),
    ensures
        forall|i: int, j: int|
            #![trigger rows[i], rows[j]]
            0 <= i < j < rows.len() ==> values_in_order(key_of(rows[i]).0, key_of(rows[j]).0, direction),
{
    assert forall|i: int, j: int| 0 <= i < j < rows.len() implies values_in_order(
        #[trigger] key_of(rows[i]).0,
        #[trigger] key_of(rows[j]).0,
        direction,
    ) by {
        let a = key_of(rows[i]);
        let b = key_of(rows[j]);
        assert(row_le(a, b, direction));
        lemma_value_order(a.0, b.0, b.0);
    }
}

} // verus!
