//! A materialized row and the two ways of addressing its columns.

use vstd::prelude::*;
use crate::decode::FromValue;
use crate::error::{Error, ErrorView};
use crate::value::{views_of, Value, ValueView};

verus! {

/// One row of a result: its values in column order, and the column names
/// in the same order. A row is a snapshot: it stays valid after the
/// statement has moved on.
///
/// The names are either absent altogether or there is one for each value.
#[derive(Debug)]
pub struct Row {
    values: Vec<Value>,
    names: Vec<String>,
}

/// The mathematical content of a [`Row`].
pub struct RowView {
    pub values: Seq<ValueView>,
    pub names: Seq<Seq<char>>,
}

/// The contents of a sequence of strings, element by element.
pub open spec fn names_of(names: Seq<String>) -> Seq<Seq<char>> {
    names.map_values(|s: String| s@)
}

/// Whether `i` is the position of the first of `names` that equals `name`.
pub open spec fn is_first_named(names: Seq<Seq<char>>, name: Seq<char>, i: int) -> bool {
    &&& 0 <= i < names.len()
    &&& names[i] == name
    &&& forall|j: int| 0 <= j < i ==> names[j] != name
}

impl RowView {
    /// Names are absent, or there is one for each value.
    pub open spec fn wf(self) -> bool {
        self.names.len() == 0 || self.names.len() == self.values.len()
    }

    /// What addressing by the position `idx` resolves to.
    pub open spec fn at_position(self, idx: int) -> Result<int, ErrorView> {
        if 0 <= idx < self.values.len() {
            Ok(idx)
        } else {
            Err(ErrorView::InvalidColumnIndex(idx))
        }
    }

    /// What addressing by `name` resolves to: the earliest column of that
    /// name.
    pub open spec fn at_name(self, name: Seq<char>) -> Result<int, ErrorView> {
        if exists|i: int| is_first_named(self.names, name, i) {
            Ok(choose|i: int| is_first_named(self.names, name, i))
        } else {
            Err(ErrorView::InvalidColumnName(name))
        }
    }
}

/// The earliest match wins: where `i` is the position of the first column
/// called `name`, a lookup by `name` resolves to `i`, whatever columns of
/// that name follow.
pub proof fn lemma_first_match_wins(row: RowView, name: Seq<char>, i: int)
    requires
        is_first_named(row.names, name, i),
    ensures
        row.at_name(name) == Ok::<int, ErrorView>(i),
{
    let first = choose|k: int| is_first_named(row.names, name, k);
    assert(is_first_named(row.names, name, first));
    assert(first == i);
}

/// A lookup by name fails exactly where no column has the name, and then
/// with that name; where it succeeds, it resolves to the first column of
/// the name.
pub proof fn lemma_name_lookup(row: RowView, name: Seq<char>)
    ensures
        row.at_name(name) is Err <==> forall|i: int|
            0 <= i < row.names.len() ==> row.names[i] != name,
        row.at_name(name) is Err ==> row.at_name(name) == Err::<int, ErrorView>(
            ErrorView::InvalidColumnName(name),
        ),
        row.at_name(name) is Ok ==> is_first_named(row.names, name, row.at_name(name)->Ok_0),
{
    if exists|i: int| 0 <= i < row.names.len() && row.names[i] == name {
        let i = choose|i: int| 0 <= i < row.names.len() && row.names[i] == name;
        lemma_has_first(row.names, name, i);
    }
}

/// Where some column up to `i` is called `name`, one of them is the first.
proof fn lemma_has_first(names: Seq<Seq<char>>, name: Seq<char>, i: int)
    requires
        0 <= i < names.len(),
        names[i] == name,
    ensures
        exists|k: int| is_first_named(names, name, k),
    decreases i,
{
    if exists|j: int| 0 <= j < i && names[j] == name {
        let j = choose|j: int| 0 <= j < i && names[j] == name;
        lemma_has_first(names, name, j);
    } else {
        assert(is_first_named(names, name, i));
    }
}

/// In a well-formed row a lookup by name never leaves the row: the
/// position it resolves to has a value.
pub proof fn lemma_named_column_has_value(row: RowView, name: Seq<char>)
    requires
        row.wf(),
    ensures
        row.at_name(name) is Ok ==> 0 <= row.at_name(name)->Ok_0 < row.values.len(),
{
    lemma_name_lookup(row, name);
}

/// The first position at which `names` and `values` fail to pair up.
pub open spec fn first_unpaired(values: int, names: int) -> int {
    if names < values {
        names
    } else {
        values
    }
}

/// An index result as plain values.
pub open spec fn index_view(r: Result<usize, Error>) -> Result<int, ErrorView> {
    match r {
        Ok(i) => Ok(i as int),
        Err(e) => Err(e@),
    }
}

impl View for Row {
    type V = RowView;

    closed spec fn view(&self) -> RowView {
        RowView { values: views_of(self.values@), names: names_of(self.names@) }
    }
}

/// A way of addressing one column of a row.
pub trait RowIndex {
    /// The position that this index stands for in `row`, or the failure
    /// that looking it up ends in.
    spec fn resolved(&self, row: RowView) -> Result<int, ErrorView>;

    /// Resolves the index against `row`. A position that comes back lies
    /// inside the row.
    fn idx(&self, row: &Row) -> (r: Result<usize, Error>)
        ensures
            index_view(r) == self.resolved(row@),
            r is Ok ==> r->Ok_0 < row@.values.len(),
    ;
}

impl Row {
    #[verifier::type_invariant]
    spec fn paired(&self) -> bool {
        self.names@.len() == 0 || self.names@.len() == self.values@.len()
    }

    /// Builds a row from values and their column names, one name for each
    /// value. Where the two differ in number, the first position without a
    /// partner is reported as out of range.
    pub fn new(values: Vec<Value>, names: Vec<String>) -> (r: Result<Row, Error>)
        ensures
            r is Ok <==> names@.len() == values@.len(),
            r is Ok ==> r->Ok_0@ == (RowView {
                values: views_of(values@),
                names: names_of(names@),
            }),
            r is Err ==> r->Err_0@ == ErrorView::InvalidColumnIndex(
                first_unpaired(values@.len() as int, names@.len() as int),
            ),
    {
        let count = values.len();
        let named = names.len();
        if named == count {
            Ok(Row { values, names })
        } else if named < count {
            Err(Error::InvalidColumnIndex(named))
        } else {
            Err(Error::InvalidColumnIndex(count))
        }
    }

    /// Builds a row of deep copies of `values`, without column names: such
    /// a row answers no lookup by name.
    pub fn from_iter(values: &[Value]) -> (r: Row)
        ensures
            r@.values == views_of(values@),
            r@.names.len() == 0,
    {
        let mut copies: Vec<Value> = Vec::new();
        let mut i: usize = 0;
        while i < values.len()
            invariant
                i <= values@.len(),
                copies@.len() == i,
                forall|j: int| 0 <= j < i ==> copies@[j]@ == values@[j]@,
            decreases values@.len() - i,
        {
            copies.push(values[i].clone());
            i = i + 1;
        }
        assert(views_of(copies@) =~= views_of(values@));
        Row { values: copies, names: Vec::new() }
    }

    /// The number of columns. Every row is well-formed: its names are
    /// absent, or there are as many as columns.
    pub fn column_count(&self) -> (n: usize)
        ensures
            n == self@.values.len(),
            self@.wf(),
    {
        proof {
            use_type_invariant(self);
        }
        self.values.len()
    }

    /// The position of the earliest column called `name`. It lies inside
    /// the row, since a row that has names has one for each value.
    pub fn column_index(&self, name: &str) -> (r: Result<usize, Error>)
        ensures
            index_view(r) == self@.at_name(name@),
            r is Ok ==> r->Ok_0 < self@.values.len(),
    {
        proof {
            use_type_invariant(self);
        }
        let wanted = name.to_owned();
        let mut i: usize = 0;
        while i < self.names.len()
            invariant
                i <= self.names@.len(),
                self.names@.len() == 0 || self.names@.len() == self.values@.len(),
                wanted@ == name@,
                forall|j: int| 0 <= j < i ==> names_of(self.names@)[j] != name@,
            decreases self.names@.len() - i,
        {
            if self.names[i] == wanted {
                proof {
                    assert(self@.names[i as int] == self.names@[i as int]@);
                    lemma_first_match_wins(self@, name@, i as int);
                }
                return Ok(i);
            }
            i = i + 1;
        }
        proof {
            lemma_name_lookup(self@, name@);
        }
        Err(Error::InvalidColumnName(wanted))
    }

    /// The value of the column that `idx` addresses, as a deep copy.
    pub fn get_value<I: RowIndex>(&self, idx: I) -> (r: Result<Value, Error>)
        ensures
            match idx.resolved(self@) {
                Ok(i) => r is Ok && r->Ok_0@ == self@.values[i],
                Err(e) => r is Err && r->Err_0@ == e,
            },
    {
        match idx.idx(self) {
            Ok(i) => Ok(self.values[i].clone()),
            Err(e) => Err(e),
        }
    }

    /// The value of the column that `idx` addresses, decoded as `T`. A
    /// failed lookup is reported as it is; a value that `T` does not accept
    /// is a conversion failure.
    pub fn get<I: RowIndex, T: FromValue>(&self, idx: I) -> (r: Result<T, Error>)
        ensures
            match idx.resolved(self@) {
                Ok(i) => {
                    &&& r is Ok <==> T::accepts(self@.values[i])
                    &&& r is Ok ==> T::decodes(self@.values[i], r->Ok_0)
                    &&& r is Err ==> r->Err_0 is ConversionFailure
                },
                Err(e) => r is Err && r->Err_0@ == e,
            },
    {
        match idx.idx(self) {
            Ok(i) => T::from_sql(self.values[i].clone()),
            Err(e) => Err(e),
        }
    }
}

impl RowIndex for usize {
    open spec fn resolved(&self, row: RowView) -> Result<int, ErrorView> {
        row.at_position(*self as int)
    }

    fn idx(&self, row: &Row) -> (r: Result<usize, Error>) {
        if *self >= row.column_count() {
            Err(Error::InvalidColumnIndex(*self))
        } else {
            Ok(*self)
        }
    }
}

impl RowIndex for &'_ str {
    open spec fn resolved(&self, row: RowView) -> Result<int, ErrorView> {
        row.at_name(self@)
    }

    fn idx(&self, row: &Row) -> (r: Result<usize, Error>) {
        row.column_index(self)
    }
}

} // verus!
