use vstd::prelude::*;
use crate::clock::{is_rfc3339, Timestamp};
use crate::json::{json_of_texts, texts_from_json, texts_of_json, texts_to_json};
use crate::text::same_text;

verus! {

/// One value bound to, or read from, a column.
#[derive(Debug, Clone, PartialEq)]
pub enum SqlValue {
    Null,
    Integer(i64),
    /// A REAL column, held as a whole number of millionths.
    RealMicros(i64),
    Text(String),
}

/// The mathematical value of a [`SqlValue`].
pub enum Cell {
    Null,
    Integer(int),
    RealMicros(int),
    Text(Seq<char>),
}

impl View for SqlValue {
    type V = Cell;

    open spec fn view(&self) -> Cell {
        match self {
            SqlValue::Null => Cell::Null,
            SqlValue::Integer(i) => Cell::Integer(*i as int),
            SqlValue::RealMicros(m) => Cell::RealMicros(*m as int),
            SqlValue::Text(s) => Cell::Text(s@),
        }
    }
}

impl DeepView for SqlValue {
    type V = Cell;

    open spec fn deep_view(&self) -> Cell {
        self@
    }
}

/// The failures of a store operation.
#[derive(Debug, Clone, PartialEq, Eq)]
pub enum StoreError {
    /// The target of an update or a status change does not exist.
    NotFound,
    /// A record with the same id already exists.
    Conflict,
    /// The shared connection could not be locked.
    LockFailure(String),
    /// The engine failed to prepare, run or map a statement.
    Statement(String),
    /// The column at this position is missing or holds a value of the wrong type.
    InvalidColumn(usize),
    /// The column at this position holds a value that cannot be decoded.
    Encoding(usize),
}

/// The type a column must hold.
#[derive(Debug, Clone, Copy, PartialEq, Eq, Structural)]
pub enum ColumnKind {
    /// Text.
    Text,
    /// Text or NULL.
    OptText,
    /// An integer that fits in 32 unsigned bits.
    Count,
    /// An integer read as a flag: zero is false.
    Flag,
    /// A real number.
    Micros,
}

/// Whether a cell holds a value of the given kind.
pub open spec fn fits(c: Cell, k: ColumnKind) -> bool {
    match k {
        ColumnKind::Text => c is Text,
        ColumnKind::OptText => c is Text || c is Null,
        ColumnKind::Count => c matches Cell::Integer(i) && 0 <= i <= u32::MAX,
        ColumnKind::Flag => c is Integer,
        ColumnKind::Micros => c is RealMicros,
    }
}

/// Whether a row holds, in order, a value of each kind.
pub open spec fn fits_all(row: Seq<Cell>, kinds: Seq<ColumnKind>) -> bool {
    kinds.len() <= row.len() && forall|i: int| 0 <= i < kinds.len() ==> fits(row[i], kinds[i])
}

/// The first position, from `from` on, whose column is missing or misfits;
/// `kinds.len()` when there is none.
pub open spec fn first_misfit(row: Seq<Cell>, kinds: Seq<ColumnKind>, from: int) -> int
    decreases kinds.len() - from,
{
    if from < 0 || from >= kinds.len() {
        kinds.len() as int
    } else if from >= row.len() || !fits(row[from], kinds[from]) {
        from
    } else {
        first_misfit(row, kinds, from + 1)
    }
}

/// The error for a row that does not fit the kinds.
pub open spec fn misfit_error(row: Seq<Cell>, kinds: Seq<ColumnKind>) -> StoreError {
    StoreError::InvalidColumn(first_misfit(row, kinds, 0) as usize)
}

/// Checks that a row holds a value of each kind, in order.
pub fn check_columns(row: &Vec<SqlValue>, kinds: &Vec<ColumnKind>) -> (r: Result<(), StoreError>)
    requires
        kinds@.len() < usize::MAX,
    ensures
        r is Ok <==> fits_all(row.deep_view(), kinds@),
        r is Err ==> r == Err::<(), StoreError>(misfit_error(row.deep_view(), kinds@)),
{
    let ghost cells = row.deep_view();
    let mut i: usize = 0;
    while i < kinds.len()
        invariant
            cells == row.deep_view(),
            cells.len() == row@.len(),
            i <= kinds@.len(),
            kinds@.len() < usize::MAX,
            forall|j: int| #![trigger kinds@[j]] 0 <= j < i ==> j < cells.len() && fits(cells[j], kinds@[j]),
            first_misfit(cells, kinds@, 0) == first_misfit(cells, kinds@, i as int),
        decreases kinds@.len() - i,
    {
        let ok = if i >= row.len() {
            false
        } else {
            assert(cells[i as int] == row@[i as int]@);
            let k = kinds[i];
            match &row[i] {
                SqlValue::Text(_) => k == ColumnKind::Text || k == ColumnKind::OptText,
                SqlValue::Null => k == ColumnKind::OptText,
                SqlValue::Integer(v) => k == ColumnKind::Flag || (k == ColumnKind::Count && 0
                    <= *v && *v <= u32::MAX as i64),
                SqlValue::RealMicros(_) => k == ColumnKind::Micros,
            }
        };
        if !ok {
            assert(first_misfit(cells, kinds@, i as int) == i);
            return Err(StoreError::InvalidColumn(i));
        }
        assert(first_misfit(cells, kinds@, i as int) == first_misfit(cells, kinds@, i + 1));
        i = i + 1;
    }
    if kinds.len() > 0 {
        let ghost last = kinds@.len() - 1;
        assert(0 <= last < i);
        let ghost k = kinds@[last];
        assert(last < cells.len());
    }
    assert(fits_all(cells, kinds@));
    Ok(())
}

/// The text of a text cell.
pub open spec fn text_cell(c: Cell) -> Seq<char> {
    match c {
        Cell::Text(s) => s,
        _ => Seq::empty(),
    }
}

/// The text of a text-or-NULL cell.
pub open spec fn opt_text_cell(c: Cell) -> Option<Seq<char>> {
    match c {
        Cell::Text(s) => Some(s),
        _ => None,
    }
}

/// The number in an integer or real cell.
pub open spec fn number_cell(c: Cell) -> int {
    match c {
        Cell::Integer(i) => i,
        Cell::RealMicros(m) => m,
        _ => 0,
    }
}

/// A timestamp cell read leniently: text that does not parse is absent.
pub open spec fn stamp_cell(c: Cell) -> Option<Seq<char>> {
    match c {
        Cell::Text(s) => if is_rfc3339(s) {
            Some(s)
        } else {
            None
        },
        _ => None,
    }
}

/// A list cell: the strings of its JSON array, or none when it does not parse.
pub open spec fn list_cell(c: Cell) -> Seq<Seq<char>> {
    match texts_of_json(text_cell(c)) {
        Some(v) => v,
        None => Seq::empty(),
    }
}

/// The text at a column that holds text.
pub fn text_at(row: &Vec<SqlValue>, i: usize) -> (r: String)
    requires
        i < row@.len(),
        row@[i as int]@ is Text,
    ensures
        r@ == text_cell(row@[i as int]@),
{
    match &row[i] {
        SqlValue::Text(s) => s.clone(),
        _ => String::new(),
    }
}

/// The text at a column that holds text or NULL.
pub fn opt_text_at(row: &Vec<SqlValue>, i: usize) -> (r: Option<String>)
    requires
        i < row@.len(),
    ensures
        r.deep_view() == opt_text_cell(row@[i as int]@),
{
    match &row[i] {
        SqlValue::Text(s) => Some(s.clone()),
        _ => None,
    }
}

/// The count at a column that holds one.
pub fn count_at(row: &Vec<SqlValue>, i: usize) -> (r: u32)
    requires
        i < row@.len(),
        fits(row@[i as int]@, ColumnKind::Count),
    ensures
        r as int == number_cell(row@[i as int]@),
{
    match &row[i] {
        SqlValue::Integer(v) => *v as u32,
        _ => 0,
    }
}

/// The flag at a column that holds an integer.
pub fn flag_at(row: &Vec<SqlValue>, i: usize) -> (r: bool)
    requires
        i < row@.len(),
        row@[i as int]@ is Integer,
    ensures
        r == (number_cell(row@[i as int]@) != 0),
{
    match &row[i] {
        SqlValue::Integer(v) => *v != 0,
        _ => false,
    }
}

/// The millionths at a column that holds a real number.
pub fn micros_at(row: &Vec<SqlValue>, i: usize) -> (r: i64)
    requires
        i < row@.len(),
        row@[i as int]@ is RealMicros,
    ensures
        r as int == number_cell(row@[i as int]@),
{
    match &row[i] {
        SqlValue::RealMicros(m) => *m,
        _ => 0,
    }
}

/// The timestamp at a column, read leniently.
pub fn opt_stamp_at(row: &Vec<SqlValue>, i: usize) -> (r: Option<Timestamp>)
    requires
        i < row@.len(),
    ensures
        r.deep_view() == stamp_cell(row@[i as int]@),
{
    match &row[i] {
        SqlValue::Text(s) => Timestamp::parse(s.as_str()),
        _ => None,
    }
}

/// The timestamp at a column that must hold one.
pub fn stamp_at(row: &Vec<SqlValue>, i: usize) -> (r: Result<Timestamp, StoreError>)
    requires
        i < row@.len(),
        row@[i as int]@ is Text,
    ensures
        match r {
            Ok(t) => is_rfc3339(text_cell(row@[i as int]@)) && t@ == text_cell(row@[i as int]@),
            Err(e) => !is_rfc3339(text_cell(row@[i as int]@)) && e == StoreError::Encoding(i),
        },
{
    match &row[i] {
        SqlValue::Text(s) => match Timestamp::parse(s.as_str()) {
            Some(t) => Ok(t),
            None => Err(StoreError::Encoding(i)),
        },
        _ => Err(StoreError::Encoding(i)),
    }
}

/// The list at a column that holds text; text that does not parse is an empty list.
pub fn list_at(row: &Vec<SqlValue>, i: usize) -> (r: Vec<String>)
    requires
        i < row@.len(),
        row@[i as int]@ is Text,
    ensures
        r.deep_view() == list_cell(row@[i as int]@),
{
    match &row[i] {
        SqlValue::Text(s) => match texts_from_json(s.as_str()) {
            Some(v) => v,
            None => Vec::new(),
        },
        _ => Vec::new(),
    }
}

/// Whether a column of a row holds exactly the given text.
pub open spec fn column_is(row: Seq<Cell>, column: int, value: Seq<char>) -> bool {
    0 <= column < row.len() && row[column] == Cell::Text(value)
}

/// Whether a row meets every `(column, text)` equality.
pub open spec fn meets(row: Seq<Cell>, filters: Seq<(usize, Seq<char>)>) -> bool {
    forall|i: int| 0 <= i < filters.len() ==> column_is(row, filters[i].0 as int, filters[i].1)
}

/// Whether a row meets every `(column, text)` equality.
pub fn row_meets(row: &Vec<SqlValue>, filters: &Vec<(usize, String)>) -> (r: bool)
    ensures
        r == meets(row.deep_view(), filters.deep_view()),
{
    let ghost cells = row.deep_view();
    let ghost fs = filters.deep_view();
    let mut i: usize = 0;
    while i < filters.len()
        invariant
            cells == row.deep_view(),
            fs == filters.deep_view(),
            i <= filters@.len(),
            forall|j: int| 0 <= j < i ==> column_is(cells, fs[j].0 as int, fs[j].1),
        decreases filters@.len() - i,
    {
        let column = filters[i].0;
        assert(fs[i as int].0 == column && fs[i as int].1 == filters@[i as int].1@);
        let ok = column < row.len() && match &row[column] {
            SqlValue::Text(s) => same_text(s.as_str(), filters[i].1.as_str()),
            _ => false,
        };
        if !ok {
            if column < row.len() {
                assert(cells[column as int] == row@[column as int]@);
            }
            assert(!column_is(cells, fs[i as int].0 as int, fs[i as int].1));
            return false;
        }
        assert(cells[column as int] == row@[column as int]@);
        i = i + 1;
    }
    true
}

/// A record kind that is stored as one row.
pub trait Record: Sized + View {
    /// What a row decodes to.
    spec fn model_of_row(row: Seq<Cell>) -> Result<Self::V, StoreError>;

    /// Decodes a row.
    fn from_row(row: &Vec<SqlValue>) -> (r: Result<Self, StoreError>)
        ensures
            match r {
                Ok(x) => Self::model_of_row(row.deep_view()) == Ok::<Self::V, StoreError>(x@),
                Err(e) => Self::model_of_row(row.deep_view()) == Err::<Self::V, StoreError>(e),
            },
    ;
}

/// The records of the rows that meet the filters, in row order; the first
/// decoding error among those rows, if any.
pub open spec fn selected<R: Record>(rows: Seq<Seq<Cell>>, filters: Seq<(usize, Seq<char>)>) -> Result<
    Seq<R::V>,
    StoreError,
>
    decreases rows.len(),
{
    if rows.len() == 0 {
        Ok(Seq::empty())
    } else {
        match selected::<R>(rows.drop_last(), filters) {
            Err(e) => Err(e),
            Ok(ms) => if meets(rows.last(), filters) {
                match R::model_of_row(rows.last()) {
                    Ok(m) => Ok(ms.push(m)),
                    Err(e) => Err(e),
                }
            } else {
                Ok(ms)
            },
        }
    }
}

/// The models of a list of records.
pub open spec fn models<R: View>(v: Seq<R>) -> Seq<R::V> {
    v.map_values(|x: R| x@)
}

/// Decodes, in order, the rows that meet the filters.
pub fn select<R: Record>(rows: &Vec<Vec<SqlValue>>, filters: &Vec<(usize, String)>) -> (r: Result<
    Vec<R>,
    StoreError,
>)
    ensures
        match r {
            Ok(v) => selected::<R>(rows.deep_view(), filters.deep_view()) == Ok::<
                Seq<R::V>,
                StoreError,
            >(models(v@)),
            Err(e) => selected::<R>(rows.deep_view(), filters.deep_view()) == Err::<
                Seq<R::V>,
                StoreError,
            >(e),
        },
{
    let ghost all = rows.deep_view();
    let ghost fs = filters.deep_view();
    let mut out: Vec<R> = Vec::new();
    let mut i: usize = 0;
    assert(all.take(0) =~= Seq::<Seq<Cell>>::empty());
    assert(models(out@) =~= Seq::<R::V>::empty());
    while i < rows.len()
        invariant
            all == rows.deep_view(),
            fs == filters.deep_view(),
            i <= rows@.len(),
            selected::<R>(all.take(i as int), fs) == Ok::<Seq<R::V>, StoreError>(models(out@)),
        decreases rows@.len() - i,
    {
        assert(all.take(i + 1).drop_last() =~= all.take(i as int));
        assert(all.take(i + 1).last() == rows@[i as int].deep_view());
        let ghost before = out@;
        if row_meets(&rows[i], filters) {
            match R::from_row(&rows[i]) {
                Ok(x) => {
                    out.push(x);
                    assert(models(out@) =~= models(before).push(x@));
                },
                Err(e) => {
                    proof {
                        lemma_selected_error::<R>(all, fs, i + 1, e);
                    }
                    return Err(e);
                },
            }
        }
        i = i + 1;
    }
    assert(all.take(rows@.len() as int) =~= all);
    Ok(out)
}

/// An error on a prefix of the rows is the error on all of them.
proof fn lemma_selected_error<R: Record>(
    rows: Seq<Seq<Cell>>,
    filters: Seq<(usize, Seq<char>)>,
    n: int,
    e: StoreError,
)
    requires
        0 <= n <= rows.len(),
        selected::<R>(rows.take(n), filters) == Err::<Seq<R::V>, StoreError>(e),
    ensures
        selected::<R>(rows, filters) == Err::<Seq<R::V>, StoreError>(e),
    decreases rows.len() - n,
{
    if n < rows.len() {
        assert(rows.take(n + 1).drop_last() =~= rows.take(n));
        lemma_selected_error::<R>(rows, filters, n + 1, e);
    } else {
        assert(rows.take(n) =~= rows);
    }
}

/// Whether a delete removed a record: true exactly when a row was affected.
/// Deleting an id that does not exist is `false`, not an error.
pub fn delete_outcome(rows_affected: usize) -> (r: bool)
    ensures
        r == (rows_affected > 0),
{
    rows_affected > 0
}

/// The outcome of an update or a status change: `NotFound` when no row was
/// affected, never a silent success.
pub fn update_outcome(rows_affected: usize) -> (r: Result<(), StoreError>)
    ensures
        r is Ok <==> rows_affected > 0,
        r is Err ==> r == Err::<(), StoreError>(StoreError::NotFound),
{
    if rows_affected > 0 {
        Ok(())
    } else {
        Err(StoreError::NotFound)
    }
}

/// The outcome of a lookup by id: the record of the first row, or `None`.
pub fn lookup_outcome<R: Record>(rows: &Vec<Vec<SqlValue>>) -> (r: Result<Option<R>, StoreError>)
    ensures
        rows@.len() == 0 ==> r == Ok::<Option<R>, StoreError>(None),
        rows@.len() > 0 ==> match r {
            Ok(Some(x)) => R::model_of_row(rows@[0].deep_view()) == Ok::<R::V, StoreError>(x@),
            Ok(None) => false,
            Err(e) => R::model_of_row(rows@[0].deep_view()) == Err::<R::V, StoreError>(e),
        },
{
    if rows.len() == 0 {
        Ok(None)
    } else {
        match R::from_row(&rows[0]) {
            Ok(x) => Ok(Some(x)),
            Err(e) => Err(e),
        }
    }
}


/// The cell of an optional text.
pub open spec fn opt_cell(o: Option<Seq<char>>) -> Cell {
    match o {
        Some(s) => Cell::Text(s),
        None => Cell::Null,
    }
}

/// Whether an optional timestamp text, if present, parses.
pub open spec fn stamp_wf(o: Option<Seq<char>>) -> bool {
    o matches Some(s) ==> is_rfc3339(s)
}

/// A present timestamp that parses reads back unchanged.
pub proof fn lemma_stamp_cell(o: Option<Seq<char>>)
    requires
        stamp_wf(o),
    ensures
        stamp_cell(opt_cell(o)) == o,
        opt_text_cell(opt_cell(o)) == o,
{
}

/// A text value.
pub fn text_value(s: &str) -> (r: SqlValue)
    ensures
        r@ == Cell::Text(s@),
{
    SqlValue::Text(s.to_owned())
}

/// A text value, or NULL when absent.
pub fn opt_text_value(o: &Option<String>) -> (r: SqlValue)
    ensures
        r@ == opt_cell(o.deep_view()),
{
    match o {
        Some(s) => SqlValue::Text(s.clone()),
        None => SqlValue::Null,
    }
}

/// A timestamp value, or NULL when absent.
pub fn opt_stamp_value(o: &Option<Timestamp>) -> (r: SqlValue)
    ensures
        r@ == opt_cell(o.deep_view()),
{
    match o {
        Some(t) => SqlValue::Text(t.text.clone()),
        None => SqlValue::Null,
    }
}

/// A list value: the JSON array of its strings.
pub fn list_value(v: &Vec<String>) -> (r: SqlValue)
    ensures
        r@ == Cell::Text(json_of_texts(v.deep_view())),
        list_cell(r@) == v.deep_view(),
{
    SqlValue::Text(texts_to_json(v))
}

/// The row-level filter that keeps one user's records.
pub fn user_filter(user_id: &str) -> (r: Vec<(usize, String)>)
    ensures
        r.deep_view() == seq![(1usize, user_id@)],
{
    let mut v: Vec<(usize, String)> = Vec::new();
    v.push((1, user_id.to_owned()));
    assert(v.deep_view() =~= seq![(1usize, user_id@)]);
    v
}

/// The row-level filter that keeps one user's records whose column holds `value`.
pub fn user_column_filter(user_id: &str, column: usize, value: &str) -> (r: Vec<(usize, String)>)
    ensures
        r.deep_view() == seq![(1usize, user_id@), (column, value@)],
{
    let mut v: Vec<(usize, String)> = Vec::new();
    v.push((1, user_id.to_owned()));
    v.push((column, value.to_owned()));
    assert(v.deep_view() =~= seq![(1usize, user_id@), (column, value@)]);
    v
}

/// Whether some row that meets the filters decodes to `m`.
pub open spec fn from_meeting_row<R: Record>(
    rows: Seq<Seq<Cell>>,
    filters: Seq<(usize, Seq<char>)>,
    m: R::V,
) -> bool {
    exists|j: int|
        0 <= j < rows.len() && meets(#[trigger] rows[j], filters) && R::model_of_row(rows[j])
            == Ok::<R::V, StoreError>(m)
}

/// Every record that a selection returns comes from a row that meets the filters.
pub proof fn lemma_selected_meets<R: Record>(
    rows: Seq<Seq<Cell>>,
    filters: Seq<(usize, Seq<char>)>,
    ms: Seq<R::V>,
)
    requires
        selected::<R>(rows, filters) == Ok::<Seq<R::V>, StoreError>(ms),
    ensures
        forall|k: int| 0 <= k < ms.len() ==> from_meeting_row::<R>(rows, filters, #[trigger] ms[k]),
    decreases rows.len(),
{
    if rows.len() > 0 {
        let prev = selected::<R>(rows.drop_last(), filters);
        assert(prev is Ok);
        let ps = prev->Ok_0;
        lemma_selected_meets::<R>(rows.drop_last(), filters, ps);
        assert forall|k: int| 0 <= k < ms.len() implies from_meeting_row::<R>(
            rows,
            filters,
            #[trigger] ms[k],
        ) by {
            if k < ps.len() {
                assert(ms[k] == ps[k]);
                assert(from_meeting_row::<R>(rows.drop_last(), filters, ps[k]));
                let j = choose|j: int|
                    0 <= j < rows.drop_last().len() && meets(
                        #[trigger] rows.drop_last()[j],
                        filters,
                    ) && R::model_of_row(rows.drop_last()[j]) == Ok::<R::V, StoreError>(ps[k]);
                assert(rows[j] == rows.drop_last()[j]);
            } else {
                let j = rows.len() - 1;
                assert(rows[j] == rows.last());
            }
        }
    }
}

/// The statement values of a lookup, a delete or an archive by id.
pub fn id_params(id: &str) -> (r: Vec<SqlValue>)
    ensures
        r.deep_view() == seq![Cell::Text(id@)],
{
    let mut r: Vec<SqlValue> = Vec::new();
    r.push(text_value(id));
    assert(r.deep_view() =~= seq![Cell::Text(id@)]);
    r
}

/// The statement values that stamp a record at `now` by id: the time, then the id.
pub fn stamp_params(id: &str, now: &Timestamp) -> (r: Vec<SqlValue>)
    ensures
        r.deep_view() == seq![Cell::Text(now@), Cell::Text(id@)],
{
    let mut r: Vec<SqlValue> = Vec::new();
    r.push(text_value(now.as_str()));
    r.push(text_value(id));
    assert(r.deep_view() =~= seq![Cell::Text(now@), Cell::Text(id@)]);
    r
}


/// The statement values that set a status text and stamp the time, by id:
/// the status, the time, then the id.
pub fn status_params(id: &str, status: &str, now: &Timestamp) -> (r: Vec<SqlValue>)
    ensures
        r.deep_view() == seq![Cell::Text(status@), Cell::Text(now@), Cell::Text(id@)],
{
    let mut r: Vec<SqlValue> = Vec::new();
    r.push(text_value(status));
    r.push(text_value(now.as_str()));
    r.push(text_value(id));
    assert(r.deep_view() =~= seq![Cell::Text(status@), Cell::Text(now@), Cell::Text(id@)]);
    r
}


/// The row-level filter that keeps the rows whose column holds `value`.
pub fn column_filter(column: usize, value: &str) -> (r: Vec<(usize, String)>)
    ensures
        r.deep_view() == seq![(column, value@)],
{
    let mut v: Vec<(usize, String)> = Vec::new();
    v.push((column, value.to_owned()));
    assert(v.deep_view() =~= seq![(column, value@)]);
    v
}

/// The record a lookup found, or `NotFound` when there was none.
pub fn found<R>(o: Option<R>) -> (r: Result<R, StoreError>)
    ensures
        match o {
            Some(x) => r == Ok::<R, StoreError>(x),
            None => r == Err::<R, StoreError>(StoreError::NotFound),
        },
{
    match o {
        Some(x) => Ok(x),
        None => Err(StoreError::NotFound),
    }
}

/// The rows, in order, that meet the filters.
pub open spec fn meeting_rows(rows: Seq<Seq<Cell>>, filters: Seq<(usize, Seq<char>)>) -> Seq<
    Seq<Cell>,
> {
    rows.filter(|row: Seq<Cell>| meets(row, filters))
}

/// The records that rows decode to, in order.
pub open spec fn decoded_models<R: Record>(rows: Seq<Seq<Cell>>) -> Seq<R::V> {
    rows.map_values(|row: Seq<Cell>| R::model_of_row(row)->Ok_0)
}

/// A selection that succeeds returns, in row order, the record of every row
/// that meets the filters, one record for each such row, and each of those
/// rows decodes.
pub proof fn lemma_selected_exact<R: Record>(
    rows: Seq<Seq<Cell>>,
    filters: Seq<(usize, Seq<char>)>,
    ms: Seq<R::V>,
)
    requires
        selected::<R>(rows, filters) == Ok::<Seq<R::V>, StoreError>(ms),
    ensures
        ms == decoded_models::<R>(meeting_rows(rows, filters)),
        forall|i: int|
            0 <= i < meeting_rows(rows, filters).len() ==> (#[trigger] R::model_of_row(
                meeting_rows(rows, filters)[i],
            )) is Ok,
    decreases rows.len(),
{
    reveal(Seq::filter);
    if rows.len() == 0 {
        assert(ms =~= decoded_models::<R>(meeting_rows(rows, filters)));
    } else {
        let prev = selected::<R>(rows.drop_last(), filters);
        assert(prev is Ok);
        let ps = prev->Ok_0;
        lemma_selected_exact::<R>(rows.drop_last(), filters, ps);
        let before = meeting_rows(rows.drop_last(), filters);
        if meets(rows.last(), filters) {
            assert(meeting_rows(rows, filters) == before.push(rows.last()));
            assert(ms =~= decoded_models::<R>(before.push(rows.last())));
            assert forall|i: int|
                0 <= i < meeting_rows(rows, filters).len() implies (#[trigger] R::model_of_row(
                meeting_rows(rows, filters)[i],
            )) is Ok by {
                if i < before.len() {
                    assert(meeting_rows(rows, filters)[i] == before[i]);
                }
            }
        } else {
            assert(meeting_rows(rows, filters) == before);
        }
    }
}

/// Every row that meets the filters has its record among those a successful
/// selection returns.
pub proof fn lemma_selected_complete<R: Record>(
    rows: Seq<Seq<Cell>>,
    filters: Seq<(usize, Seq<char>)>,
    ms: Seq<R::V>,
    j: int,
)
    requires
        selected::<R>(rows, filters) == Ok::<Seq<R::V>, StoreError>(ms),
        0 <= j < rows.len(),
        meets(rows[j], filters),
    ensures
        R::model_of_row(rows[j]) is Ok,
        ms.contains(R::model_of_row(rows[j])->Ok_0),
{
    broadcast use vstd::seq_lib::group_filter_ensures;

    lemma_selected_exact::<R>(rows, filters, ms);
    let pred = |row: Seq<Cell>| meets(row, filters);
    rows.lemma_filter_contains(pred, j);
    let mr = meeting_rows(rows, filters);
    assert(mr == rows.filter(pred));
    assert(mr.contains(rows[j]));
    let i = choose|i: int| 0 <= i < mr.len() && mr[i] == rows[j];
    assert(R::model_of_row(mr[i]) is Ok);
    assert(ms[i] == R::model_of_row(rows[j])->Ok_0);
}

/// The records, in order, for which `keep` says yes; `keep` decides what
/// `pred` states of each record's model.
pub(crate) fn keep_where<R: View, F: Fn(&R) -> bool>(
    items: Vec<R>,
    keep: F,
    Ghost(pred): Ghost<spec_fn(R::V) -> bool>,
) -> (r: Vec<R>)
    requires
        forall|x: &R| #[trigger] keep.requires((x,)),
        forall|x: &R, b: bool| keep.ensures((x,), b) ==> b == pred(x@),
    ensures
        models(r@) == models(items@).filter(pred),
{
    let ghost ms = models(items@);
    let n = items.len();
    let mut rest = items;
    let mut out: Vec<R> = Vec::new();
    let mut i: usize = 0;
    assert(ms.take(0) =~= Seq::<R::V>::empty());
    proof {
        reveal(Seq::filter);
    }
    assert(models(out@) =~= ms.take(0).filter(pred));
    while i < n
        invariant
            n == ms.len(),
            i <= n,
            rest@.len() == n - i,
            forall|k: int| 0 <= k < rest@.len() ==> rest@[k]@ == ms[k + i as int],
            models(out@) == ms.take(i as int).filter(pred),
            forall|x: &R| #[trigger] keep.requires((x,)),
            forall|x: &R, b: bool| keep.ensures((x,), b) ==> b == pred(x@),
        decreases n - i,
    {
        let item = rest.remove(0);
        assert(item@ == ms[i as int]);
        let ghost before = out@;
        assert(ms.take(i + 1).drop_last() =~= ms.take(i as int));
        assert(ms.take(i + 1).last() == ms[i as int]);
        proof {
            reveal(Seq::filter);
        }
        if keep(&item) {
            out.push(item);
            assert(models(out@) =~= models(before).push(ms[i as int]));
        }
        i = i + 1;
    }
    assert(ms.take(n as int) =~= ms);
    out
}

} // verus!
