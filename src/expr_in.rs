use vstd::prelude::*;

verus! {

/// The type of a value.
#[derive(Clone, Copy, Debug, PartialEq, Eq)]
pub enum DataType {
    Boolean,
    Char,
}

/// A non-null value.
#[derive(Debug, PartialEq, Eq)]
pub enum ScalarImpl {
    Bool(bool),
    Utf8(String),
}

/// What a non-null value holds.
pub enum ScalarView {
    Bool(bool),
    Utf8(Seq<char>),
}

impl View for ScalarImpl {
    type V = ScalarView;

    open spec fn view(&self) -> ScalarView {
        match self {
            ScalarImpl::Bool(b) => ScalarView::Bool(*b),
            ScalarImpl::Utf8(s) => ScalarView::Utf8(s@),
        }
    }
}

/// A value that may be null.
pub type Datum = Option<ScalarImpl>;

/// What a datum holds.
pub open spec fn datum_view(d: Datum) -> Option<ScalarView> {
    match d {
        Some(s) => Some(s@),
        None => None,
    }
}

/// What a column holds.
pub open spec fn column_view(c: Seq<Datum>) -> Seq<Option<ScalarView>> {
    c.map_values(|d: Datum| datum_view(d))
}

/// Whether two datums hold the same value.
pub fn datum_eq(a: &Datum, b: &Datum) -> (r: bool)
    ensures
        r == (datum_view(*a) == datum_view(*b)),
{
    match (a, b) {
        (None, None) => true,
        (Some(ScalarImpl::Bool(x)), Some(ScalarImpl::Bool(y))) => *x == *y,
        (Some(ScalarImpl::Utf8(x)), Some(ScalarImpl::Utf8(y))) => *x == *y,
        _ => false,
    }
}

/// Copies a datum.
pub fn copy_datum(d: &Datum) -> (r: Datum)
    ensures
        datum_view(r) == datum_view(*d),
{
    match d {
        None => None,
        Some(ScalarImpl::Bool(b)) => Some(ScalarImpl::Bool(*b)),
        Some(ScalarImpl::Utf8(s)) => Some(ScalarImpl::Utf8(s.clone())),
    }
}

/// A column of values.
pub struct ArrayImpl {
    values: Vec<Datum>,
}

impl View for ArrayImpl {
    type V = Seq<Option<ScalarView>>;

    closed spec fn view(&self) -> Seq<Option<ScalarView>> {
        column_view(self.values@)
    }
}

impl ArrayImpl {
    /// Number of rows.
    pub fn len(&self) -> (r: usize)
        ensures
            r == self@.len(),
    {
        self.values.len()
    }

    /// The value at row `i`.
    pub fn datum_at(&self, i: usize) -> (r: Datum)
        requires
            i < self@.len(),
        ensures
            datum_view(r) == self@[i as int],
    {
        copy_datum(&self.values[i])
    }
}

/// Rows of data stored by column, with an optional mask of visible rows.
pub struct DataChunk {
    pub columns: Vec<Vec<Datum>>,
    pub visibility: Option<Vec<bool>>,
}

/// Builds a data chunk.
pub struct DataChunkBuilder {
    pub columns: Vec<Vec<Datum>>,
    pub visibility: Option<Vec<bool>>,
}

impl DataChunkBuilder {
    /// Sets the columns.
    pub fn columns(self, columns: Vec<Vec<Datum>>) -> (r: DataChunkBuilder)
        ensures
            r.columns@ == columns@,
            r.visibility == self.visibility,
    {
        DataChunkBuilder { columns, visibility: self.visibility }
    }

    /// Sets the mask of visible rows.
    pub fn visibility(self, visibility: Vec<bool>) -> (r: DataChunkBuilder)
        ensures
            r.columns@ == self.columns@,
            r.visibility == Some(visibility),
    {
        DataChunkBuilder { columns: self.columns, visibility: Some(visibility) }
    }

    /// The chunk.
    pub fn build(self) -> (r: DataChunk)
        ensures
            r.columns@ == self.columns@,
            r.visibility == self.visibility,
    {
        DataChunk { columns: self.columns, visibility: self.visibility }
    }
}

impl DataChunk {
    /// A builder with no columns and every row visible.
    pub fn builder() -> (r: DataChunkBuilder)
        ensures
            r.columns@.len() == 0,
            r.visibility is None,
    {
        DataChunkBuilder { columns: Vec::new(), visibility: None }
    }

    /// Number of columns.
    pub fn num_columns(&self) -> (r: usize)
        ensures
            r == self.columns@.len(),
    {
        self.columns.len()
    }
}

/// The rows of `column` that `mask` marks visible, in order.
pub open spec fn visible_rows(column: Seq<Option<ScalarView>>, mask: Seq<bool>) -> Seq<
    Option<ScalarView>,
>
    recommends
        column.len() == mask.len(),
    decreases column.len(),
{
    if column.len() == 0 || mask.len() == 0 {
        Seq::empty()
    } else if mask.last() {
        visible_rows(column.drop_last(), mask.drop_last()).push(column.last())
    } else {
        visible_rows(column.drop_last(), mask.drop_last())
    }
}

/// Why an expression could not be evaluated.
#[derive(Clone, Copy, Debug, PartialEq, Eq)]
pub enum ExprError {
    /// The chunk has no column at the referenced index.
    ColumnOutOfRange,
    /// The visibility mask and the column differ in length.
    VisibilityMismatch,
}

/// The error that evaluating a reference to column `idx` of `input` meets, if any.
pub open spec fn eval_error(idx: usize, input: DataChunk) -> Option<ExprError> {
    if idx >= input.columns@.len() {
        Some(ExprError::ColumnOutOfRange)
    } else {
        match input.visibility {
            Some(mask) => if mask@.len() != input.columns@[idx as int]@.len() {
                Some(ExprError::VisibilityMismatch)
            } else {
                None
            },
            None => None,
        }
    }
}

/// The visible rows of column `idx` of `input`.
pub open spec fn eval_rows(idx: usize, input: DataChunk) -> Seq<Option<ScalarView>> {
    let column = column_view(input.columns@[idx as int]@);
    match input.visibility {
        Some(mask) => visible_rows(column, mask@),
        None => column,
    }
}

/// For each row, whether its value lies in `set`.
pub open spec fn membership(rows: Seq<Option<ScalarView>>, set: Set<Option<ScalarView>>) -> Seq<
    Option<ScalarView>,
> {
    rows.map_values(|d: Option<ScalarView>| Some(ScalarView::Bool(set.contains(d))))
}

/// Reads one column of its input.
pub struct InputRefExpression {
    pub return_type: DataType,
    pub idx: usize,
}

impl InputRefExpression {
    /// Refers to column `idx`, of type `return_type`.
    pub fn new(return_type: DataType, idx: usize) -> (r: InputRefExpression)
        ensures
            r.return_type == return_type,
            r.idx == idx,
    {
        InputRefExpression { return_type, idx }
    }
}

/// Tests whether the value of its input lies in a fixed set of values.
pub struct InExpression {
    input_ref: InputRefExpression,
    set: Vec<Datum>,
    return_type: DataType,
}

impl InExpression {
    /// The set of values tested against.
    pub closed spec fn set_view(&self) -> Set<Option<ScalarView>> {
        column_view(self.set@).to_set()
    }

    /// The type of the result.
    pub closed spec fn result_type(&self) -> DataType {
        self.return_type
    }

    /// The column that is read.
    pub closed spec fn input_idx(&self) -> usize {
        self.input_ref.idx
    }

    /// Tests the values of `input_ref` against the values of `data`.
    pub fn new(input_ref: InputRefExpression, data: Vec<Datum>, return_type: DataType) -> (r:
        InExpression)
        ensures
            r.set_view() == column_view(data@).to_set(),
            r.input_idx() == input_ref.idx,
            r.result_type() == return_type,
    {
        let mut sarg: Vec<Datum> = Vec::new();
        let mut data = data;
        let ghost all = column_view(data@);
        let ghost n = data@.len();
        while data.len() > 0
            invariant
                column_view(sarg@).to_set().union(column_view(data@).to_set()) == all.to_set(),
            decreases data@.len(),
        {
            let ghost before_sarg = column_view(sarg@);
            let ghost before_data = column_view(data@);
            let d = data.pop().unwrap();
            proof {
                assert(before_data =~= column_view(data@).push(datum_view(d)));
                assert(column_view(sarg@.push(d)) =~= before_sarg.push(datum_view(d)));
                column_view(data@).lemma_push_to_set_commute(datum_view(d));
                before_sarg.lemma_push_to_set_commute(datum_view(d));
            }
            sarg.push(d);
            proof {
                assert(column_view(sarg@).to_set().union(column_view(data@).to_set())
                    =~= all.to_set());
            }
        }
        proof {
            assert(column_view(data@).to_set() =~= Set::empty());
            assert(column_view(sarg@).to_set().union(Set::empty()) =~= column_view(sarg@).to_set());
        }
        InExpression { input_ref, set: sarg, return_type }
    }

    /// Whether `datum` lies in the set.
    pub fn contains(&self, datum: &Datum) -> (r: bool)
        ensures
            r == self.set_view().contains(datum_view(*datum)),
    {
        let mut i: usize = 0;
        while i < self.set.len()
            invariant
                i <= self.set@.len(),
                forall|j: int| 0 <= j < i ==> datum_view(self.set@[j]) != datum_view(*datum),
            decreases self.set@.len() - i,
        {
            if datum_eq(&self.set[i], datum) {
                proof {
                    assert(column_view(self.set@)[i as int] == datum_view(*datum));
                }
                return true;
            }
            i = i + 1;
        }
        proof {
            if column_view(self.set@).to_set().contains(datum_view(*datum)) {
                let j = choose|j: int|
                    0 <= j < column_view(self.set@).len() && column_view(self.set@)[j]
                        == datum_view(*datum);
                assert(datum_view(self.set@[j]) == datum_view(*datum));
            }
        }
        false
    }

    /// Tests each visible row of the referenced column: true where its value
    /// lies in the set, false elsewhere.
    pub fn eval(&self, input: &DataChunk) -> (r: Result<ArrayImpl, ExprError>)
        ensures
            match r {
                Ok(a) => eval_error(self.input_idx(), *input) is None && a@ == membership(
                    eval_rows(self.input_idx(), *input),
                    self.set_view(),
                ),
                Err(e) => eval_error(self.input_idx(), *input) == Some(e),
            },
    {
        let idx = self.input_ref.idx;
        if idx >= input.columns.len() {
            return Err(ExprError::ColumnOutOfRange);
        }
        let column = &input.columns[idx];
        let ghost rows = column_view(column@);
        let mut out: Vec<Datum> = Vec::new();
        match &input.visibility {
            Some(mask) => {
                if mask.len() != column.len() {
                    return Err(ExprError::VisibilityMismatch);
                }
                let mut i: usize = 0;
                while i < column.len()
                    invariant
                        i <= column@.len(),
                        mask@.len() == column@.len(),
                        rows == column_view(column@),
                        column_view(out@) == membership(
                            visible_rows(rows.take(i as int), mask@.take(i as int)),
                            self.set_view(),
                        ),
                    decreases column@.len() - i,
                {
                    let ghost before = column_view(out@);
                    proof {
                        assert(rows.take(i + 1).drop_last() =~= rows.take(i as int));
                        assert(mask@.take(i + 1).drop_last() =~= mask@.take(i as int));
                    }
                    if mask[i] {
                        let hit = self.contains(&column[i]);
                        out.push(Some(ScalarImpl::Bool(hit)));
                        proof {
                            assert(column_view(out@) =~= before.push(Some(ScalarView::Bool(hit))));
                            assert(membership(
                                visible_rows(rows.take(i as int), mask@.take(i as int)).push(
                                    rows[i as int],
                                ),
                                self.set_view(),
                            ) =~= before.push(Some(ScalarView::Bool(hit))));
                        }
                    }
                    i = i + 1;
                }
                proof {
                    assert(rows.take(i as int) =~= rows);
                    assert(mask@.take(i as int) =~= mask@);
                }
            },
            None => {
                let mut i: usize = 0;
                while i < column.len()
                    invariant
                        i <= column@.len(),
                        rows == column_view(column@),
                        column_view(out@) == membership(rows.take(i as int), self.set_view()),
                    decreases column@.len() - i,
                {
                    let ghost before = column_view(out@);
                    let hit = self.contains(&column[i]);
                    out.push(Some(ScalarImpl::Bool(hit)));
                    proof {
                        assert(column_view(out@) =~= before.push(Some(ScalarView::Bool(hit))));
                        assert(membership(rows.take(i + 1), self.set_view()) =~= before.push(
                            Some(ScalarView::Bool(hit)),
                        ));
                    }
                    i = i + 1;
                }
                proof {
                    assert(rows.take(i as int) =~= rows);
                }
            },
        }
        Ok(ArrayImpl { values: out })
    }

    /// The type of the result.
    pub fn return_type(&self) -> (r: DataType)
        ensures
            r == self.result_type(),
    {
        self.return_type
    }
}

} // verus!
