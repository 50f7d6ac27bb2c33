//! Data model of the ingestion pipeline: the data types a column can take,
//! column definitions, input sources, and the parsed content of one source.

use vstd::prelude::*;

use crate::inference::{column_cells, column_type, infer_column_type};

verus! {

/// The data types a CSV column can be inferred to hold, from most to least
/// specific on the widening chain.
#[derive(Clone, Copy, Debug, PartialEq, Eq, Structural)]
pub enum DataType {
    Boolean,
    Integer,
    Float,
    String,
}

/// A named column together with its inferred data type. Column order is
/// significant and preserved end-to-end.
#[derive(Clone, Debug)]
pub struct ColumnDef {
    pub name: String,
    pub data_type: DataType,
}

/// Mathematical model of a `ColumnDef`.
pub struct ColumnDefV {
    pub name: Seq<char>,
    pub data_type: DataType,
}

impl View for ColumnDef {
    type V = ColumnDefV;

    open spec fn view(&self) -> ColumnDefV {
        ColumnDefV { name: self.name@, data_type: self.data_type }
    }
}

impl DeepView for ColumnDef {
    type V = ColumnDefV;

    open spec fn deep_view(&self) -> ColumnDefV {
        self.view()
    }
}

impl ColumnDef {
    /// Creates a column definition with the given name and data type.
    pub fn new(name: String, data_type: DataType) -> (r: ColumnDef)
        ensures
            r.name == name,
            r.data_type == data_type,
    {
        ColumnDef { name, data_type }
    }
}

/// Copies a column list; the copy models identically.
pub fn clone_columns(cols: &Vec<ColumnDef>) -> (r: Vec<ColumnDef>)
    ensures
        r.deep_view() == cols.deep_view(),
        r@.len() == cols@.len(),
{
    let mut r: Vec<ColumnDef> = Vec::new();
    let n = cols.len();
    let mut i: usize = 0;
    while i < n
        invariant
            i <= n,
            n == cols@.len(),
            r@.len() == i,
            forall|k: int| 0 <= k < i ==> (#[trigger] r@[k])@ == cols@[k]@,
        decreases n - i,
    {
        let c = &cols[i];
        let cd = ColumnDef { name: c.name.clone(), data_type: c.data_type };
        proof {
            assert(cd@ == cols@[i as int]@);
        }
        r.push(cd);
        i += 1;
    }
    proof {
        assert forall|k: int| 0 <= k < n implies r.deep_view()[k] == cols.deep_view()[k] by {
            assert(r.deep_view()[k] == r@[k]@);
            assert(cols.deep_view()[k] == cols@[k]@);
        }
        assert(r.deep_view() =~= cols.deep_view());
    }
    r
}

/// One CSV input unit: an opaque handle to where the source lives.
#[derive(Debug)]
pub struct InputSource {
    pub location: String,
}

impl Clone for InputSource {
    fn clone(&self) -> (r: Self)
        ensures
            r@ == self@,
    {
        InputSource { location: self.location.clone() }
    }
}

impl View for InputSource {
    type V = Seq<char>;

    open spec fn view(&self) -> Seq<char> {
        self.location@
    }
}

impl DeepView for InputSource {
    type V = Seq<char>;

    open spec fn deep_view(&self) -> Seq<char> {
        self.view()
    }
}

impl InputSource {
    /// Creates an input source handle for the given location.
    pub fn new(location: String) -> (r: InputSource)
        ensures
            r.location == location,
    {
        InputSource { location }
    }
}

/// Appends one element, tracking the deep view of the vector.
pub fn push_dv<T: DeepView>(dst: &mut Vec<T>, x: T)
    ensures
        final(dst)@ == old(dst)@.push(x),
        final(dst).deep_view() == old(dst).deep_view().push(x.deep_view()),
{
    let ghost pre = dst@;
    let ghost xv = x.deep_view();
    dst.push(x);
    proof {
        assert forall|k: int| 0 <= k < dst@.len() implies dst.deep_view()[k] == old(
            dst,
        ).deep_view().push(xv)[k] by {
            if k < pre.len() {
                assert(dst@[k] == pre[k]);
            }
        }
        assert(dst.deep_view() =~= old(dst).deep_view().push(xv));
    }
}

/// Appends copies of all elements of `src`, tracking the deep view.
pub fn append_strings(dst: &mut Vec<String>, src: &Vec<String>)
    ensures
        final(dst).deep_view() == old(dst).deep_view() + src.deep_view(),
{
    let n = src.len();
    let mut i: usize = 0;
    while i < n
        invariant
            i <= n,
            n == src@.len(),
            dst.deep_view() == old(dst).deep_view() + src.deep_view().take(i as int),
        decreases n - i,
    {
        let s = src[i].clone();
        proof {
            assert(s@ == src.deep_view()[i as int]);
        }
        push_dv(dst, s);
        proof {
            assert(old(dst).deep_view() + src.deep_view().take(i + 1) =~= (old(dst).deep_view()
                + src.deep_view().take(i as int)).push(src.deep_view()[i as int]));
        }
        i += 1;
    }
    proof {
        assert(src.deep_view().take(n as int) =~= src.deep_view());
    }
}

/// A parse-level failure for a whole source; the message is recorded and the
/// batch goes on.
#[derive(Clone, Debug)]
pub struct ParseError {
    pub message: String,
}

/// Everything the external parser hands over for one source: the raw rows,
/// the column definitions read from the header, how many records were
/// parsed, and the per-row parse errors.
#[derive(Clone, Debug)]
pub struct ParsedContent {
    pub file_name: String,
    pub columns: Vec<ColumnDef>,
    pub content: Vec<Vec<String>>,
    pub records_parsed: usize,
    pub errors: Vec<String>,
}

/// Mathematical model of a `ParsedContent`.
pub struct ParsedContentV {
    pub file_name: Seq<char>,
    pub columns: Seq<ColumnDefV>,
    pub content: Seq<Seq<Seq<char>>>,
    pub records_parsed: nat,
    pub errors: Seq<Seq<char>>,
}

impl View for ParsedContent {
    type V = ParsedContentV;

    open spec fn view(&self) -> ParsedContentV {
        ParsedContentV {
            file_name: self.file_name@,
            columns: self.columns.deep_view(),
            content: self.content.deep_view(),
            records_parsed: self.records_parsed as nat,
            errors: self.errors.deep_view(),
        }
    }
}

impl ParsedContent {
    /// The parser never reports fewer parsed records than the rows it hands
    /// over: the stored count of a load can then never exceed the parsed
    /// count.
    pub open spec fn wf(&self) -> bool {
        self.content@.len() <= self.records_parsed
    }

    /// Creates the parsed content of one source.
    pub fn new(
        file_name: String,
        columns: Vec<ColumnDef>,
        content: Vec<Vec<String>>,
        records_parsed: usize,
        errors: Vec<String>,
    ) -> (r: ParsedContent)
        requires
            content@.len() <= records_parsed,
        ensures
            r.file_name == file_name,
            r.columns == columns,
            r.content == content,
            r.records_parsed == records_parsed,
            r.errors == errors,
            r.wf(),
    {
        ParsedContent { file_name, columns, content, records_parsed, errors }
    }

    /// Runs schema inference: every column keeps its name and position and
    /// receives the narrowest data type under which all of its non-empty
    /// values parse.
    pub fn set_column_data_types(&mut self)
        ensures
            final(self).file_name == old(self).file_name,
            final(self).content == old(self).content,
            final(self).records_parsed == old(self).records_parsed,
            final(self).errors == old(self).errors,
            final(self).columns@.len() == old(self).columns@.len(),
            forall|j: int|
                0 <= j < old(self).columns@.len() ==> {
                    &&& (#[trigger] final(self).columns@[j]).name@ == old(self).columns@[j].name@
                    &&& final(self).columns@[j].data_type == column_type(
                        column_cells(old(self).content.deep_view(), j),
                    )
                },
    {
        let mut new_cols: Vec<ColumnDef> = Vec::new();
        let n = self.columns.len();
        let mut j: usize = 0;
        while j < n
            invariant
                j <= n,
                n == self.columns@.len(),
                *self == *old(self),
                new_cols@.len() == j,
                forall|k: int|
                    0 <= k < j ==> {
                        &&& (#[trigger] new_cols@[k]).name@ == self.columns@[k].name@
                        &&& new_cols@[k].data_type == column_type(
                            column_cells(self.content.deep_view(), k),
                        )
                    },
            decreases n - j,
        {
            let t = infer_column_type(&self.content, j);
            let name = self.columns[j].name.clone();
            new_cols.push(ColumnDef { name, data_type: t });
            j += 1;
        }
        self.columns = new_cols;
    }
}

} // verus!
