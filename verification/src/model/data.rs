//! Data ingestion and columnar storage layer.
//!
//! - `DataSource` is a trait for host applications to provide numeric columns.
//! - `DataTable` is the normalized representation used by the editor.
//! - The delimited-text parser builds a `DataTable` from CSV/TXT contents.
//!
//! Values are binary64 numbers held by their IEEE-754 bit patterns.
use vstd::prelude::*;
use crate::text::{
    all_white, join, lemma_clean_padded, lemma_split_join, lemma_words_join, trimmed_word,
    is_white_space, chars_of, clean_pieces, clean_tokens, decimal, push_decimal, same_text, split_on, texts, trim,
    trim_range, words, words_in, lemma_split_on_nonempty,
};

verus! {

/// One numeric column with a stable display name.
#[derive(Debug)]
pub struct ColumnData {
    pub name: String,
    pub values: Vec<u64>,
}

/// In-memory normalized table used by plotting logic.
#[derive(Debug)]
pub struct DataTable {
    pub columns: Vec<ColumnData>,
    pub row_count: usize,
}

pub struct ColumnView {
    pub name: Seq<char>,
    pub values: Seq<u64>,
}

pub struct DataTableView {
    pub columns: Seq<ColumnView>,
    pub row_count: nat,
}

impl View for ColumnData {
    type V = ColumnView;

    open spec fn view(&self) -> ColumnView {
        ColumnView { name: self.name@, values: self.values@ }
    }
}

/// The views of a sequence of columns.
pub open spec fn column_views(c: Seq<ColumnData>) -> Seq<ColumnView> {
    Seq::new(c.len(), |i: int| c[i]@)
}

impl View for DataTable {
    type V = DataTableView;

    open spec fn view(&self) -> DataTableView {
        DataTableView { columns: column_views(self.columns@), row_count: self.row_count as nat }
    }
}

/// Every column holds exactly `row_count` values.
pub open spec fn table_wf(t: DataTableView) -> bool {
    forall|i: int| 0 <= i < t.columns.len() ==> (#[trigger] t.columns[i]).values.len() == t.row_count
}

/// The column names, in display order.
pub open spec fn column_names_of(t: DataTableView) -> Seq<Seq<char>> {
    Seq::new(t.columns.len(), |i: int| t.columns[i].name)
}

/// `i` is the first column named `name`.
pub open spec fn is_first_named(t: DataTableView, name: Seq<char>, i: int) -> bool {
    &&& 0 <= i < t.columns.len()
    &&& t.columns[i].name == name
    &&& forall|j: int| 0 <= j < i ==> t.columns[j].name != name
}

/// The first column named `name`, if any.
pub open spec fn column_position(t: DataTableView, name: Seq<char>) -> Option<int> {
    if exists|i: int| is_first_named(t, name, i) {
        Some(choose|i: int| is_first_named(t, name, i))
    } else {
        None
    }
}

proof fn lemma_column_position(t: DataTableView, name: Seq<char>, i: int)
    requires
        is_first_named(t, name, i),
    ensures
        column_position(t, name) == Some(i),
{
    let k = choose|k: int| is_first_named(t, name, k);
    if k < i {
        assert(t.columns[k].name != name);
    } else if i < k {
        assert(t.columns[i].name != name);
    }
}

/// The values of the first column named `name`, if any.
pub open spec fn column_values_of(t: DataTableView, name: Seq<char>) -> Option<Seq<u64>> {
    match column_position(t, name) {
        Some(i) => Some(t.columns[i].values),
        None => None,
    }
}

/// `(x[i], y[i])` for every row both columns have.
pub open spec fn zip_points(x: Seq<u64>, y: Seq<u64>) -> Seq<(u64, u64)> {
    let n = if x.len() <= y.len() { x.len() } else { y.len() };
    Seq::new(n, |i: int| (x[i], y[i]))
}

/// The points of columns `x` and `y`, or the message naming the missing column.
pub open spec fn points_of(t: DataTableView, x: Seq<char>, y: Seq<char>) -> Result<Seq<(u64, u64)>, Seq<char>> {
    match column_values_of(t, x) {
        None => Err("X column not found: "@ + x),
        Some(xs) => match column_values_of(t, y) {
            None => Err("Y column not found: "@ + y),
            Some(ys) => Ok(zip_points(xs, ys)),
        },
    }
}

/// A copy of a list of values.
pub fn copy_values(v: &Vec<u64>) -> (r: Vec<u64>)
    ensures
        r@ == v@,
{
    let mut r: Vec<u64> = Vec::new();
    let mut i: usize = 0;
    while i < v.len()
        invariant
            i <= v.len(),
            r@ == v@.subrange(0, i as int),
        decreases v.len() - i,
    {
        r.push(v[i]);
        assert(v@.subrange(0, i + 1) =~= v@.subrange(0, i as int).push(v@[i as int]));
        i = i + 1;
    }
    assert(v@.subrange(0, v@.len() as int) =~= v@);
    r
}

impl Clone for ColumnData {
    fn clone(&self) -> (r: Self)
        ensures
            r@ == self@,
    {
        ColumnData { name: self.name.clone(), values: copy_values(&self.values) }
    }
}

impl Clone for DataTable {
    fn clone(&self) -> (r: Self)
        ensures
            r@ == self@,
    {
        let mut columns: Vec<ColumnData> = Vec::new();
        let mut i: usize = 0;
        while i < self.columns.len()
            invariant
                i <= self.columns.len(),
                columns@.len() == i,
                forall|k: int| 0 <= k < i ==> #[trigger] columns@[k]@ == self.columns@[k]@,
            decreases self.columns.len() - i,
        {
            columns.push(self.columns[i].clone());
            i = i + 1;
        }
        let r = DataTable { columns, row_count: self.row_count };
        assert(r@.columns =~= self@.columns);
        r
    }
}

impl DataTable {
    /// Creates an empty table.
    pub fn empty() -> (r: Self)
        ensures
            r@.columns.len() == 0,
            r@.row_count == 0,
    {
        DataTable { columns: Vec::new(), row_count: 0 }
    }

    /// Returns column names in display order.
    pub fn column_names(&self) -> (r: Vec<String>)
        ensures
            texts(r@) == column_names_of(self@),
    {
        let mut r: Vec<String> = Vec::new();
        let mut i: usize = 0;
        while i < self.columns.len()
            invariant
                i <= self.columns.len(),
                r@.len() == i,
                forall|k: int| 0 <= k < i ==> #[trigger] r@[k]@ == self.columns@[k].name@,
            decreases self.columns.len() - i,
        {
            r.push(self.columns[i].name.clone());
            i = i + 1;
        }
        assert(texts(r@) =~= column_names_of(self@));
        r
    }

    /// The index of the first column named `name`.
    fn find_column(&self, name: &str) -> (r: Option<usize>)
        ensures
            match r {
                Some(i) => column_position(self@, name@) == Some(i as int),
                None => column_position(self@, name@) is None,
            },
    {
        let ghost t = self@;
        let mut i: usize = 0;
        while i < self.columns.len()
            invariant
                i <= self.columns.len(),
                t == self@,
                forall|j: int| 0 <= j < i ==> t.columns[j].name != name@,
            decreases self.columns.len() - i,
        {
            if same_text(name, &self.columns[i].name) {
                proof {
                    lemma_column_position(t, name@, i as int);
                }
                return Some(i);
            }
            i = i + 1;
        }
        proof {
            if exists|k: int| is_first_named(t, name@, k) {
                let k = choose|k: int| is_first_named(t, name@, k);
                assert(t.columns[k].name != name@);
            }
        }
        None
    }

    /// Checks whether a column with this name exists.
    pub fn has_column(&self, name: &str) -> (r: bool)
        ensures
            r == exists|i: int| 0 <= i < self@.columns.len() && self@.columns[i].name == name@,
    {
        let found = self.find_column(name);
        proof {
            if exists|i: int| 0 <= i < self@.columns.len() && self@.columns[i].name == name@ {
                let i = choose|i: int|
                    0 <= i < self@.columns.len() && self@.columns[i].name == name@;
                lemma_first_named_exists(self@, name@, i);
            }
        }
        found.is_some()
    }

    /// Returns the numeric values of a named column.
    pub fn column_values(&self, name: &str) -> (r: Option<&[u64]>)
        ensures
            match r {
                Some(v) => column_values_of(self@, name@) == Some(v@),
                None => column_values_of(self@, name@) is None,
            },
    {
        match self.find_column(name) {
            Some(i) => Some(self.columns[i].values.as_slice()),
            None => None,
        }
    }

    /// Builds `(x, y)` points from two selected columns, as many as both have.
    pub fn points_for_columns(&self, x: &str, y: &str) -> (r: Result<Vec<(u64, u64)>, String>)
        ensures
            match r {
                Ok(p) => points_of(self@, x@, y@) == Ok::<Seq<(u64, u64)>, Seq<char>>(p@),
                Err(e) => points_of(self@, x@, y@) == Err::<Seq<(u64, u64)>, Seq<char>>(e@),
            },
    {
        let x_values = match self.column_values(x) {
            Some(v) => v,
            None => {
                let mut e = "X column not found: ".to_owned();
                e.append(x);
                return Err(e);
            },
        };
        let y_values = match self.column_values(y) {
            Some(v) => v,
            None => {
                let mut e = "Y column not found: ".to_owned();
                e.append(y);
                return Err(e);
            },
        };
        let len = if x_values.len() <= y_values.len() { x_values.len() } else { y_values.len() };
        let mut points: Vec<(u64, u64)> = Vec::new();
        let mut i: usize = 0;
        while i < len
            invariant
                i <= len,
                len <= x_values@.len(),
                len <= y_values@.len(),
                len == x_values@.len() || len == y_values@.len(),
                points@.len() == i,
                forall|k: int| 0 <= k < i ==> #[trigger] points@[k] == (x_values@[k], y_values@[k]),
            decreases len - i,
        {
            points.push((x_values[i], y_values[i]));
            i = i + 1;
        }
        assert(points@ =~= zip_points(x_values@, y_values@));
        Ok(points)
    }
}

proof fn lemma_first_named_exists(t: DataTableView, name: Seq<char>, i: int)
    requires
        0 <= i < t.columns.len(),
        t.columns[i].name == name,
    ensures
        exists|k: int| is_first_named(t, name, k),
    decreases i,
{
    if exists|j: int| 0 <= j < i && t.columns[j].name == name {
        let j = choose|j: int| 0 <= j < i && t.columns[j].name == name;
        lemma_first_named_exists(t, name, j);
    } else {
        assert(is_first_named(t, name, i));
    }
}

} // verus!

verus! {

/// How the fields of one line are separated.
#[derive(Clone, Copy, Debug, PartialEq, Eq, Structural)]
pub enum Delimiter {
    Comma,
    Whitespace,
}

/// The fields of one line: for commas, the trimmed non-empty pieces between
/// commas; for white space, the runs of other characters.
pub open spec fn tokens_of(line: Seq<char>, d: Delimiter) -> Seq<Seq<char>> {
    match d {
        Delimiter::Comma => clean_tokens(split_on(line, ',')),
        Delimiter::Whitespace => words(line),
    }
}

/// Law: fields that are not empty, have no white space at either end and hold no
/// comma, joined by a comma with white space (or none) on either side of it, split
/// back into themselves.
pub proof fn law_comma_fields_round_trip(toks: Seq<Seq<char>>, l: Seq<char>, r: Seq<char>)
    requires
        all_white(l),
        all_white(r),
        forall|i: int| 0 <= i < toks.len() ==> trimmed_word(#[trigger] toks[i]) && !toks[i].contains(','),
    ensures
        tokens_of(join(toks, l + seq![','] + r), Delimiter::Comma) == toks,
{
    if toks.len() == 0 {
        let e = Seq::<char>::empty();
        assert(split_on(e, ',') == seq![e]);
        assert(seq![e].drop_last() =~= Seq::<Seq<char>>::empty());
        assert(trim(e) =~= e);
        assert(seq![e].last() == e);
        assert(clean_tokens(Seq::<Seq<char>>::empty()) =~= Seq::<Seq<char>>::empty());
        assert(clean_tokens(seq![e]) =~= Seq::<Seq<char>>::empty());
        assert(toks =~= Seq::<Seq<char>>::empty());
    } else {
        assert(!is_white_space(','));
        assert(!l.contains(',')) by {
            if l.contains(',') {
                let i = choose|i: int| 0 <= i < l.len() && l[i] == ',';
                assert(is_white_space(l[i]));
            }
        }
        assert(!r.contains(',')) by {
            if r.contains(',') {
                let i = choose|i: int| 0 <= i < r.len() && r[i] == ',';
                assert(is_white_space(r[i]));
            }
        }
        lemma_split_join(toks, l, ',', r);
        lemma_clean_padded(split_on(join(toks, l + seq![','] + r), ','), toks);
    }
}

/// Law: words that hold no white space, joined by single spaces, split back into
/// themselves.
pub proof fn law_words_round_trip(toks: Seq<Seq<char>>)
    requires
        forall|i: int| 0 <= i < toks.len() ==> (#[trigger] toks[i]).len() >= 1,
        forall|i: int, k: int|
            0 <= i < toks.len() && 0 <= k < toks[i].len() ==> !is_white_space(#[trigger] toks[i][k]),
    ensures
        tokens_of(join(toks, seq![' ']), Delimiter::Whitespace) == toks,
{
    lemma_words_join(toks);
}

/// The trimmed lines of a text that are neither empty nor comments (`#`).
pub open spec fn significant(p: Seq<Seq<char>>) -> Seq<Seq<char>>
    decreases p.len(),
{
    if p.len() == 0 {
        Seq::empty()
    } else {
        let r = significant(p.drop_last());
        let t = trim(p.last());
        if t.len() == 0 || t[0] == '#' {
            r
        } else {
            r.push(t)
        }
    }
}

/// The trimmed lines of `text` that carry data, in order.
pub open spec fn content_lines(text: Seq<char>) -> Seq<Seq<char>> {
    significant(split_on(text, '\n'))
}

/// The fields of each line.
pub open spec fn token_rows(lines: Seq<Seq<char>>, d: Delimiter) -> Seq<Seq<Seq<char>>> {
    Seq::new(lines.len(), |k: int| tokens_of(lines[k], d))
}

/// The characters of every string of every row.
pub open spec fn row_texts(v: Seq<Vec<String>>) -> Seq<Seq<Seq<char>>> {
    Seq::new(v.len(), |i: int| texts(v[i]@))
}

fn tokens_in(cs: &Vec<char>, lo: usize, hi: usize, d: Delimiter) -> (r: Vec<String>)
    requires
        lo <= hi <= cs.len(),
    ensures
        texts(r@) == tokens_of(cs@.subrange(lo as int, hi as int), d),
{
    match d {
        Delimiter::Comma => clean_pieces(cs, lo, hi, ','),
        Delimiter::Whitespace => words_in(cs, lo, hi),
    }
}

/// Splits one line into its fields.
pub fn split_tokens(line: &str, delimiter: Delimiter) -> (r: Vec<String>)
    ensures
        texts(r@) == tokens_of(line@, delimiter),
{
    let cs = chars_of(line);
    assert(cs@.subrange(0, cs@.len() as int) =~= cs@);
    tokens_in(&cs, 0, cs.len(), delimiter)
}

/// The fields of every line of `text` that carries data.
pub fn row_tokens(text: &str, delimiter: Delimiter) -> (r: Vec<Vec<String>>)
    ensures
        row_texts(r@) == token_rows(content_lines(text@), delimiter),
{
    let cs = chars_of(text);
    let n = cs.len();
    let mut out: Vec<Vec<String>> = Vec::new();
    let mut start: usize = 0;
    let mut i: usize = 0;
    proof {
        assert(cs@.subrange(0, 0) =~= Seq::<char>::empty());
    }
    while i < n
        invariant
            n == cs.len(),
            0 <= start <= i <= n,
            ({
                let p = split_on(cs@.subrange(0, i as int), '\n');
                &&& p.len() >= 1
                &&& row_texts(out@) == token_rows(significant(p.drop_last()), delimiter)
                &&& p.last() == cs@.subrange(start as int, i as int)
            }),
        decreases n - i,
    {
        let ghost s = cs@.subrange(0, i as int);
        let ghost p = split_on(s, '\n');
        let ghost s2 = cs@.subrange(0, i + 1);
        assert(s2.drop_last() =~= s);
        assert(s2.last() == cs@[i as int]);
        if cs[i] == '\n' {
            let (a, b) = trim_range(&cs, start, i);
            let ghost t = trim(p.last());
            let ghost before = row_texts(out@);
            if a < b && cs[a] != '#' {
                let toks = tokens_in(&cs, a, b, delimiter);
                out.push(toks);
                proof {
                    assert(t[0] == cs@[a as int]);
                    assert(row_texts(out@) =~= before.push(tokens_of(t, delimiter)));
                }
            } else {
                proof {
                    if a < b {
                        assert(t[0] == cs@[a as int]);
                    }
                }
            }
            proof {
                let p2 = split_on(s2, '\n');
                assert(p2 == p.push(Seq::empty()));
                assert(p2.drop_last() =~= p);
                assert(p.drop_last().push(p.last()) =~= p);
                assert(row_texts(out@) =~= token_rows(significant(p), delimiter));
                assert(cs@.subrange(i + 1, i + 1) =~= Seq::<char>::empty());
            }
            start = i + 1;
        } else {
            proof {
                let p2 = split_on(s2, '\n');
                assert(p2 == p.update(p.len() - 1, p.last().push(cs@[i as int])));
                assert(p2.drop_last() =~= p.drop_last());
                assert(cs@.subrange(start as int, i + 1) =~= p.last().push(cs@[i as int]));
            }
        }
        i = i + 1;
    }
    let ghost p = split_on(cs@.subrange(0, n as int), '\n');
    let ghost before = row_texts(out@);
    let (a, b) = trim_range(&cs, start, n);
    let ghost t = trim(p.last());
    if a < b && cs[a] != '#' {
        let toks = tokens_in(&cs, a, b, delimiter);
        out.push(toks);
        proof {
            assert(t[0] == cs@[a as int]);
            assert(row_texts(out@) =~= before.push(tokens_of(t, delimiter)));
        }
    } else {
        proof {
            if a < b {
                assert(t[0] == cs@[a as int]);
            }
        }
    }
    proof {
        assert(p.drop_last().push(p.last()) =~= p);
        assert(row_texts(out@) =~= token_rows(significant(p), delimiter));
        assert(cs@.subrange(0, n as int) =~= cs@);
    }
    out
}

} // verus!

verus! {

/// The message for a field that is not a number.
pub open spec fn parse_failure(token: Seq<char>) -> Seq<char> {
    "Failed to parse number: "@ + token
}

/// The values of the first `n` fields, or the failure for the first of them that
/// is not a number.
pub open spec fn numeric_prefix(tokens: Seq<Seq<char>>, vals: Seq<Option<u64>>, n: int) -> Result<
    Seq<u64>,
    Seq<char>,
>
    decreases n,
{
    if n <= 0 {
        Ok(Seq::empty())
    } else {
        match numeric_prefix(tokens, vals, n - 1) {
            Err(e) => Err(e),
            Ok(v) => match vals[n - 1] {
                None => Err(parse_failure(tokens[n - 1])),
                Some(x) => Ok(v.push(x)),
            },
        }
    }
}

/// The values of one row, or the failure for its first field that is not a number.
pub open spec fn numeric_row(tokens: Seq<Seq<char>>, vals: Seq<Option<u64>>) -> Result<Seq<u64>, Seq<char>> {
    numeric_prefix(tokens, vals, tokens.len() as int)
}

proof fn lemma_numeric_prefix(tokens: Seq<Seq<char>>, vals: Seq<Option<u64>>, n: int)
    requires
        0 <= n <= vals.len(),
    ensures
        (forall|j: int| 0 <= j < n ==> vals[j] is Some) ==> numeric_prefix(tokens, vals, n) is Ok,
        numeric_prefix(tokens, vals, n) matches Ok(v) ==> v.len() == n && forall|j: int|
            0 <= j < n ==> vals[j] == Some(#[trigger] v[j]),
    decreases n,
{
    if n > 0 {
        lemma_numeric_prefix(tokens, vals, n - 1);
    }
}

proof fn lemma_numeric_prefix_err(tokens: Seq<Seq<char>>, vals: Seq<Option<u64>>, n: int, m: int)
    requires
        0 <= n <= m,
        numeric_prefix(tokens, vals, n) is Err,
    ensures
        numeric_prefix(tokens, vals, m) == numeric_prefix(tokens, vals, n),
    decreases m - n,
{
    if m > n {
        lemma_numeric_prefix_err(tokens, vals, n, m - 1);
    }
}

/// The values of every field of a row, or the failure for the first field that is
/// not a number.
pub fn parse_numeric_row(tokens: &Vec<String>, values: &Vec<Option<u64>>) -> (r: Result<Vec<u64>, String>)
    requires
        values@.len() == tokens@.len(),
    ensures
        match r {
            Ok(v) => numeric_row(texts(tokens@), values@) == Ok::<Seq<u64>, Seq<char>>(v@),
            Err(e) => numeric_row(texts(tokens@), values@) == Err::<Seq<u64>, Seq<char>>(e@),
        },
{
    let ghost toks = texts(tokens@);
    let mut row: Vec<u64> = Vec::new();
    let mut j: usize = 0;
    while j < tokens.len()
        invariant
            j <= tokens.len(),
            values@.len() == tokens@.len(),
            toks == texts(tokens@),
            numeric_prefix(toks, values@, j as int) == Ok::<Seq<u64>, Seq<char>>(row@),
        decreases tokens.len() - j,
    {
        match values[j] {
            Some(x) => {
                row.push(x);
            },
            None => {
                let mut e = "Failed to parse number: ".to_owned();
                e.append(tokens[j].as_str());
                proof {
                    lemma_numeric_prefix_err(toks, values@, j + 1, tokens@.len() as int);
                }
                return Err(e);
            },
        }
        j = j + 1;
    }
    Ok(row)
}

/// Some field of the row is not a number.
pub open spec fn has_non_number(vals: Seq<Option<u64>>) -> bool {
    exists|j: int| 0 <= j < vals.len() && vals[j] is None
}

/// The message for a row whose number of fields differs from the header's.
pub open spec fn row_count_message(row: nat, found: nat, expected: nat) -> Seq<char> {
    "Row "@ + decimal(row) + " has "@ + decimal(found) + " values, expected "@ + decimal(expected)
}

/// `col_1`, `col_2`, ... for a file without a header line.
pub open spec fn generated_names(width: nat) -> Seq<Seq<char>> {
    Seq::new(width, |i: int| "col_"@ + decimal((i + 1) as nat))
}

/// The values of rows `1..n`, or the first failure among them: a row whose number
/// of fields is not `width`, or a field that is not a number.
pub open spec fn data_rows(
    rows: Seq<Seq<Seq<char>>>,
    vals: Seq<Seq<Option<u64>>>,
    width: nat,
    n: int,
) -> Result<Seq<Seq<u64>>, Seq<char>>
    decreases n,
{
    if n <= 1 {
        Ok(Seq::empty())
    } else {
        match data_rows(rows, vals, width, n - 1) {
            Err(e) => Err(e),
            Ok(acc) => if rows[n - 1].len() != width {
                Err(row_count_message(n as nat, rows[n - 1].len(), width))
            } else {
                match numeric_row(rows[n - 1], vals[n - 1]) {
                    Err(e) => Err(e),
                    Ok(r) => Ok(acc.push(r)),
                }
            },
        }
    }
}

proof fn lemma_data_rows_err(
    rows: Seq<Seq<Seq<char>>>,
    vals: Seq<Seq<Option<u64>>>,
    width: nat,
    n: int,
    m: int,
)
    requires
        n <= m,
        data_rows(rows, vals, width, n) is Err,
    ensures
        data_rows(rows, vals, width, m) == data_rows(rows, vals, width, n),
    decreases m - n,
{
    if m > n {
        lemma_data_rows_err(rows, vals, width, n, m - 1);
    }
}

pub open spec fn empty_input_message() -> Seq<char> {
    "Input file is empty / Fail pust"@
}

pub open spec fn empty_first_row_message() -> Seq<char> {
    "First row has no values / V pervoy stroke net znacheniy"@
}

pub open spec fn no_rows_message() -> Seq<char> {
    "No numeric rows found / Net chislovyh strok"@
}

/// The table whose column `k` is named `names[k]` and holds `data[r][k]` in row `r`.
pub open spec fn table_of(names: Seq<Seq<char>>, data: Seq<Seq<u64>>) -> DataTableView {
    DataTableView {
        columns: Seq::new(
            names.len(),
            |k: int| ColumnView { name: names[k], values: Seq::new(data.len(), |r: int| data[r][k]) },
        ),
        row_count: data.len(),
    }
}

/// What the parser makes of the fields of the data lines, given what each field
/// parses to as a number. The first line is a header when one of its fields is not
/// a number; otherwise the columns are named `col_1`, `col_2`, ... and the first
/// line is data.
pub open spec fn table_from_fields(rows: Seq<Seq<Seq<char>>>, vals: Seq<Seq<Option<u64>>>) -> Result<
    DataTableView,
    Seq<char>,
> {
    if rows.len() == 0 {
        Err(empty_input_message())
    } else if rows[0].len() == 0 {
        Err(empty_first_row_message())
    } else {
        let width = rows[0].len();
        let header = has_non_number(vals[0]);
        let names = if header { rows[0] } else { generated_names(width) };
        match data_rows(rows, vals, width, rows.len() as int) {
            Err(e) => Err(e),
            Ok(rest) => {
                let data = if header {
                    rest
                } else {
                    seq![Seq::new(width, |j: int| vals[0][j]->0)] + rest
                };
                if data.len() == 0 {
                    Err(no_rows_message())
                } else {
                    Ok(table_of(names, data))
                }
            },
        }
    }
}

/// The views of rows of optional values.
pub open spec fn value_rows(v: Seq<Vec<Option<u64>>>) -> Seq<Seq<Option<u64>>> {
    Seq::new(v.len(), |i: int| v[i]@)
}

/// Every row of values has one value per field.
pub open spec fn same_shape(rows: Seq<Vec<String>>, values: Seq<Vec<Option<u64>>>) -> bool {
    &&& values.len() == rows.len()
    &&& forall|i: int| 0 <= i < rows.len() ==> (#[trigger] values[i])@.len() == rows[i]@.len()
}

fn copy_texts(v: &Vec<String>) -> (r: Vec<String>)
    ensures
        texts(r@) == texts(v@),
{
    let mut r: Vec<String> = Vec::new();
    let mut i: usize = 0;
    while i < v.len()
        invariant
            i <= v.len(),
            r@.len() == i,
            forall|k: int| 0 <= k < i ==> #[trigger] r@[k]@ == v@[k]@,
        decreases v.len() - i,
    {
        r.push(v[i].clone());
        i = i + 1;
    }
    assert(texts(r@) =~= texts(v@));
    r
}

fn make_generated_names(width: usize) -> (r: Vec<String>)
    ensures
        texts(r@) == generated_names(width as nat),
{
    let mut r: Vec<String> = Vec::new();
    let mut i: usize = 0;
    while i < width
        invariant
            i <= width,
            r@.len() == i,
            forall|k: int| 0 <= k < i ==> #[trigger] r@[k]@ == "col_"@ + decimal((k + 1) as nat),
        decreases width - i,
    {
        let mut name = "col_".to_owned();
        push_decimal(&mut name, (i as u64) + 1);
        r.push(name);
        i = i + 1;
    }
    assert(texts(r@) =~= generated_names(width as nat));
    r
}

/// Builds the table from the fields of the data lines and what each field parses
/// to as a number.
pub fn table_from_rows(rows: &Vec<Vec<String>>, values: &Vec<Vec<Option<u64>>>) -> (r: Result<
    DataTable,
    String,
>)
    requires
        same_shape(rows@, values@),
    ensures
        match r {
            Ok(t) => table_from_fields(row_texts(rows@), value_rows(values@)) == Ok::<
                DataTableView,
                Seq<char>,
            >(t@),
            Err(e) => table_from_fields(row_texts(rows@), value_rows(values@)) == Err::<
                DataTableView,
                Seq<char>,
            >(e@),
        },
{
    let ghost rs = row_texts(rows@);
    let ghost vs = value_rows(values@);
    if rows.len() == 0 {
        return Err("Input file is empty / Fail pust".to_owned());
    }
    let width = rows[0].len();
    assert(rs[0] == texts(rows@[0]@));
    if width == 0 {
        return Err("First row has no values / V pervoy stroke net znacheniy".to_owned());
    }
    assert(values@[0]@.len() == rows@[0]@.len());
    assert(vs[0] == values@[0]@);
    let mut header = false;
    let mut j: usize = 0;
    while j < width
        invariant
            j <= width,
            0 < rows@.len(),
            width == rows@[0]@.len(),
            values@[0]@.len() == width,
            vs[0] == values@[0]@,
            same_shape(rows@, values@),
            vs == value_rows(values@),
            header == exists|k: int| 0 <= k < j && vs[0][k] is None,
        decreases width - j,
    {
        if values[0][j].is_none() {
            header = true;
        }
        j = j + 1;
    }
    assert(header == has_non_number(vs[0]));
    let names: Vec<String> = if header {
        copy_texts(&rows[0])
    } else {
        make_generated_names(width)
    };
    let mut data: Vec<Vec<u64>> = Vec::new();
    if !header {
        proof {
            lemma_numeric_prefix(rs[0], vs[0], width as int);
        }
        match parse_numeric_row(&rows[0], &values[0]) {
            Ok(v) => data.push(v),
            Err(e) => return Err(e),
        }
    }
    let ghost first: Seq<Seq<u64>> = if header { Seq::empty() } else { seq![Seq::new(width as nat, |j: int| vs[0][j]->0)] };
    proof {
        if !header {
            lemma_numeric_prefix(rs[0], vs[0], width as int);
            assert(data@[0]@ =~= Seq::new(width as nat, |j: int| vs[0][j]->0));
        }
    }
    let mut i: usize = 1;
    while i < rows.len()
        invariant
            1 <= i <= rows@.len(),
            width == rs[0].len(),
            width > 0,
            same_shape(rows@, values@),
            rs == row_texts(rows@),
            vs == value_rows(values@),
            data_rows(rs, vs, width as nat, i as int) matches Ok(acc) && Seq::new(
                data@.len(),
                |k: int| data@[k]@,
            ) == first + acc,
            first.len() <= 1,
            forall|k: int| 0 <= k < data@.len() ==> (#[trigger] data@[k])@.len() == width,
        decreases rows@.len() - i,
    {
        let ghost acc = data_rows(rs, vs, width as nat, i as int)->Ok_0;
        assert(rs[i as int] == texts(rows@[i as int]@));
        assert(vs[i as int] == values@[i as int]@);
        if rows[i].len() != width {
            let mut e = "Row ".to_owned();
            push_decimal(&mut e, (i as u64) + 1);
            e.append(" has ");
            push_decimal(&mut e, rows[i].len() as u64);
            e.append(" values, expected ");
            push_decimal(&mut e, width as u64);
            proof {
                assert(rs[i as int].len() == rows@[i as int]@.len());
                assert(e@ =~= row_count_message((i + 1) as nat, rs[i as int].len(), width as nat));
                assert(data_rows(rs, vs, width as nat, i + 1) == Err::<Seq<Seq<u64>>, Seq<char>>(
                    row_count_message((i + 1) as nat, rs[i as int].len(), width as nat),
                ));
                lemma_data_rows_err(rs, vs, width as nat, i + 1, rows@.len() as int);
                assert(rs.len() == rows@.len());
                assert(data_rows(rs, vs, rs[0].len(), rs.len() as int) == Err::<Seq<Seq<u64>>, Seq<char>>(e@));
            }
            return Err(e);
        }
        match parse_numeric_row(&rows[i], &values[i]) {
            Ok(v) => {
                proof {
                    lemma_numeric_prefix(rs[i as int], vs[i as int], width as int);
                }
                let ghost before = Seq::new(data@.len(), |k: int| data@[k]@);
                data.push(v);
                proof {
                    assert(Seq::new(data@.len(), |k: int| data@[k]@) =~= before.push(v@));
                    assert(first + acc.push(v@) =~= (first + acc).push(v@));
                }
            },
            Err(e) => {
                proof {
                    lemma_data_rows_err(rs, vs, width as nat, i + 1, rows@.len() as int);
                }
                return Err(e);
            },
        }
        i = i + 1;
    }
    let ghost all = Seq::new(data@.len(), |k: int| data@[k]@);
    if data.len() == 0 {
        return Err("No numeric rows found / Net chislovyh strok".to_owned());
    }
    let mut columns: Vec<ColumnData> = Vec::new();
    let mut k: usize = 0;
    while k < width
        invariant
            k <= width,
            width == names@.len(),
            all == Seq::new(data@.len(), |q: int| data@[q]@),
            forall|q: int| 0 <= q < data@.len() ==> (#[trigger] data@[q])@.len() == width,
            columns@.len() == k,
            forall|c: int| 0 <= c < k ==> #[trigger] columns@[c]@ == (ColumnView {
                name: texts(names@)[c],
                values: Seq::new(all.len(), |r: int| all[r][c]),
            }),
        decreases width - k,
    {
        let mut vals: Vec<u64> = Vec::new();
        let mut r: usize = 0;
        while r < data.len()
            invariant
                r <= data@.len(),
                k < width,
                all == Seq::new(data@.len(), |q: int| data@[q]@),
                forall|q: int| 0 <= q < data@.len() ==> (#[trigger] data@[q])@.len() == width,
                vals@.len() == r,
                forall|q: int| 0 <= q < r ==> #[trigger] vals@[q] == all[q][k as int],
            decreases data@.len() - r,
        {
            vals.push(data[r][k]);
            r = r + 1;
        }
        let column = ColumnData { name: names[k].clone(), values: vals };
        proof {
            assert(column@.values =~= Seq::new(all.len(), |q: int| all[q][k as int]));
        }
        columns.push(column);
        k = k + 1;
    }
    let table = DataTable { columns, row_count: data.len() };
    proof {
        let rest = data_rows(rs, vs, width as nat, rows@.len() as int)->Ok_0;
        let d = if header { rest } else { seq![Seq::new(width as nat, |j: int| vs[0][j]->0)] + rest };
        if header {
            assert(first + rest =~= rest);
        }
        assert(all =~= d);
        let nm = if header { rs[0] } else { generated_names(width as nat) };
        assert(texts(names@) == nm);
        assert(table@.columns =~= table_of(nm, d).columns);
        assert(table@ == table_of(nm, d));
        assert(table_from_fields(rs, vs) == Ok::<DataTableView, Seq<char>>(table_of(nm, d)));
    }
    Ok(table)
}

} // verus!

verus! {

/// `parse_number` can give `v` for a field holding `token`.
pub open spec fn parses_to<F: Fn(&str) -> Option<u64>>(
    parse_number: F,
    token: Seq<char>,
    v: Option<u64>,
) -> bool {
    exists|t: &str| t@ == token && #[trigger] parse_number.ensures((t,), v)
}

/// Every field of every row parses, by `parse_number`, to the recorded value.
pub open spec fn parsed_by<F: Fn(&str) -> Option<u64>>(
    parse_number: F,
    rows: Seq<Seq<Seq<char>>>,
    vals: Seq<Seq<Option<u64>>>,
) -> bool {
    &&& vals.len() == rows.len()
    &&& forall|i: int| 0 <= i < rows.len() ==> (#[trigger] vals[i]).len() == rows[i].len()
    &&& forall|i: int, j: int|
        0 <= i < rows.len() && 0 <= j < rows[i].len() ==> #[trigger] parses_to(
            parse_number,
            rows[i][j],
            vals[i][j],
        )
}

/// Parses delimited text into a numeric table. `parse_number` reads one field as
/// a binary64 number (its bit pattern), or gives `None` when the field is not a
/// number.
pub fn parse_delimited<F: Fn(&str) -> Option<u64>>(
    text: &str,
    delimiter: Delimiter,
    parse_number: &F,
) -> (r: Result<DataTable, String>)
    requires
        forall|s: &str| parse_number.requires((s,)),
    ensures
        exists|vals: Seq<Seq<Option<u64>>>|
            {
                &&& parsed_by(*parse_number, token_rows(content_lines(text@), delimiter), vals)
                &&& match r {
                    Ok(t) => table_from_fields(token_rows(content_lines(text@), delimiter), vals)
                        == Ok::<DataTableView, Seq<char>>(t@),
                    Err(e) => table_from_fields(token_rows(content_lines(text@), delimiter), vals)
                        == Err::<DataTableView, Seq<char>>(e@),
                }
            },
{
    let rows = row_tokens(text, delimiter);
    let ghost rs = row_texts(rows@);
    let mut values: Vec<Vec<Option<u64>>> = Vec::new();
    let mut i: usize = 0;
    while i < rows.len()
        invariant
            i <= rows@.len(),
            rs == row_texts(rows@),
            forall|s: &str| parse_number.requires((s,)),
            values@.len() == i,
            forall|k: int| 0 <= k < i ==> (#[trigger] values@[k])@.len() == rows@[k]@.len(),
            forall|k: int, j: int|
                0 <= k < i && 0 <= j < rows@[k]@.len() ==> #[trigger] parses_to(
                    *parse_number,
                    rs[k][j],
                    values@[k]@[j],
                ),
        decreases rows@.len() - i,
    {
        let mut row_values: Vec<Option<u64>> = Vec::new();
        let mut j: usize = 0;
        while j < rows[i].len()
            invariant
                i < rows@.len(),
                j <= rows@[i as int]@.len(),
                rs == row_texts(rows@),
                forall|s: &str| parse_number.requires((s,)),
                row_values@.len() == j,
                forall|q: int|
                    0 <= q < j ==> #[trigger] parses_to(*parse_number, rs[i as int][q], row_values@[q]),
            decreases rows@[i as int]@.len() - j,
        {
            let field: &str = rows[i][j].as_str();
            let v = parse_number(field);
            assert(field@ == rs[i as int][j as int]);
            row_values.push(v);
            proof {
                assert forall|q: int|
                    0 <= q < j + 1 implies #[trigger] parses_to(
                        *parse_number,
                        rs[i as int][q],
                        row_values@[q],
                    ) by {
                    if q == j {
                        assert(field@ == rs[i as int][q] && parse_number.ensures(
                            (field,),
                            row_values@[q],
                        ));
                    }
                }
            }
            j = j + 1;
        }
        values.push(row_values);
        i = i + 1;
    }
    let r = table_from_rows(&rows, &values);
    proof {
        let vs = value_rows(values@);
        assert(parsed_by(*parse_number, rs, vs));
    }
    r
}

} // verus!

verus! {

/// Generic data-provider contract for embedding this crate into host apps.
/// Values are binary64 numbers given by their IEEE-754 bit patterns.
///
/// An implementation gives the same answers every time it is asked: its names,
/// its number of rows and the column of each name are stated by the three spec
/// functions, which an implementation defines (the defaults describe a source
/// without columns).
pub trait DataSource {
    /// The names of the columns, in display order.
    closed spec fn names_spec(&self) -> Seq<Seq<char>> {
        Seq::empty()
    }

    /// The number of rows.
    closed spec fn len_spec(&self) -> nat {
        0
    }

    /// The values of the column named `name`, if there is one.
    closed spec fn column_spec(&self, name: Seq<char>) -> Option<Seq<u64>> {
        None
    }

    fn column(&self, name: &str) -> (r: Option<Vec<u64>>)
        ensures
            match r {
                Some(v) => self.column_spec(name@) == Some(v@),
                None => self.column_spec(name@) is None,
            },
    ;

    fn column_names(&self) -> (r: Vec<String>)
        ensures
            texts(r@) == self.names_spec(),
    ;

    fn len(&self) -> (r: usize)
        ensures
            r == self.len_spec(),
    ;
}

/// What a source answers for each of its names, in order.
pub open spec fn source_answers<S: DataSource>(source: &S) -> Seq<Option<Seq<u64>>> {
    Seq::new(source.names_spec().len(), |k: int| source.column_spec(source.names_spec()[k]))
}

/// The table, or the error, that a source's answers give.
pub open spec fn source_table<S: DataSource>(source: &S) -> Result<DataTableView, Seq<char>> {
    table_from_answers_spec(source.names_spec(), source.len_spec(), source_answers(source))
}

/// The smaller of `len` and the lengths of the first `n` columns.
pub open spec fn common_rows(len: nat, cols: Seq<Seq<u64>>, n: int) -> nat
    decreases n,
{
    if n <= 0 {
        len
    } else {
        let m = common_rows(len, cols, n - 1);
        if cols[n - 1].len() < m {
            cols[n - 1].len()
        } else {
            m
        }
    }
}

proof fn lemma_common_rows(len: nat, cols: Seq<Seq<u64>>, n: int)
    requires
        0 <= n <= cols.len(),
    ensures
        common_rows(len, cols, n) <= len,
        forall|k: int| 0 <= k < n ==> common_rows(len, cols, n) <= (#[trigger] cols[k]).len(),
    decreases n,
{
    if n > 0 {
        lemma_common_rows(len, cols, n - 1);
    }
}

/// The table of the named columns, each cut to the rows that all of them and
/// `len` allow.
pub open spec fn table_of_columns(names: Seq<Seq<char>>, len: nat, cols: Seq<Seq<u64>>) -> DataTableView {
    let rows = common_rows(len, cols, cols.len() as int);
    DataTableView {
        columns: Seq::new(
            names.len(),
            |k: int| ColumnView { name: names[k], values: cols[k].subrange(0, rows as int) },
        ),
        row_count: rows,
    }
}

pub open spec fn no_columns_message() -> Seq<char> {
    "Data source has no columns / Istochnik ne soderzhit stolbcov"@
}

pub open spec fn missing_column_message(name: Seq<char>) -> Seq<char> {
    "Missing column in source: "@ + name
}

impl DataTable {
    /// Assembles a table from named columns, cutting every column to the rows
    /// that all of them and `len` have.
    pub fn from_columns(names: Vec<String>, len: usize, columns: Vec<Vec<u64>>) -> (r: DataTable)
        requires
            names@.len() == columns@.len(),
        ensures
            r@ == table_of_columns(texts(names@), len as nat, Seq::new(columns@.len(), |k: int| columns@[k]@)),
            table_wf(r@),
    {
        let ghost cols = Seq::new(columns@.len(), |k: int| columns@[k]@);
        let mut rows = len;
        let mut k: usize = 0;
        while k < columns.len()
            invariant
                k <= columns@.len(),
                cols == Seq::new(columns@.len(), |q: int| columns@[q]@),
                rows == common_rows(len as nat, cols, k as int),
            decreases columns@.len() - k,
        {
            if columns[k].len() < rows {
                rows = columns[k].len();
            }
            k = k + 1;
        }
        proof {
            lemma_common_rows(len as nat, cols, cols.len() as int);
        }
        let mut names = names;
        let mut columns = columns;
        let ghost names0 = texts(names@);
        let ghost cols0 = cols;
        let mut out: Vec<ColumnData> = Vec::new();
        let mut k: usize = 0;
        while k < columns.len()
            invariant
                k <= columns@.len(),
                columns@.len() == names@.len(),
                names0 == texts(names@),
                cols0 == Seq::new(columns@.len(), |q: int| columns@[q]@),
                forall|q: int| 0 <= q < cols0.len() ==> rows <= (#[trigger] cols0[q]).len(),
                out@.len() == k,
                forall|q: int| 0 <= q < k ==> #[trigger] out@[q]@ == (ColumnView {
                    name: names0[q],
                    values: cols0[q].subrange(0, rows as int),
                }),
            decreases columns@.len() - k,
        {
            let mut values = copy_values(&columns[k]);
            assert(values@ == cols0[k as int]);
            values.truncate(rows);
            out.push(ColumnData { name: names[k].clone(), values });
            k = k + 1;
        }
        let r = DataTable { columns: out, row_count: rows };
        proof {
            assert(r@.columns =~= table_of_columns(names0, len as nat, cols0).columns);
        }
        r
    }

    /// Normalizes any `DataSource` implementation into a `DataTable`: the named
    /// columns, each cut to the rows that all of them and `source.len()` have.
    ///
    /// It asks the source for its names, then (when there are any) for its length,
    /// then for the column of each name in order, stopping at the first that is
    /// missing; what comes back is `table_from_answers` of those answers. Whatever
    /// the source answers, a table that comes back has at least one column and
    /// every column has `row_count` values; a failure names no columns or the first
    /// missing one.
    pub fn from_data_source<S: DataSource>(source: &S) -> (r: Result<DataTable, String>)
        ensures
            table_result(r) == source_table(source),
            match r {
                Ok(t) => table_wf(t@) && t@.columns.len() >= 1,
                Err(e) => e@ == no_columns_message() || exists|name: Seq<char>|
                    e@ == missing_column_message(name),
            },
    {
        let ghost full = source_answers(source);
        let names = source.column_names();
        if names.len() == 0 {
            let r = table_from_answers(names, 0, Vec::new());
            proof {
                lemma_answers_outcome(texts(names@), 0, answers_view(Seq::empty()));
            }
            return r;
        }
        let len = source.len();
        let mut answers: Vec<Option<Vec<u64>>> = Vec::new();
        let mut k: usize = 0;
        let mut missing = false;
        while k < names.len() && !missing
            invariant
                k <= names@.len(),
                texts(names@) == source.names_spec(),
                full == source_answers(source),
                answers@.len() == k,
                forall|j: int| 0 <= j < k ==> #[trigger] answers_view(answers@)[j] == full[j],
                missing ==> k > 0 && answers@[k - 1] is None,
                !missing ==> forall|j: int| 0 <= j < k ==> (#[trigger] answers@[j]) is Some,
            decreases names@.len() - k,
        {
            let a = source.column(names[k].as_str());
            proof {
                assert(texts(names@)[k as int] == names@[k as int]@);
            }
            missing = a.is_none();
            let ghost before = answers@;
            answers.push(a);
            proof {
                assert forall|j: int| 0 <= j < k + 1 implies #[trigger] answers_view(answers@)[j]
                    == full[j] by {
                    if j < k {
                        assert(answers@[j] == before[j]);
                        assert(answers_view(before)[j] == full[j]);
                    }
                }
            }
            k = k + 1;
        }
        let ghost av = answers_view(answers@);
        let ghost nv = texts(names@);
        assert(answers_fit(nv, av)) by {
            if !missing {
                assert(k == names@.len());
            } else {
                assert(av.last() is None);
            }
        }
        let r = table_from_answers(names, len, answers);
        proof {
            lemma_answers_outcome(nv, len as nat, av);
            lemma_prefix_answers(nv, len as nat, av, full);
        }
        r
    }
}

/// The answers of a source, by their views.
pub open spec fn answers_view(a: Seq<Option<Vec<u64>>>) -> Seq<Option<Seq<u64>>> {
    Seq::new(
        a.len(),
        |k: int|
            match a[k] {
                Some(v) => Some(v@),
                None => None,
            },
    )
}

/// A result of building a table, by its view.
pub open spec fn table_result(r: Result<DataTable, String>) -> Result<DataTableView, Seq<char>> {
    match r {
        Ok(t) => Ok(t@),
        Err(e) => Err(e@),
    }
}

/// `k` is the first answer that gives no column.
pub open spec fn is_first_missing(answers: Seq<Option<Seq<u64>>>, k: int) -> bool {
    &&& 0 <= k < answers.len()
    &&& answers[k] is None
    &&& forall|j: int| 0 <= j < k ==> answers[j] is Some
}

/// One answer for each name in order, possibly stopping right after the first that
/// gives no column.
pub open spec fn answers_fit(names: Seq<Seq<char>>, answers: Seq<Option<Seq<u64>>>) -> bool {
    ||| answers.len() == names.len()
    ||| (0 < answers.len() <= names.len() && answers.last() is None)
}

/// The columns that the answers give.
pub open spec fn answered_columns(answers: Seq<Option<Seq<u64>>>) -> Seq<Seq<u64>> {
    Seq::new(answers.len(), |k: int| answers[k]->Some_0)
}

/// The table built from a source's answers: no names is an error, so is the first
/// name whose column is missing; otherwise the columns cut to their common rows.
pub open spec fn table_from_answers_spec(
    names: Seq<Seq<char>>,
    len: nat,
    answers: Seq<Option<Seq<u64>>>,
) -> Result<DataTableView, Seq<char>> {
    if names.len() == 0 {
        Err(no_columns_message())
    } else if exists|k: int| is_first_missing(answers, k) {
        Err(missing_column_message(names[choose|k: int| is_first_missing(answers, k)]))
    } else {
        Ok(table_of_columns(names, len, answered_columns(answers)))
    }
}


proof fn lemma_first_missing_unique(answers: Seq<Option<Seq<u64>>>, i: int, j: int)
    requires
        is_first_missing(answers, i),
        is_first_missing(answers, j),
    ensures
        i == j,
{
    if i < j {
        assert(answers[i] is Some);
    } else if j < i {
        assert(answers[j] is Some);
    }
}

proof fn lemma_first_missing_exists(answers: Seq<Option<Seq<u64>>>, j: int)
    requires
        0 <= j < answers.len(),
        answers[j] is None,
    ensures
        exists|k: int| is_first_missing(answers, k),
    decreases j,
{
    if forall|i: int| 0 <= i < j ==> answers[i] is Some {
        assert(is_first_missing(answers, j));
    } else {
        let i = choose|i: int| 0 <= i < j && !(answers[i] is Some);
        lemma_first_missing_exists(answers, i);
    }
}

/// Answers that stop right after the first missing column give what the answers
/// for every name give.
proof fn lemma_prefix_answers(
    names: Seq<Seq<char>>,
    len: nat,
    av: Seq<Option<Seq<u64>>>,
    full: Seq<Option<Seq<u64>>>,
)
    requires
        answers_fit(names, av),
        full.len() == names.len(),
        forall|j: int| 0 <= j < av.len() ==> #[trigger] av[j] == full[j],
    ensures
        table_from_answers_spec(names, len, av) == table_from_answers_spec(names, len, full),
{
    if av.len() == full.len() {
        assert(av =~= full);
    } else {
        lemma_first_missing_exists(av, av.len() - 1);
        let k = choose|k: int| is_first_missing(av, k);
        assert(av[k] == full[k]);
        assert forall|j: int| 0 <= j < k implies full[j] is Some by {
            assert(av[j] == full[j]);
        }
        assert(is_first_missing(full, k));
        let c = choose|c: int| is_first_missing(full, c);
        lemma_first_missing_unique(full, k, c);
    }
}

/// What holds of a table built from any answers that fit the names.
proof fn lemma_answers_outcome(names: Seq<Seq<char>>, len: nat, answers: Seq<Option<Seq<u64>>>)
    requires
        answers_fit(names, answers),
    ensures
        match table_from_answers_spec(names, len, answers) {
            Ok(t) => table_wf(t) && t.columns.len() >= 1,
            Err(e) => e == no_columns_message() || exists|name: Seq<char>|
                e == missing_column_message(name),
        },
{
    if names.len() > 0 && !(exists|k: int| is_first_missing(answers, k)) {
        if answers.len() != names.len() {
            lemma_first_missing_exists(answers, answers.len() - 1);
        }
        law_source_table_is_rectangular(names, len, answered_columns(answers));
    } else if names.len() > 0 {
        let k = choose|k: int| is_first_missing(answers, k);
        assert(table_from_answers_spec(names, len, answers) == Err::<DataTableView, Seq<char>>(
            missing_column_message(names[k]),
        ));
    }
}

/// The column names of `t` are pairwise distinct.
pub open spec fn names_distinct(t: DataTableView) -> bool {
    forall|i: int, j: int| 0 <= i < j < t.columns.len() ==> t.columns[i].name != t.columns[j].name
}

/// What a table answers as a data source for each of its names, in order.
pub open spec fn table_answers(t: DataTableView) -> Seq<Option<Seq<u64>>> {
    Seq::new(t.columns.len(), |k: int| column_values_of(t, t.columns[k].name))
}

proof fn lemma_common_rows_full(len: nat, cols: Seq<Seq<u64>>, n: int)
    requires
        0 <= n <= cols.len(),
        forall|k: int| 0 <= k < n ==> (#[trigger] cols[k]).len() == len,
    ensures
        common_rows(len, cols, n) == len,
    decreases n,
{
    if n > 0 {
        lemma_common_rows_full(len, cols, n - 1);
    }
}

/// Law: a table with a column, distinct names and every column `row_count` long,
/// read back through its own answers as a data source (its names, its row count,
/// the column of each name), gives itself.
pub proof fn law_table_answers_round_trip(t: DataTableView)
    requires
        table_wf(t),
        t.columns.len() >= 1,
        names_distinct(t),
    ensures
        answers_fit(column_names_of(t), table_answers(t)),
        table_from_answers_spec(column_names_of(t), t.row_count, table_answers(t))
            == Ok::<DataTableView, Seq<char>>(t),
{
    let answers = table_answers(t);
    let names = column_names_of(t);
    assert forall|k: int| 0 <= k < answers.len() implies #[trigger] answers[k] == Some(
        t.columns[k].values,
    ) by {
        assert(is_first_named(t, t.columns[k].name, k));
        lemma_column_position(t, t.columns[k].name, k);
    }
    if exists|k: int| is_first_missing(answers, k) {
        let k = choose|k: int| is_first_missing(answers, k);
        assert(answers[k] == Some(t.columns[k].values));
    }
    let cols = answered_columns(answers);
    assert forall|k: int| 0 <= k < cols.len() implies (#[trigger] cols[k]).len() == t.row_count by {
        assert(answers[k] == Some(t.columns[k].values));
    }
    lemma_common_rows_full(t.row_count, cols, cols.len() as int);
    let r = table_of_columns(names, t.row_count, cols);
    assert forall|k: int| 0 <= k < t.columns.len() implies #[trigger] r.columns[k] == t.columns[k] by {
        assert(answers[k] == Some(t.columns[k].values));
        assert(cols[k].subrange(0, t.row_count as int) =~= t.columns[k].values);
    }
    assert(r.columns =~= t.columns);
}

/// Builds the table from what a source answered: its names, its length and the
/// column of each name in order (stopping after the first missing one). No names
/// give the "no columns" error, the first missing column names itself in an error,
/// and otherwise the columns are cut to the rows that all of them and `len` have.
pub fn table_from_answers(names: Vec<String>, len: usize, answers: Vec<Option<Vec<u64>>>) -> (r: Result<
    DataTable,
    String,
>)
    requires
        answers_fit(texts(names@), answers_view(answers@)),
    ensures
        table_result(r) == table_from_answers_spec(texts(names@), len as nat, answers_view(answers@)),
{
    let ghost av = answers_view(answers@);
    let ghost nv = texts(names@);
    if names.len() == 0 {
        return Err("Data source has no columns / Istochnik ne soderzhit stolbcov".to_owned());
    }
    let mut columns: Vec<Vec<u64>> = Vec::new();
    let mut k: usize = 0;
    while k < answers.len()
        invariant
            k <= answers@.len(),
            answers@.len() <= names@.len(),
            av == answers_view(answers@),
            nv == texts(names@),
            columns@.len() == k,
            forall|j: int| 0 <= j < k ==> (#[trigger] av[j]) is Some && columns@[j]@ == av[j]->Some_0,
        decreases answers@.len() - k,
    {
        match &answers[k] {
            Some(v) => {
                columns.push(copy_values(v));
            },
            None => {
                let mut e = "Missing column in source: ".to_owned();
                e.append(names[k].as_str());
                proof {
                    assert(is_first_missing(av, k as int));
                    let c = choose|c: int| is_first_missing(av, c);
                    lemma_first_missing_unique(av, k as int, c);
                    assert(e@ == missing_column_message(nv[k as int]));
                }
                return Err(e);
            },
        }
        k = k + 1;
    }
    proof {
        if exists|c: int| is_first_missing(av, c) {
            let c = choose|c: int| is_first_missing(av, c);
            assert(av[c] is Some);
        }
        if answers@.len() != names@.len() {
            assert(av[av.len() - 1] is Some);
        }
        assert(Seq::new(columns@.len(), |q: int| columns@[q]@) =~= answered_columns(av));
    }
    let t = DataTable::from_columns(names, len, columns);
    Ok(t)
}

impl DataSource for DataTable {
    open spec fn names_spec(&self) -> Seq<Seq<char>> {
        column_names_of(self@)
    }

    open spec fn len_spec(&self) -> nat {
        self.row_count as nat
    }

    open spec fn column_spec(&self, name: Seq<char>) -> Option<Seq<u64>> {
        column_values_of(self@, name)
    }

    fn column(&self, name: &str) -> (r: Option<Vec<u64>>) {
        match self.find_column(name) {
            Some(i) => Some(copy_values(&self.columns[i].values)),
            None => None,
        }
    }

    fn column_names(&self) -> (r: Vec<String>) {
        DataTable::column_names(self)
    }

    fn len(&self) -> (r: usize) {
        self.row_count
    }
}

/// Law: a table with a column, distinct names and every column `row_count` long,
/// normalized as a data source, gives itself.
pub proof fn law_table_source_round_trip(t: &DataTable)
    requires
        table_wf(t@),
        t@.columns.len() >= 1,
        names_distinct(t@),
    ensures
        source_table(t) == Ok::<DataTableView, Seq<char>>(t@),
{
    assert(source_answers(t) =~= table_answers(t@));
    law_table_answers_round_trip(t@);
}

} // verus!

verus! {

/// Law: a parsed table is rectangular: it has one column per field of the first
/// data line, at least one row, and every column holds exactly `row_count` values.
pub proof fn law_parsed_table_is_rectangular(rows: Seq<Seq<Seq<char>>>, vals: Seq<Seq<Option<u64>>>)
    ensures
        table_from_fields(rows, vals) matches Ok(t) ==> {
            &&& table_wf(t)
            &&& t.columns.len() == rows[0].len()
            &&& t.row_count >= 1
        },
{
}

/// Law: a table assembled from a data source is rectangular, and its row count is
/// at most the length that the source reports and at most that of every column.
pub proof fn law_source_table_is_rectangular(names: Seq<Seq<char>>, len: nat, cols: Seq<Seq<u64>>)
    requires
        names.len() == cols.len(),
    ensures
        table_wf(table_of_columns(names, len, cols)),
        table_of_columns(names, len, cols).row_count <= len,
        forall|k: int|
            0 <= k < cols.len() ==> table_of_columns(names, len, cols).row_count <= (#[trigger] cols[k]).len(),
{
    lemma_common_rows(len, cols, cols.len() as int);
}

} // verus!
