use vstd::prelude::*;

verus! {

/// A hyperlink inside a text: target and shown text.
#[derive(Clone, Debug, PartialEq, Eq, Hash, PartialOrd, Ord)]
pub struct TextLink {
    href: String,
    text: String,
}

impl TextLink {
    pub fn new(href: String, text: String) -> (r: TextLink)
        ensures
            r.href() == href@,
            r.text() == text@,
    {
        TextLink { href, text }
    }

    pub closed spec fn href(&self) -> Seq<char> {
        self.href@
    }

    pub closed spec fn text(&self) -> Seq<char> {
        self.text@
    }

    pub fn get_href(&self) -> (r: &String)
        ensures
            r@ == self.href(),
    {
        &self.href
    }

    pub fn get_text(&self) -> (r: &String)
        ensures
            r@ == self.text(),
    {
        &self.text
    }
}

/// The text of every cell of a table.
pub open spec fn rows_view(rows: Seq<Vec<String>>) -> Seq<Seq<Seq<char>>> {
    rows.map_values(|row: Vec<String>| row@.map_values(|s: String| s@))
}

/// The text of every cell of a row.
pub open spec fn row_view(row: Seq<String>) -> Seq<Seq<char>> {
    row.map_values(|s: String| s@)
}

/// A table: a header row and data rows of text cells.
#[derive(Clone, Debug, PartialEq, Eq, Hash, PartialOrd, Ord)]
pub struct Array {
    header: Vec<String>,
    data: Vec<Vec<String>>,
}

/// Position of the first non-empty record, or the number of records if there is none.
pub open spec fn first_non_empty(records: Seq<Seq<Seq<char>>>) -> int
    decreases records.len(),
{
    if records.len() == 0 {
        0
    } else if records[0].len() > 0 {
        0
    } else {
        1 + first_non_empty(records.drop_first())
    }
}

/// Header of the table made of `records`: the first non-empty record, if any.
pub open spec fn header_of_records(records: Seq<Seq<Seq<char>>>) -> Seq<Seq<char>> {
    let k = first_non_empty(records);
    if k < records.len() {
        records[k]
    } else {
        Seq::empty()
    }
}

/// Data rows of the table made of `records`: the records after its header.
pub open spec fn data_of_records(records: Seq<Seq<Seq<char>>>) -> Seq<Seq<Seq<char>>> {
    let k = first_non_empty(records);
    if k < records.len() {
        records.subrange(k + 1, records.len() as int)
    } else {
        Seq::empty()
    }
}

/// Records of a CSV text, in order, each as the text of its fields.
pub uninterp spec fn csv_records_of(text: Seq<char>) -> Seq<Seq<Seq<char>>>;

/// A CSV text that could not be read as records of one length.
#[derive(Clone, Copy, Debug, PartialEq, Eq, Structural)]
pub enum TableError {
    Malformed,
}

/// csv's error type, carried without looking inside.
#[verifier::external_type_specification]
#[verifier::external_body]
pub struct ExCsvError(csv::Error);

/// Relies on csv::ReaderBuilder (headers off, default delimiter and quoting) and
/// Reader::records: when all records parse, they are the records of `text`, each as its
/// fields.
#[verifier::external_body]
fn read_csv_records(text: &str) -> (r: Result<Vec<Vec<String>>, csv::Error>)
    ensures
        r is Ok ==> rows_view(r->Ok_0@) == csv_records_of(text@),
{
    let mut reader = csv::ReaderBuilder::new().has_headers(false).from_reader(text.as_bytes());
    let mut rows: Vec<Vec<String>> = Vec::new();
    for record in reader.records() {
        rows.push(record?.iter().map(String::from).collect());
    }
    Ok(rows)
}

impl Array {
    pub fn new(header: Vec<String>, data: Vec<Vec<String>>) -> (r: Array)
        ensures
            r.header() == row_view(header@),
            r.data() == rows_view(data@),
    {
        Array { header, data }
    }

    pub closed spec fn header(&self) -> Seq<Seq<char>> {
        row_view(self.header@)
    }

    pub closed spec fn data(&self) -> Seq<Seq<Seq<char>>> {
        rows_view(self.data@)
    }

    pub fn get_header(&self) -> (r: &Vec<String>)
        ensures
            row_view(r@) == self.header(),
    {
        &self.header
    }

    pub fn get_data(&self) -> (r: &Vec<Vec<String>>)
        ensures
            rows_view(r@) == self.data(),
    {
        &self.data
    }

    /// The table held by a CSV text: its first non-empty record is the header, the
    /// records after it the data rows. Fails when the text is not well-formed CSV or
    /// its records differ in length.
    pub fn from_csv(text: &str) -> (r: Result<Array, TableError>)
        ensures
            r is Ok ==> r->Ok_0.header() == header_of_records(csv_records_of(text@)),
            r is Ok ==> r->Ok_0.data() == data_of_records(csv_records_of(text@)),
    {
        match read_csv_records(text) {
            Ok(records) => Ok(Array::from_records(records)),
            Err(_) => Err(TableError::Malformed),
        }
    }

    /// The table whose header is the first non-empty record and whose data rows are the
    /// records after it; without a non-empty record, the table is empty.
    pub fn from_records(records: Vec<Vec<String>>) -> (r: Array)
        ensures
            r.header() == header_of_records(rows_view(records@)),
            r.data() == data_of_records(rows_view(records@)),
    {
        let ghost rv = rows_view(records@);
        proof {
            lemma_first_non_empty(rv);
        }
        let mut k: usize = 0;
        while k < records.len() && records[k].len() == 0
            invariant
                rv == rows_view(records@),
                k <= records@.len(),
                forall|j: int| 0 <= j < k ==> rv[j].len() == 0,
            decreases records@.len() - k,
        {
            k += 1;
        }
        proof {
            if k < records@.len() {
                assert(rv[k as int].len() > 0);
                if first_non_empty(rv) < k {
                    assert(rv[first_non_empty(rv)].len() == 0);
                }
                assert(first_non_empty(rv) == k);
            } else {
                if first_non_empty(rv) < k {
                    assert(rv[first_non_empty(rv)].len() == 0);
                }
            }
        }
        if k == records.len() {
            let r = Array { header: Vec::new(), data: Vec::new() };
            assert(r.header() =~= Seq::<Seq<char>>::empty());
            assert(r.data() =~= Seq::<Seq<Seq<char>>>::empty());
            return r;
        }
        let header = clone_row(&records[k]);
        let mut data: Vec<Vec<String>> = Vec::new();
        let mut i: usize = k + 1;
        while i < records.len()
            invariant
                rv == rows_view(records@),
                k < i <= records@.len(),
                data@.len() == i - k - 1,
                forall|j: int| 0 <= j < data@.len() ==> row_view(data@[j]@) == rv[k + 1 + j],
            decreases records@.len() - i,
        {
            let row = clone_row(&records[i]);
            assert(row_view(records@[i as int]@) == rv[i as int]);
            data.push(row);
            i += 1;
        }
        assert(rows_view(data@) =~= rv.subrange(k + 1, records@.len() as int)) by {
            assert forall|j: int| 0 <= j < data@.len() implies rows_view(data@)[j] == rv[k + 1 + j] by {
                assert(rows_view(data@)[j] == row_view(data@[j]@));
            }
        }
        assert(row_view(records@[k as int]@) == rv[k as int]);
        Array { header, data }
    }
}

/// A copy of a row, cell by cell.
fn clone_row(row: &Vec<String>) -> (r: Vec<String>)
    ensures
        row_view(r@) == row_view(row@),
{
    let mut r: Vec<String> = Vec::with_capacity(row.len());
    let mut j: usize = 0;
    while j < row.len()
        invariant
            j <= row@.len(),
            r@.len() == j,
            forall|k: int| 0 <= k < j ==> r@[k]@ == row@[k]@,
        decreases row@.len() - j,
    {
        let cell = row[j].clone();
        assert(cell@ == row@[j as int]@);
        r.push(cell);
        j += 1;
    }
    assert(row_view(r@) =~= row_view(row@));
    r
}

proof fn lemma_first_non_empty(records: Seq<Seq<Seq<char>>>)
    ensures
        0 <= first_non_empty(records) <= records.len(),
        forall|j: int| 0 <= j < first_non_empty(records) ==> records[j].len() == 0,
        first_non_empty(records) < records.len() ==> records[first_non_empty(records)].len() > 0,
    decreases records.len(),
{
    if records.len() > 0 && records[0].len() == 0 {
        lemma_first_non_empty(records.drop_first());
        assert forall|j: int| 0 <= j < first_non_empty(records) implies records[j].len() == 0 by {
            if j > 0 {
                assert(records[j] == records.drop_first()[j - 1]);
            }
        }
    }
}

} // verus!
