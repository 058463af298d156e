//! The tables of an HTML body as a map from row titles to cell texts.
use vstd::prelude::*;
use vstd::utf8::{decode_utf8, valid_utf8};
use crate::name_map::NameMap;
use crate::text::{
    clone_names, extend_names, no_names, remove_breaks, trim, trimmed, utf8_text, without_breaks,
};

verus! {

/// The rows of the tables of an HTML document: for every `table` element in
/// document order and every `tr` element inside it in order, the texts of the
/// `td` elements inside that row.
pub uninterp spec fn html_table_rows(body: Seq<char>) -> Seq<Seq<Seq<char>>>;

/// `scraper::Html::parse_document` reads the document; `select` walks its
/// `table` elements, the `tr` elements inside each and the `td` elements
/// inside each row, and `text` gives the text inside a cell.
#[verifier::external_body]
fn table_rows(body: &str) -> (rows: Vec<Vec<String>>)
    ensures
        rows.deep_view() == html_table_rows(body@),
{
    let document = scraper::Html::parse_document(body);
    let parsed = (
        scraper::Selector::parse("table"),
        scraper::Selector::parse("tr"),
        scraper::Selector::parse("td"),
    );
    match parsed {
        (Ok(tables), Ok(rows), Ok(cells)) => document.select(&tables).flat_map(
            |table| table.select(&rows),
        ).map(|row| row.select(&cells).map(|cell| cell.text().collect::<String>()).collect())
            .collect(),
        _ => Vec::new(),
    }
}

/// The bytes that a quoted-printable text stands for, read strictly; none
/// where the text is malformed.
pub uninterp spec fn quoted_printable_decoded(text: Seq<char>) -> Option<Seq<u8>>;

/// `quoted_printable::decode` in strict mode decodes the text or fails.
#[verifier::external_body]
fn decode_quoted_printable(text: &str) -> (bytes: Option<Vec<u8>>)
    ensures
        bytes.deep_view() == quoted_printable_decoded(text@),
{
    quoted_printable::decode(text, quoted_printable::ParseMode::Strict).ok()
}

/// The text that a quoted-printable text stands for; none where it is
/// malformed or its bytes are not valid UTF-8.
pub open spec fn decoded_text(text: Seq<char>) -> Option<Seq<char>> {
    match quoted_printable_decoded(text) {
        Some(bytes) => if valid_utf8(bytes) {
            Some(decode_utf8(bytes))
        } else {
            None
        },
        None => None,
    }
}

/// Decodes a quoted-printable text.
pub fn decode_text(text: &str) -> (out: Option<String>)
    ensures
        out.deep_view() == decoded_text(text@),
{
    match decode_quoted_printable(text) {
        Some(bytes) => {
            assert(bytes.deep_view() =~= bytes@);
            utf8_text(bytes)
        },
        None => None,
    }
}

/// What a cell after the first says: its text without line breaks and tabs,
/// trimmed and decoded.
pub open spec fn cell_value(cell: Seq<char>) -> Option<Seq<char>> {
    decoded_text(trimmed(without_breaks(cell)))
}

/// What the cells of `row` after the first and before the `n`-th say; none
/// where one of them cannot be decoded.
pub open spec fn row_values(row: Seq<Seq<char>>, n: int) -> Option<Seq<Seq<char>>>
    decreases n,
{
    if n <= 1 {
        Some(Seq::empty())
    } else {
        match (row_values(row, n - 1), cell_value(row[n - 1])) {
            (Some(values), Some(value)) => Some(values.push(value)),
            _ => None,
        }
    }
}

/// Whether the first cell of `row` holds a title.
pub open spec fn has_title(row: Seq<Seq<char>>) -> bool {
    row.len() > 0 && trimmed(row[0]).len() > 0
}

/// The title that the cells of `row` belong to: the decoded title of the
/// row where it has one, else the title of the rows before, `current`.
pub open spec fn row_title(current: Seq<char>, row: Seq<Seq<char>>) -> Option<Seq<char>> {
    if has_title(row) {
        decoded_text(trimmed(row[0]))
    } else {
        Some(current)
    }
}

/// The tables read so far and the title of the last row that had one.
pub ghost struct TableState {
    pub table: Map<Seq<char>, Seq<Seq<char>>>,
    pub current: Seq<char>,
}

/// The cells stored under `title`, none where the title is unknown.
pub open spec fn cells_under(table: Map<Seq<char>, Seq<Seq<char>>>, title: Seq<char>) -> Seq<
    Seq<char>,
> {
    if table.contains_key(title) {
        table[title]
    } else {
        Seq::empty()
    }
}

/// The state after one more row: its cells are added to those under its
/// title. There is none where a cell cannot be decoded.
pub open spec fn with_row(state: TableState, row: Seq<Seq<char>>) -> Option<TableState> {
    match (row_title(state.current, row), row_values(row, row.len() as int)) {
        (Some(title), Some(values)) => Some(
            TableState {
                table: state.table.insert(title, cells_under(state.table, title) + values),
                current: title,
            },
        ),
        _ => None,
    }
}

/// The state after the first `n` of `rows`.
pub open spec fn with_rows(rows: Seq<Seq<Seq<char>>>, n: int) -> Option<TableState>
    decreases n,
{
    if n <= 0 {
        Some(TableState { table: Map::empty(), current: Seq::empty() })
    } else {
        match with_rows(rows, n - 1) {
            Some(state) => with_row(state, rows[n - 1]),
            None => None,
        }
    }
}

/// The map from titles to cells that `rows` make up.
pub open spec fn table_of(rows: Seq<Seq<Seq<char>>>) -> Option<Map<Seq<char>, Seq<Seq<char>>>> {
    match with_rows(rows, rows.len() as int) {
        Some(state) => Some(state.table),
        None => None,
    }
}

fn values_of_row(row: &Vec<String>) -> (out: Option<Vec<String>>)
    ensures
        out.deep_view() == row_values(row.deep_view(), row.len() as int),
{
    let mut values = no_names();
    let mut i: usize = 1;
    while i < row.len()
        invariant
            1 <= i,
            i <= row.len() || (row.len() == 0 && i == 1),
            Some(values.deep_view()) == row_values(row.deep_view(), i as int),
        decreases row.len() - i,
    {
        let cell = trim(remove_breaks(row[i].as_str()).as_str());
        assert(row.deep_view()[i as int] == row[i as int]@);
        assert(decoded_text(cell@) == cell_value(row.deep_view()[i as int]));
        match decode_text(cell.as_str()) {
            Some(value) => {
                let ghost before = values.deep_view();
                values.push(value);
                assert(values.deep_view() =~= before.push(value@));
                assert(row_values(row.deep_view(), i + 1) == Some(values.deep_view()));
            },
            None => {
                proof {
                    assert(row_values(row.deep_view(), i + 1) is None);
                    lemma_row_values_fail(row.deep_view(), i + 1, row.len() as int);
                }
                return None;
            },
        }
        i += 1;
    }
    proof {
        if row.len() == 0 {
            assert(row_values(row.deep_view(), 0) == row_values(row.deep_view(), 1));
        }
    }
    Some(values)
}

/// Once a cell cannot be decoded, no longer stretch of the row can.
proof fn lemma_row_values_fail(row: Seq<Seq<char>>, failed: int, n: int)
    requires
        row_values(row, failed) is None,
        failed <= n,
    ensures
        row_values(row, n) is None,
    decreases n - failed,
{
    if failed < n {
        lemma_row_values_fail(row, failed, n - 1);
    }
}

/// Once a row cannot be read, no longer stretch of the rows can.
proof fn lemma_with_rows_fail(rows: Seq<Seq<Seq<char>>>, failed: int, n: int)
    requires
        with_rows(rows, failed) is None,
        failed <= n,
    ensures
        with_rows(rows, n) is None,
    decreases n - failed,
{
    if failed < n {
        lemma_with_rows_fail(rows, failed, n - 1);
    }
}

/// The map from titles to cells that `rows` make up; none where a cell
/// cannot be decoded.
pub fn table_from_rows(rows: &Vec<Vec<String>>) -> (out: Option<NameMap<Vec<String>>>)
    ensures
        match out {
            Some(table) => table_of(rows.deep_view()) == Some(table@),
            None => table_of(rows.deep_view()) is None,
        },
{
    let mut table: NameMap<Vec<String>> = NameMap::new();
    let mut current = String::new();
    let mut i: usize = 0;
    while i < rows.len()
        invariant
            i <= rows.len(),
            with_rows(rows.deep_view(), i as int) == Some(
                TableState { table: table@, current: current@ },
            ),
        decreases rows.len() - i,
    {
        let row = &rows[i];
        let ghost state = TableState { table: table@, current: current@ };
        assert(rows.deep_view()[i as int] == row.deep_view());
        if row.len() > 0 {
            let title = trim(row[0].as_str());
            if !title.as_str().is_empty() {
                match decode_text(title.as_str()) {
                    Some(decoded) => {
                        current = decoded;
                    },
                    None => {
                        proof {
                            assert(with_row(state, row.deep_view()) is None);
                            lemma_with_rows_fail(rows.deep_view(), i + 1, rows.len() as int);
                        }
                        return None;
                    },
                }
            }
        }
        assert(Some(current@) == row_title(state.current, row.deep_view()));
        let values = match values_of_row(row) {
            Some(values) => values,
            None => {
                proof {
                    assert(with_row(state, row.deep_view()) is None);
                    lemma_with_rows_fail(rows.deep_view(), i + 1, rows.len() as int);
                }
                return None;
            },
        };
        let mut cells = match table.get(current.as_str()) {
            Some(known) => clone_names(known),
            None => no_names(),
        };
        extend_names(&mut cells, &values);
        table.insert(current.clone(), cells);
        i += 1;
    }
    Some(table)
}

/// The map from row titles to cell texts of the tables in the HTML text
/// `body`; none where a cell cannot be decoded.
pub fn parse_tables(body: &str) -> (out: Option<NameMap<Vec<String>>>)
    ensures
        match out {
            Some(table) => table_of(html_table_rows(body@)) == Some(table@),
            None => table_of(html_table_rows(body@)) is None,
        },
{
    let rows = table_rows(body);
    table_from_rows(&rows)
}

/// The titles of the first `n` of `rows`, as they stand, in order.
pub open spec fn titles_of(rows: Seq<Seq<Seq<char>>>, n: int) -> Seq<Seq<char>>
    decreases n,
{
    if n <= 0 {
        Seq::empty()
    } else if has_title(rows[n - 1]) {
        titles_of(rows, n - 1).push(trimmed(rows[n - 1][0]))
    } else {
        titles_of(rows, n - 1)
    }
}

/// The titles of `rows`, as they stand, in order.
pub fn key_order_from_rows(rows: &Vec<Vec<String>>) -> (out: Vec<String>)
    ensures
        out.deep_view() == titles_of(rows.deep_view(), rows.len() as int),
{
    let mut out = no_names();
    let mut i: usize = 0;
    while i < rows.len()
        invariant
            i <= rows.len(),
            out.deep_view() == titles_of(rows.deep_view(), i as int),
        decreases rows.len() - i,
    {
        let row = &rows[i];
        assert(rows.deep_view()[i as int] == row.deep_view());
        if row.len() > 0 {
            let title = trim(row[0].as_str());
            if !title.as_str().is_empty() {
                let ghost before = out.deep_view();
                out.push(title);
                assert(out.deep_view() =~= before.push(trimmed(row.deep_view()[0])));
            }
        }
        i += 1;
    }
    out
}

/// The row titles of the tables in the HTML text `body`, in order.
pub fn get_table_key_order(body: &str) -> (out: Vec<String>)
    ensures
        out.deep_view() == titles_of(html_table_rows(body@), html_table_rows(body@).len() as int),
{
    let rows = table_rows(body);
    key_order_from_rows(&rows)
}

} // verus!
