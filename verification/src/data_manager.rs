//! Tables of rows, kept in memory under their names.

use vstd::prelude::*;
use vstd::string::*;

use crate::strings::{converted, converted_all, into_strings, strings_view, strs_view};

verus! {

/// The rows of one table: every row a run of cells, every cell a text.
pub type Rows = Seq<Seq<Seq<char>>>;

/// One table: its name and its rows, oldest first.
struct Table {
    name: String,
    rows: Vec<Vec<String>>,
}

/// The rows that `rows` holds, as texts.
pub open spec fn rows_view(rows: Seq<Vec<String>>) -> Rows {
    rows.map_values(|row: Vec<String>| strings_view(row@))
}

/// `tables` with `row` added behind the rows of the table `name`, which
/// comes into being with it where there was none.
pub open spec fn with_row(tables: Map<Seq<char>, Rows>, name: Seq<char>, row: Seq<Seq<char>>) -> Map<
    Seq<char>,
    Rows,
> {
    if tables.dom().contains(name) {
        tables.insert(name, tables[name].push(row))
    } else {
        tables.insert(name, seq![row])
    }
}

/// The row of `rows` at `row_id`, where there is one.
pub open spec fn row_at(rows: Rows, row_id: int) -> Option<Seq<Seq<char>>> {
    if 0 <= row_id < rows.len() {
        Some(rows[row_id])
    } else {
        None
    }
}

/// At most `number_of_rows` rows of `rows` from the one at `start_from` on.
pub open spec fn row_range(rows: Rows, start_from: int, number_of_rows: int) -> Rows {
    if start_from >= rows.len() {
        Seq::empty()
    } else if start_from + number_of_rows >= rows.len() {
        rows.skip(start_from)
    } else {
        rows.subrange(start_from, start_from + number_of_rows)
    }
}

/// Keeps the rows of every table under the table's name.
pub struct DataManager {
    tables: Vec<Table>,
}

impl DataManager {
    /// No two tables have the same name.
    #[verifier::type_invariant]
    closed spec fn names_differ(&self) -> bool {
        forall|i: int, j: int|
            0 <= i < j < self.tables@.len() ==> self.tables@[i].name@ != self.tables@[j].name@
    }

    /// Where the table `name` is kept, if it is.
    closed spec fn position(&self, name: Seq<char>) -> Option<int> {
        if exists|i: int| 0 <= i < self.tables@.len() && self.tables@[i].name@ == name {
            Some(choose|i: int| 0 <= i < self.tables@.len() && self.tables@[i].name@ == name)
        } else {
            None
        }
    }
}

impl View for DataManager {
    type V = Map<Seq<char>, Rows>;

    /// The rows of every table, by the table's name.
    closed spec fn view(&self) -> Map<Seq<char>, Rows> {
        Map::new(
            |name: Seq<char>| self.position(name) is Some,
            |name: Seq<char>| rows_view(self.tables@[self.position(name)->0].rows@),
        )
    }
}

impl DataManager {
    /// The tables that are kept are the ones in the view, each with its rows.
    proof fn lemma_view(&self)
        requires
            self.names_differ(),
        ensures
            forall|i: int|
                0 <= i < self.tables@.len() ==> self@.dom().contains(
                    #[trigger] self.tables@[i].name@,
                ) && self@[self.tables@[i].name@] == rows_view(self.tables@[i].rows@),
            forall|name: Seq<char>| #[trigger]
                self@.dom().contains(name) ==> exists|i: int|
                    0 <= i < self.tables@.len() && self.tables@[i].name@ == name,
    {
    }
}

impl Default for DataManager {
    fn default() -> (manager: DataManager)
        ensures
            manager@ == Map::<Seq<char>, Rows>::empty(),
    {
        DataManager { tables: Vec::new() }
    }
}

/// The texts of a row that may be absent.
pub open spec fn row_option_view(row: Option<Vec<&str>>) -> Option<Seq<Seq<char>>> {
    match row {
        Some(cells) => Some(strs_view(cells@)),
        None => None,
    }
}

/// The texts of some rows that may be absent.
pub open spec fn rows_option_view(rows: Option<Vec<Vec<&str>>>) -> Option<Rows> {
    match rows {
        Some(rows) => Some(rows@.map_values(|row: Vec<&str>| strs_view(row@))),
        None => None,
    }
}

/// The cells of `row`, borrowed.
fn borrow_row(row: &Vec<String>) -> (cells: Vec<&str>)
    ensures
        strs_view(cells@) == strings_view(row@),
{
    let mut cells: Vec<&str> = Vec::new();
    let mut i: usize = 0;
    while i < row.len()
        invariant
            i <= row@.len(),
            cells@.len() == i,
            forall|j: int| 0 <= j < i ==> cells@[j]@ == row@[j]@,
        decreases row@.len() - i,
    {
        cells.push(row[i].as_str());
        i = i + 1;
    }
    cells
}

impl DataManager {
    /// Looks for the table `name`.
    fn find(&self, name: &String) -> (found: Option<usize>)
        ensures
            match found {
                Some(i) => i < self.tables@.len() && self.position(name@) == Some(i as int),
                None => self.position(name@) is None,
            },
    {
        proof {
            use_type_invariant(self);
        }
        let mut i: usize = 0;
        while i < self.tables.len()
            invariant
                i <= self.tables@.len(),
                forall|j: int| 0 <= j < i ==> self.tables@[j].name@ != name@,
                self.names_differ(),
            decreases self.tables@.len() - i,
        {
            if self.tables[i].name == *name {
                return Some(i);
            }
            i = i + 1;
        }
        None
    }

    /// Adds `row` behind the rows of the table `table_name`. A table that
    /// has no rows yet comes into being with its first row.
    pub fn append_row(&mut self, table_name: String, row: Vec<String>)
        ensures
            final(self)@ == with_row(old(self)@, table_name@, strings_view(row@)),
    {
        proof {
            use_type_invariant(&*self);
        }
        let found = self.find(&table_name);
        let mut tables: Vec<Table> = Vec::new();
        core::mem::swap(&mut self.tables, &mut tables);
        match found {
            Some(i) => {
                tables[i].rows.push(row);
            },
            None => {
                let mut rows: Vec<Vec<String>> = Vec::new();
                rows.push(row);
                tables.push(Table { name: table_name, rows });
            },
        }
        core::mem::swap(&mut self.tables, &mut tables);
        proof {
            let before = *old(self);
            let after = *self;
            let expected = with_row(before@, table_name@, strings_view(row@));
            before.lemma_view();
            after.lemma_view();
            assert forall|name: Seq<char>| after@.dom().contains(name) implies #[trigger]
                expected.dom().contains(name) && after@[name] == expected[name] by {
                let i = choose|i: int| 0 <= i < after.tables@.len() && after.tables@[i].name@ == name;
                if i < before.tables@.len() {
                    assert(before.tables@[i].name@ == name);
                    if found matches Some(k) && k == i {
                        assert(after.tables@[i].rows@ == before.tables@[i].rows@.push(row));
                        assert(rows_view(after.tables@[i].rows@) =~= rows_view(
                            before.tables@[i].rows@,
                        ).push(strings_view(row@)));
                    }
                } else {
                    assert(rows_view(after.tables@[i].rows@) =~= seq![strings_view(row@)]);
                }
            }
            assert forall|name: Seq<char>| expected.dom().contains(name) implies #[trigger]
                after@.dom().contains(name) by {
                if name == table_name@ {
                    match found {
                        Some(i) => {
                            assert(after.tables@[i as int].name@ == name);
                        },
                        None => {
                            assert(after.tables@[after.tables@.len() - 1].name@ == name);
                        },
                    }
                } else {
                    let i = choose|i: int|
                        0 <= i < before.tables@.len() && before.tables@[i].name@ == name;
                    assert(after.tables@[i].name@ == name);
                }
            }
            assert(after@ =~= expected);
        }
    }

    /// Converts `table_name` and the cells of `data` into strings and adds
    /// the row they make behind the rows of that table.
    pub fn save_to<I: Into<String>>(&mut self, table_name: I, data: Vec<I>) -> (saved: Result<
        (),
        (),
    >)
        ensures
            saved is Ok,
            exists|name: String, row: Seq<String>|
                converted(table_name, name) && converted_all(data@, row) && final(self)@
                    == with_row(old(self)@, name@, strings_view(row)),
    {
        let name = table_name.into();
        let row = into_strings(data);
        self.append_row(name, row);
        Ok(())
    }

    /// The row of the table `table_name` at `row_id`, counted from 0, if
    /// the table is there and has that many rows.
    pub fn get_row_from(&self, table_name: &str, row_id: usize) -> (row: Option<Vec<&str>>)
        ensures
            row_option_view(row) == if self@.dom().contains(table_name@) {
                row_at(self@[table_name@], row_id as int)
            } else {
                None
            },
    {
        let name = String::from_str(table_name);
        match self.find(&name) {
            None => None,
            Some(i) => {
                let rows = &self.tables[i].rows;
                if row_id < rows.len() {
                    Some(borrow_row(&rows[row_id]))
                } else {
                    None
                }
            },
        }
    }

    /// At most `number_of_rows` rows of the table `table_name`, from the
    /// one at `start_from` on, if the table is there.
    pub fn get_range(&self, table_name: &str, start_from: usize, number_of_rows: usize) -> (rows:
        Option<Vec<Vec<&str>>>)
        ensures
            rows_option_view(rows) == if self@.dom().contains(table_name@) {
                Some(row_range(self@[table_name@], start_from as int, number_of_rows as int))
            } else {
                None
            },
    {
        let name = String::from_str(table_name);
        match self.find(&name) {
            None => None,
            Some(i) => {
                let rows = &self.tables[i].rows;
                let mut range: Vec<Vec<&str>> = Vec::new();
                if start_from < rows.len() {
                    let end = if number_of_rows < rows.len() - start_from {
                        start_from + number_of_rows
                    } else {
                        rows.len()
                    };
                    let mut at: usize = start_from;
                    while at < end
                        invariant
                            start_from <= at <= end <= rows@.len(),
                            range@.len() == at - start_from,
                            forall|j: int|
                                0 <= j < range@.len() ==> strs_view(range@[j]@) == strings_view(
                                    rows@[start_from + j]@,
                                ),
                        decreases end - at,
                    {
                        range.push(borrow_row(&rows[at]));
                        at = at + 1;
                    }
                }
                Some(range)
            },
        }
    }
}

} // verus!
