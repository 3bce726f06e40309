//! Queries that read rows from one table.

use vstd::prelude::*;

use crate::parser::ast::{Condition, ConditionView, Type};
use crate::strings::{converted, converted_all, into_strings};

verus! {

/// A query for some columns of one table.
#[derive(Debug, PartialEq)]
pub struct SelectQuery {
    pub table_name: String,
    pub columns: Vec<String>,
    pub condition: Option<Condition>,
}

/// What a [`SelectQuery`] asks for.
pub struct SelectQueryView {
    pub table_name: Seq<char>,
    pub columns: Seq<Seq<char>>,
    pub condition: Option<ConditionView>,
}

/// The view of a condition that may be absent.
pub open spec fn condition_option_view(condition: Option<Condition>) -> Option<ConditionView> {
    match condition {
        Some(condition) => Some(condition@),
        None => None,
    }
}

impl View for SelectQuery {
    type V = SelectQueryView;

    open spec fn view(&self) -> SelectQueryView {
        SelectQueryView {
            table_name: self.table_name@,
            columns: self.columns@.map_values(|name: String| name@),
            condition: condition_option_view(self.condition),
        }
    }
}

impl Clone for SelectQuery {
    fn clone(&self) -> (copy: SelectQuery)
        ensures
            copy@ == self@,
    {
        let columns = self.columns.clone();
        SelectQuery {
            table_name: self.table_name.clone(),
            columns,
            condition: match &self.condition {
                Some(condition) => Some(condition.clone()),
                None => None,
            },
        }
    }
}

impl SelectQuery {
    /// A query for `columns` of the table `table_name`, restricted to the
    /// rows that meet `condition` where there is one.
    pub fn new<I: Into<String>>(
        table_name: I,
        columns: Vec<I>,
        condition: Option<Condition>,
    ) -> (query: SelectQuery)
        ensures
            converted(table_name, query.table_name),
            converted_all(columns@, query.columns@),
            query.condition == condition,
    {
        SelectQuery {
            table_name: table_name.into(),
            columns: into_strings(columns),
            condition,
        }
    }
}

/// A query for some columns of one table, each with the type it is read as.
#[derive(Debug, PartialEq)]
pub struct TypedSelectQuery {
    table_name: String,
    columns: Vec<(String, Type)>,
    condition: Option<Condition>,
}

/// What a [`TypedSelectQuery`] asks for.
pub struct TypedSelectQueryView {
    pub table_name: Seq<char>,
    pub columns: Seq<(Seq<char>, Type)>,
    pub condition: Option<ConditionView>,
}

impl View for TypedSelectQuery {
    type V = TypedSelectQueryView;

    open spec fn view(&self) -> TypedSelectQueryView {
        TypedSelectQueryView {
            table_name: self.table_name()@,
            columns: self.columns().map_values(|column: (String, Type)| (column.0@, column.1)),
            condition: condition_option_view(self.condition()),
        }
    }
}

impl TypedSelectQuery {
    /// The name of the table that is read.
    pub closed spec fn table_name(&self) -> String {
        self.table_name
    }

    /// The columns that are read, each with its type, in the order asked for.
    pub closed spec fn columns(&self) -> Seq<(String, Type)> {
        self.columns@
    }

    /// The condition that the rows have to meet, where there is one.
    pub closed spec fn condition(&self) -> Option<Condition> {
        self.condition
    }

    /// A query for `columns` of the table `table_name`, restricted to the
    /// rows that meet `condition` where there is one.
    pub fn new<I: Into<String>>(
        table_name: I,
        columns: Vec<(I, Type)>,
        condition: Option<Condition>,
    ) -> (query: TypedSelectQuery)
        ensures
            converted(table_name, query.table_name()),
            query.columns().len() == columns@.len(),
            forall|i: int|
                0 <= i < columns@.len() ==> converted(columns@[i].0, #[trigger] query.columns()[i].0)
                    && query.columns()[i].1 == columns@[i].1,
            query.condition() == condition,
    {
        let mut named: Vec<(String, Type)> = Vec::new();
        for column in it: columns
            invariant
                named@.len() == it.index(),
                forall|i: int|
                    0 <= i < named@.len() ==> converted(columns@[i].0, #[trigger] named@[i].0)
                        && named@[i].1 == columns@[i].1,
        {
            let (name, column_type) = column;
            named.push((name.into(), column_type));
        }
        TypedSelectQuery::new_with_strings(table_name, named, condition)
    }

    /// As [`TypedSelectQuery::new`], for column names that are strings
    /// already.
    pub fn new_with_strings<I: Into<String>>(
        table_name: I,
        columns: Vec<(String, Type)>,
        condition: Option<Condition>,
    ) -> (query: TypedSelectQuery)
        ensures
            converted(table_name, query.table_name()),
            query.columns() == columns@,
            query.condition() == condition,
    {
        TypedSelectQuery { table_name: table_name.into(), columns, condition }
    }
}

} // verus!
