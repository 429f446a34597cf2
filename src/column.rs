use vstd::prelude::*;

verus! {

/// What a column holds, as mathematical values.
pub enum ColumnModel {
    Number(Seq<char>, int),
    /// A decimal literal with a fractional part, kept as its exact digits.
    FloatNumber(Seq<char>, Seq<char>),
    Text(Seq<char>, Seq<char>),
    Character(Seq<char>, char),
    Absent(Seq<char>),
}

impl ColumnModel {
    pub open spec fn name(self) -> Seq<char> {
        match self {
            ColumnModel::Number(n, _) => n,
            ColumnModel::FloatNumber(n, _) => n,
            ColumnModel::Text(n, _) => n,
            ColumnModel::Character(n, _) => n,
            ColumnModel::Absent(n) => n,
        }
    }
}

/// One decoded value of a row, always carrying the name of its column.
///
/// A numeric literal with a fractional part keeps its literal text, so that
/// no precision is lost on the way through the library.
#[derive(Debug)]
pub enum Column {
    NumberValue(String, i128),
    FloatNumberValue(String, String),
    StringValue(String, String),
    CharValue(String, char),
    Unknown(String),
}

impl View for Column {
    type V = ColumnModel;

    open spec fn view(&self) -> ColumnModel {
        match self {
            Column::NumberValue(n, v) => ColumnModel::Number(n@, *v as int),
            Column::FloatNumberValue(n, v) => ColumnModel::FloatNumber(n@, v@),
            Column::StringValue(n, v) => ColumnModel::Text(n@, v@),
            Column::CharValue(n, c) => ColumnModel::Character(n@, *c),
            Column::Unknown(n) => ColumnModel::Absent(n@),
        }
    }
}

impl Column {
    pub fn name(&self) -> (r: &String)
        ensures
            r@ == self@.name(),
    {
        match self {
            Column::NumberValue(n, _) => n,
            Column::FloatNumberValue(n, _) => n,
            Column::StringValue(n, _) => n,
            Column::CharValue(n, _) => n,
            Column::Unknown(n) => n,
        }
    }

    pub fn number_value(&self) -> (r: Option<&i128>)
        ensures
            match self@ {
                ColumnModel::Number(_, x) => r matches Some(v) && *v as int == x,
                _ => r is None,
            },
    {
        match self {
            Column::NumberValue(_, v) => Some(v),
            _ => None,
        }
    }

    /// The literal text of a fractional numeric value.
    pub fn float_number_value(&self) -> (r: Option<&String>)
        ensures
            match self@ {
                ColumnModel::FloatNumber(_, x) => r matches Some(v) && v@ == x,
                _ => r is None,
            },
    {
        match self {
            Column::FloatNumberValue(_, v) => Some(v),
            _ => None,
        }
    }

    pub fn string_value(&self) -> (r: Option<&String>)
        ensures
            match self@ {
                ColumnModel::Text(_, x) => r matches Some(v) && v@ == x,
                _ => r is None,
            },
    {
        match self {
            Column::StringValue(_, v) => Some(v),
            _ => None,
        }
    }

    pub fn char_value(&self) -> (r: Option<&char>)
        ensures
            match self@ {
                ColumnModel::Character(_, x) => r matches Some(v) && *v == x,
                _ => r is None,
            },
    {
        match self {
            Column::CharValue(_, v) => Some(v),
            _ => None,
        }
    }

    /// An independent copy of this column.
    pub fn duplicate(&self) -> (r: Column)
        ensures
            r@ == self@,
    {
        match self {
            Column::NumberValue(n, v) => Column::NumberValue(n.clone(), *v),
            Column::FloatNumberValue(n, v) => Column::FloatNumberValue(n.clone(), v.clone()),
            Column::StringValue(n, v) => Column::StringValue(n.clone(), v.clone()),
            Column::CharValue(n, c) => Column::CharValue(n.clone(), *c),
            Column::Unknown(n) => Column::Unknown(n.clone()),
        }
    }
}

/// The rows extracted from one insertion statement share a table name.
#[derive(Debug)]
pub struct Row {
    pub table_name: String,
    pub columns: Vec<Column>,
}

impl Row {
    pub open spec fn column_models(&self) -> Seq<ColumnModel> {
        self.columns@.map_values(|c: Column| c@)
    }
}

} // verus!
