use crate::number::Number;
use vstd::prelude::*;

verus! {

/// One dynamic value as the scripting host passes it to a native call.
#[derive(Debug)]
pub enum HostValue {
    Undefined,
    Null,
    Boolean(bool),
    Number(Number),
    Text(String),
    Array(Vec<HostValue>),
    Object,
}

/// What one position of a call must hold.
#[derive(Clone, Copy, Debug, PartialEq, Eq, Structural)]
pub enum ArgType {
    /// A string.
    Text,
    /// Any number.
    Number,
    /// A number that compares `>= 0`: not NaN, not below zero.
    NonNegative,
    /// A number, converted to a 32-bit unsigned integer as the host does.
    Uint32,
    /// An array of numbers.
    NumberList,
    /// An array of `[index, name]` records: a number and a string each.
    ColumnList,
}

/// Why the arguments of a call were refused.
#[derive(Clone, Copy, Debug, PartialEq, Eq, Structural)]
pub enum ArgError {
    /// The call holds no value at this position.
    Missing { index: usize },
    /// The value at this position is not of the expected type.
    TypeMismatch { index: usize, expected: ArgType },
    /// The array at `index` holds a wrong element at `element` (the first one).
    ElementMismatch { index: usize, element: usize, expected: ArgType },
    /// The call holds more values than the descriptor declares.
    TooMany { declared: usize, given: usize },
}

/// One column of a table schema.
#[derive(Clone, Debug, PartialEq)]
pub struct Column {
    pub index: u32,
    pub name: String,
}

/// A decoded argument.
#[derive(Clone, Debug, PartialEq)]
pub enum ArgValue {
    Text(String),
    Number(Number),
    Uint32(u32),
    NumberList(Vec<Number>),
    ColumnList(Vec<Column>),
}

/// The mathematical value of a decoded argument.
pub enum ArgModel {
    Text(Seq<char>),
    Number(Number),
    Uint32(u32),
    NumberList(Seq<Number>),
    ColumnList(Seq<(u32, Seq<char>)>),
}

impl View for Column {
    type V = (u32, Seq<char>);

    open spec fn view(&self) -> (u32, Seq<char>) {
        (self.index, self.name@)
    }
}

impl View for ArgValue {
    type V = ArgModel;

    open spec fn view(&self) -> ArgModel {
        match self {
            ArgValue::Text(s) => ArgModel::Text(s@),
            ArgValue::Number(n) => ArgModel::Number(*n),
            ArgValue::Uint32(u) => ArgModel::Uint32(*u),
            ArgValue::NumberList(v) => ArgModel::NumberList(v@),
            ArgValue::ColumnList(v) => ArgModel::ColumnList(v@.map_values(|c: Column| c@)),
        }
    }
}

pub open spec fn is_number(v: HostValue) -> bool {
    v is Number
}

/// A `[index, name]` record: an array of exactly a number and a string.
pub open spec fn is_column(v: HostValue) -> bool {
    &&& v is Array
    &&& v->Array_0@.len() == 2
    &&& v->Array_0@[0] is Number
    &&& v->Array_0@[1] is Text
}

pub open spec fn column_of(v: HostValue) -> (u32, Seq<char>) {
    (v->Array_0@[0]->Number_0.uint32_value(), v->Array_0@[1]->Text_0@)
}

/// Whether `e` may stand as an element of an array of the list type `t`.
pub open spec fn element_ok(t: ArgType, e: HostValue) -> bool {
    match t {
        ArgType::NumberList => is_number(e),
        ArgType::ColumnList => is_column(e),
        _ => false,
    }
}

pub open spec fn all_elements_ok(t: ArgType, items: Seq<HostValue>) -> bool {
    forall|i: int| 0 <= i < items.len() ==> #[trigger] element_ok(t, items[i])
}

/// `j` is the position of the first element of `items` that fails `element_ok`.
pub open spec fn is_first_failure(t: ArgType, items: Seq<HostValue>, j: int) -> bool {
    &&& 0 <= j < items.len()
    &&& !element_ok(t, items[j])
    &&& forall|k: int| 0 <= k < j ==> #[trigger] element_ok(t, items[k])
}

pub open spec fn first_failure(t: ArgType, items: Seq<HostValue>) -> int {
    choose|j: int| is_first_failure(t, items, j)
}

/// The first failure is unique, so `first_failure` names it.
pub proof fn lemma_first_failure(t: ArgType, items: Seq<HostValue>, j: int)
    requires
        is_first_failure(t, items, j),
    ensures
        first_failure(t, items) == j,
{
    let c = first_failure(t, items);
    assert(is_first_failure(t, items, c));
    if c < j {
        assert(element_ok(t, items[c]));
    } else if j < c {
        assert(element_ok(t, items[j]));
    }
}

/// What the value `v` at position `index` decodes to under the type `t`.
pub open spec fn decode_value(t: ArgType, v: HostValue, index: usize) -> Result<ArgModel, ArgError> {
    let mismatch = ArgError::TypeMismatch { index, expected: t };
    match t {
        ArgType::Text => match v {
            HostValue::Text(s) => Ok(ArgModel::Text(s@)),
            _ => Err(mismatch),
        },
        ArgType::Number => match v {
            HostValue::Number(n) => Ok(ArgModel::Number(n)),
            _ => Err(mismatch),
        },
        ArgType::NonNegative => match v {
            HostValue::Number(n) => if n.is_non_negative() {
                Ok(ArgModel::Number(n))
            } else {
                Err(mismatch)
            },
            _ => Err(mismatch),
        },
        ArgType::Uint32 => match v {
            HostValue::Number(n) => Ok(ArgModel::Uint32(n.uint32_value())),
            _ => Err(mismatch),
        },
        ArgType::NumberList => match v {
            HostValue::Array(items) => if all_elements_ok(t, items@) {
                Ok(ArgModel::NumberList(items@.map_values(|e: HostValue| e->Number_0)))
            } else {
                let element = first_failure(t, items@);
                Err(ArgError::ElementMismatch { index, element: element as usize, expected: t })
            },
            _ => Err(mismatch),
        },
        ArgType::ColumnList => match v {
            HostValue::Array(items) => if all_elements_ok(t, items@) {
                Ok(ArgModel::ColumnList(items@.map_values(|e: HostValue| column_of(e))))
            } else {
                let element = first_failure(t, items@);
                Err(ArgError::ElementMismatch { index, element: element as usize, expected: t })
            },
            _ => Err(mismatch),
        },
    }
}

/// What position `index` of the argument list `args` decodes to under `t`.
pub open spec fn decode_at(t: ArgType, args: Seq<HostValue>, index: usize) -> Result<ArgModel, ArgError> {
    if index < args.len() {
        decode_value(t, args[index as int], index)
    } else {
        Err(ArgError::Missing { index })
    }
}

pub open spec fn result_model(r: Result<ArgValue, ArgError>) -> Result<ArgModel, ArgError> {
    match r {
        Ok(v) => Ok(v@),
        Err(e) => Err(e),
    }
}

} // verus!
