use crate::number::Number;
use crate::value::{
    all_elements_ok, column_of, element_ok, decode_at, is_first_failure,
    lemma_first_failure, result_model, ArgError, ArgModel, ArgType, ArgValue, Column, HostValue,
};
use vstd::prelude::*;

verus! {

/// The positional arguments of one host call, in the order given.
#[derive(Debug)]
pub struct CallArgs {
    pub values: Vec<HostValue>,
}

impl CallArgs {
    pub fn new(values: Vec<HostValue>) -> (r: CallArgs)
        ensures
            r.values@ == values@,
    {
        CallArgs { values }
    }

    pub fn len(&self) -> (r: usize)
        ensures
            r == self.values@.len(),
    {
        self.values.len()
    }

    /// The string at `index`.
    pub fn text(&self, index: usize) -> (r: Result<String, ArgError>)
        ensures
            match r {
                Ok(s) => decode_at(ArgType::Text, self.values@, index) == Ok::<ArgModel, ArgError>(ArgModel::Text(s@)),
                Err(e) => decode_at(ArgType::Text, self.values@, index) == Err::<ArgModel, ArgError>(e),
            },
    {
        if index >= self.values.len() {
            return Err(ArgError::Missing { index });
        }
        match &self.values[index] {
            HostValue::Text(s) => Ok(s.clone()),
            _ => Err(ArgError::TypeMismatch { index, expected: ArgType::Text }),
        }
    }

    /// The number at `index`.
    pub fn number(&self, index: usize) -> (r: Result<Number, ArgError>)
        ensures
            match r {
                Ok(n) => decode_at(ArgType::Number, self.values@, index) == Ok::<ArgModel, ArgError>(ArgModel::Number(n)),
                Err(e) => decode_at(ArgType::Number, self.values@, index) == Err::<ArgModel, ArgError>(e),
            },
    {
        if index >= self.values.len() {
            return Err(ArgError::Missing { index });
        }
        match &self.values[index] {
            HostValue::Number(n) => Ok(*n),
            _ => Err(ArgError::TypeMismatch { index, expected: ArgType::Number }),
        }
    }

    /// The number at `index`, which must compare `>= 0`.
    pub fn non_negative(&self, index: usize) -> (r: Result<Number, ArgError>)
        ensures
            match r {
                Ok(n) => decode_at(ArgType::NonNegative, self.values@, index) == Ok::<ArgModel, ArgError>(ArgModel::Number(n)),
                Err(e) => decode_at(ArgType::NonNegative, self.values@, index) == Err::<ArgModel, ArgError>(e),
            },
    {
        if index >= self.values.len() {
            return Err(ArgError::Missing { index });
        }
        match &self.values[index] {
            HostValue::Number(n) => if n.is_non_negative_number() {
                Ok(*n)
            } else {
                Err(ArgError::TypeMismatch { index, expected: ArgType::NonNegative })
            },
            _ => Err(ArgError::TypeMismatch { index, expected: ArgType::NonNegative }),
        }
    }

    /// The number at `index` as a 32-bit unsigned integer.
    pub fn uint32(&self, index: usize) -> (r: Result<u32, ArgError>)
        ensures
            match r {
                Ok(u) => decode_at(ArgType::Uint32, self.values@, index) == Ok::<ArgModel, ArgError>(ArgModel::Uint32(u)),
                Err(e) => decode_at(ArgType::Uint32, self.values@, index) == Err::<ArgModel, ArgError>(e),
            },
    {
        if index >= self.values.len() {
            return Err(ArgError::Missing { index });
        }
        match &self.values[index] {
            HostValue::Number(n) => Ok(n.to_uint32()),
            _ => Err(ArgError::TypeMismatch { index, expected: ArgType::Uint32 }),
        }
    }

    /// The array of numbers at `index`; the first element that is no number
    /// is reported.
    pub fn numbers(&self, index: usize) -> (r: Result<Vec<Number>, ArgError>)
        ensures
            match r {
                Ok(v) => decode_at(ArgType::NumberList, self.values@, index) == Ok::<ArgModel, ArgError>(ArgModel::NumberList(v@)),
                Err(e) => decode_at(ArgType::NumberList, self.values@, index) == Err::<ArgModel, ArgError>(e),
            },
    {
        if index >= self.values.len() {
            return Err(ArgError::Missing { index });
        }
        let items = match &self.values[index] {
            HostValue::Array(items) => items,
            _ => {
                return Err(ArgError::TypeMismatch { index, expected: ArgType::NumberList });
            },
        };
        let mut out: Vec<Number> = Vec::new();
        let mut j: usize = 0;
        while j < items.len()
            invariant
                index < self.values@.len(),
                self.values@[index as int] == HostValue::Array(*items),
                j <= items@.len(),
                out@.len() == j,
                forall|k: int| 0 <= k < j ==> #[trigger] element_ok(ArgType::NumberList, items@[k]),
                forall|k: int| 0 <= k < j ==> out@[k] == items@[k]->Number_0,
            decreases items@.len() - j,
        {
            match &items[j] {
                HostValue::Number(n) => {
                    out.push(*n);
                },
                _ => {
                    proof {
                        assert(is_first_failure(ArgType::NumberList, items@, j as int));
                        lemma_first_failure(ArgType::NumberList, items@, j as int);
                        assert(!all_elements_ok(ArgType::NumberList, items@));
                    }
                    return Err(ArgError::ElementMismatch { index, element: j, expected: ArgType::NumberList });
                },
            }
            j += 1;
        }
        assert(all_elements_ok(ArgType::NumberList, items@));
        assert(out@ =~= items@.map_values(|e: HostValue| e->Number_0));
        Ok(out)
    }

    /// The array of `[index, name]` records at `index`; the first element
    /// that is no such record is reported.
    pub fn columns(&self, index: usize) -> (r: Result<Vec<Column>, ArgError>)
        ensures
            match r {
                Ok(v) => decode_at(ArgType::ColumnList, self.values@, index) == Ok::<ArgModel, ArgError>(
                    ArgModel::ColumnList(v@.map_values(|c: Column| c@)),
                ),
                Err(e) => decode_at(ArgType::ColumnList, self.values@, index) == Err::<ArgModel, ArgError>(e),
            },
    {
        if index >= self.values.len() {
            return Err(ArgError::Missing { index });
        }
        let items = match &self.values[index] {
            HostValue::Array(items) => items,
            _ => {
                return Err(ArgError::TypeMismatch { index, expected: ArgType::ColumnList });
            },
        };
        let mut out: Vec<Column> = Vec::new();
        let mut j: usize = 0;
        while j < items.len()
            invariant
                index < self.values@.len(),
                self.values@[index as int] == HostValue::Array(*items),
                j <= items@.len(),
                out@.len() == j,
                forall|k: int| 0 <= k < j ==> #[trigger] element_ok(ArgType::ColumnList, items@[k]),
                forall|k: int| 0 <= k < j ==> out@[k]@ == column_of(items@[k]),
            decreases items@.len() - j,
        {
            let mut column: Option<Column> = None;
            if let HostValue::Array(pair) = &items[j] {
                if pair.len() == 2 {
                    if let HostValue::Number(n) = &pair[0] {
                        if let HostValue::Text(name) = &pair[1] {
                            column = Some(Column { index: n.to_uint32(), name: name.clone() });
                        }
                    }
                }
            }
            match column {
                Some(c) => {
                    out.push(c);
                },
                None => {
                    proof {
                        assert(is_first_failure(ArgType::ColumnList, items@, j as int));
                        lemma_first_failure(ArgType::ColumnList, items@, j as int);
                        assert(!all_elements_ok(ArgType::ColumnList, items@));
                    }
                    return Err(ArgError::ElementMismatch { index, element: j, expected: ArgType::ColumnList });
                },
            }
            j += 1;
        }
        assert(all_elements_ok(ArgType::ColumnList, items@));
        assert(out@.map_values(|c: Column| c@) =~= items@.map_values(|e: HostValue| column_of(e)));
        Ok(out)
    }

    /// The value at `index` decoded under the type `t`.
    pub fn decode(&self, t: ArgType, index: usize) -> (r: Result<ArgValue, ArgError>)
        ensures
            result_model(r) == decode_at(t, self.values@, index),
    {
        match t {
            ArgType::Text => match self.text(index) {
                Ok(s) => Ok(ArgValue::Text(s)),
                Err(e) => Err(e),
            },
            ArgType::Number => match self.number(index) {
                Ok(n) => Ok(ArgValue::Number(n)),
                Err(e) => Err(e),
            },
            ArgType::NonNegative => match self.non_negative(index) {
                Ok(n) => Ok(ArgValue::Number(n)),
                Err(e) => Err(e),
            },
            ArgType::Uint32 => match self.uint32(index) {
                Ok(u) => Ok(ArgValue::Uint32(u)),
                Err(e) => Err(e),
            },
            ArgType::NumberList => match self.numbers(index) {
                Ok(v) => Ok(ArgValue::NumberList(v)),
                Err(e) => Err(e),
            },
            ArgType::ColumnList => match self.columns(index) {
                Ok(v) => Ok(ArgValue::ColumnList(v)),
                Err(e) => Err(e),
            },
        }
    }
}

} // verus!
