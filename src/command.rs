use crate::dispatch::{
    constructor_params, decode_all, lemma_decoded_positions, method_params, models, Method, ProviderKind,
};
use crate::number::Number;
use crate::value::{decode_at, decode_value, ArgError, ArgModel, ArgType, ArgValue, Column, HostValue};
use vstd::prelude::*;

verus! {

/// One operation on a bound provider, with its typed arguments: what the
/// host asked for, ready to hand to the telemetry backend.
#[derive(Debug, PartialEq)]
pub enum Command {
    IsActive,
    Inc(Number),
    Dec(Number),
    SetValue(Number),
    Add(Number),
    SetEntry { key: String, value: String },
    Log(String),
    AddRow(u32),
    DelRow(u32),
}

/// A provider to create in the backend, with its typed parameters.
#[derive(Debug, PartialEq)]
pub enum Creation {
    Counter { path: String },
    Gauge { path: String, min: Number, max: Number },
    Histogram { path: String, bounds: Vec<Number> },
    Pulse { path: String },
    Dict { path: String },
    Logger { path: String },
    Table { path: String, columns: Vec<Column> },
}

/// The decoded value `m` has the form that the type `t` produces.
pub open spec fn has_shape(t: ArgType, m: ArgModel) -> bool {
    match t {
        ArgType::Text => m is Text,
        ArgType::Number => m is Number,
        ArgType::NonNegative => m is Number,
        ArgType::Uint32 => m is Uint32,
        ArgType::NumberList => m is NumberList,
        ArgType::ColumnList => m is ColumnList,
    }
}

/// The decoded values `ms` have, position by position, the forms that
/// `params` produces.
pub open spec fn fits(params: Seq<ArgType>, ms: Seq<ArgModel>) -> bool {
    &&& ms.len() == params.len()
    &&& forall|i: int| 0 <= i < ms.len() ==> #[trigger] has_shape(params[i], ms[i])
}

pub proof fn lemma_decoded_has_shape(t: ArgType, v: HostValue, index: usize)
    requires
        decode_value(t, v, index) is Ok,
    ensures
        has_shape(t, decode_value(t, v, index)->Ok_0),
{
}

/// Whatever a call decodes to has the forms that its descriptor produces.
pub proof fn lemma_decoded_fits(params: Seq<ArgType>, args: Seq<HostValue>)
    requires
        decode_all(params, args) is Ok,
        params.len() <= usize::MAX,
    ensures
        fits(params, decode_all(params, args)->Ok_0),
{
    let ms = decode_all(params, args)->Ok_0;
    lemma_decoded_positions(params, args);
    assert forall|i: int| 0 <= i < ms.len() implies #[trigger] has_shape(params[i], ms[i]) by {
        assert(decode_at(params[i], args, i as usize) == Ok::<ArgModel, ArgError>(ms[i]));
        if i >= args.len() {
            assert(decode_at(params[i], args, i as usize) is Err);
        }
        lemma_decoded_has_shape(params[i], args[i], i as usize);
    }
}

/// `c` is the command that `method` on a provider of `kind` gives with the
/// decoded arguments `ms`.
pub open spec fn command_fits(c: Command, kind: ProviderKind, method: Method, ms: Seq<ArgModel>) -> bool {
    match method {
        Method::IsActive => c is IsActive,
        Method::Inc => c matches Command::Inc(n) && ms[0] == ArgModel::Number(n),
        Method::Dec => c matches Command::Dec(n) && ms[0] == ArgModel::Number(n),
        Method::SetValue => if kind == ProviderKind::Dict {
            c matches Command::SetEntry { key, value } && ms[0] == ArgModel::Text(key@) && ms[1]
                == ArgModel::Text(value@)
        } else {
            c matches Command::SetValue(n) && ms[0] == ArgModel::Number(n)
        },
        Method::Add => c matches Command::Add(n) && ms[0] == ArgModel::Number(n),
        Method::Log => c matches Command::Log(s) && ms[0] == ArgModel::Text(s@),
        Method::AddRow => c matches Command::AddRow(u) && ms[0] == ArgModel::Uint32(u),
        Method::DelRow => c matches Command::DelRow(u) && ms[0] == ArgModel::Uint32(u),
    }
}

/// `c` is the provider of `kind` that the decoded constructor arguments `ms`
/// describe.
pub open spec fn creation_fits(c: Creation, kind: ProviderKind, ms: Seq<ArgModel>) -> bool {
    match kind {
        ProviderKind::Counter => c matches Creation::Counter { path } && ms[0] == ArgModel::Text(path@),
        ProviderKind::Gauge => c matches Creation::Gauge { path, min, max } && ms[0] == ArgModel::Text(path@)
            && ms[1] == ArgModel::Number(min) && ms[2] == ArgModel::Number(max),
        ProviderKind::Histogram => c matches Creation::Histogram { path, bounds } && ms[0] == ArgModel::Text(
            path@,
        ) && ms[1] == ArgModel::NumberList(bounds@),
        ProviderKind::Pulse => c matches Creation::Pulse { path } && ms[0] == ArgModel::Text(path@),
        ProviderKind::Dict => c matches Creation::Dict { path } && ms[0] == ArgModel::Text(path@),
        ProviderKind::Logger => c matches Creation::Logger { path } && ms[0] == ArgModel::Text(path@),
        ProviderKind::Table => c matches Creation::Table { path, columns } && ms[0] == ArgModel::Text(path@)
            && ms[1] == ArgModel::ColumnList(columns@.map_values(|col: Column| col@)),
    }
}

/// Takes the first of the decoded values.
fn take_first(vals: &mut Vec<ArgValue>) -> (r: ArgValue)
    requires
        old(vals)@.len() > 0,
    ensures
        r == old(vals)@[0],
        final(vals)@ == old(vals)@.drop_first(),
        models(final(vals)@) == models(old(vals)@).drop_first(),
{
    let r = vals.remove(0);
    proof {
        assert(final(vals)@ =~= old(vals)@.drop_first());
        assert(models(final(vals)@) =~= models(old(vals)@).drop_first());
    }
    r
}

/// The command that `method` on a provider of `kind` gives with the decoded
/// arguments `vals`.
pub fn command_for(kind: ProviderKind, method: Method, vals: Vec<ArgValue>) -> (c: Command)
    requires
        method_params(kind, method) is Some,
        fits(method_params(kind, method)->Some_0, models(vals@)),
    ensures
        command_fits(c, kind, method, models(vals@)),
{
    let ghost ms = models(vals@);
    let ghost ps = method_params(kind, method)->Some_0;
    let mut vals = vals;
    if method == Method::IsActive {
        return Command::IsActive;
    }
    assert(has_shape(ps[0], ms[0]));
    let first = take_first(&mut vals);
    match (method, first) {
        (Method::Inc, ArgValue::Number(n)) => Command::Inc(n),
        (Method::Dec, ArgValue::Number(n)) => Command::Dec(n),
        (Method::SetValue, ArgValue::Number(n)) => Command::SetValue(n),
        (Method::SetValue, ArgValue::Text(key)) => {
            assert(has_shape(ps[1], ms[1]));
            let second = take_first(&mut vals);
            match second {
                ArgValue::Text(value) => Command::SetEntry { key, value },
                _ => {
                    proof {
                        assert(false);
                    }
                    Command::IsActive
                },
            }
        },
        (Method::Add, ArgValue::Number(n)) => Command::Add(n),
        (Method::Log, ArgValue::Text(s)) => Command::Log(s),
        (Method::AddRow, ArgValue::Uint32(u)) => Command::AddRow(u),
        (Method::DelRow, ArgValue::Uint32(u)) => Command::DelRow(u),
        _ => {
            proof {
                assert(false);
            }
            Command::IsActive
        },
    }
}

/// The provider of `kind` that the decoded constructor arguments `vals`
/// describe.
pub fn creation_for(kind: ProviderKind, vals: Vec<ArgValue>) -> (c: Creation)
    requires
        fits(constructor_params(kind), models(vals@)),
    ensures
        creation_fits(c, kind, models(vals@)),
{
    let ghost ms = models(vals@);
    let ghost ps = constructor_params(kind);
    let mut vals = vals;
    assert(has_shape(ps[0], ms[0]));
    let first = take_first(&mut vals);
    let path = match first {
        ArgValue::Text(path) => path,
        _ => {
            proof {
                assert(false);
            }
            String::new()
        },
    };
    match kind {
        ProviderKind::Counter => Creation::Counter { path },
        ProviderKind::Pulse => Creation::Pulse { path },
        ProviderKind::Dict => Creation::Dict { path },
        ProviderKind::Logger => Creation::Logger { path },
        ProviderKind::Gauge => {
            assert(has_shape(ps[1], ms[1]));
            assert(has_shape(ps[2], ms[2]));
            let second = take_first(&mut vals);
            let third = take_first(&mut vals);
            match (second, third) {
                (ArgValue::Number(min), ArgValue::Number(max)) => Creation::Gauge { path, min, max },
                _ => {
                    proof {
                        assert(false);
                    }
                    Creation::Counter { path }
                },
            }
        },
        ProviderKind::Histogram => {
            assert(has_shape(ps[1], ms[1]));
            let second = take_first(&mut vals);
            match second {
                ArgValue::NumberList(bounds) => Creation::Histogram { path, bounds },
                _ => {
                    proof {
                        assert(false);
                    }
                    Creation::Counter { path }
                },
            }
        },
        ProviderKind::Table => {
            assert(has_shape(ps[1], ms[1]));
            let second = take_first(&mut vals);
            match second {
                ArgValue::ColumnList(columns) => Creation::Table { path, columns },
                _ => {
                    proof {
                        assert(false);
                    }
                    Creation::Counter { path }
                },
            }
        },
    }
}

} // verus!
