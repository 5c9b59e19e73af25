use crate::args::CallArgs;
use crate::value::{decode_at, ArgError, ArgModel, ArgType, ArgValue, HostValue};
use vstd::prelude::*;

verus! {

/// The seven telemetry primitives offered to the host.
#[derive(Clone, Copy, Debug, PartialEq, Eq, Structural)]
pub enum ProviderKind {
    Counter,
    Gauge,
    Histogram,
    Pulse,
    Dict,
    Logger,
    Table,
}

/// The instance methods of the providers, over all kinds.
#[derive(Clone, Copy, Debug, PartialEq, Eq, Structural)]
pub enum Method {
    IsActive,
    Inc,
    Dec,
    SetValue,
    Add,
    Log,
    AddRow,
    DelRow,
}

/// The positional types that a constructor of `kind` takes.
pub open spec fn constructor_params(kind: ProviderKind) -> Seq<ArgType> {
    match kind {
        ProviderKind::Gauge => seq![ArgType::Text, ArgType::Number, ArgType::Number],
        ProviderKind::Histogram => seq![ArgType::Text, ArgType::NumberList],
        ProviderKind::Table => seq![ArgType::Text, ArgType::ColumnList],
        _ => seq![ArgType::Text],
    }
}

/// The positional types that `method` takes on a provider of `kind`, or
/// `None` where that kind has no such method.
///
/// A counter only grows: its `inc` takes a delta that compares `>= 0`.
pub open spec fn method_params(kind: ProviderKind, method: Method) -> Option<Seq<ArgType>> {
    match (kind, method) {
        (_, Method::IsActive) => Some(Seq::empty()),
        (ProviderKind::Counter, Method::Inc) => Some(seq![ArgType::NonNegative]),
        (ProviderKind::Gauge, Method::SetValue) => Some(seq![ArgType::Number]),
        (ProviderKind::Histogram, Method::Add) => Some(seq![ArgType::Number]),
        (ProviderKind::Pulse, Method::Inc) => Some(seq![ArgType::Number]),
        (ProviderKind::Pulse, Method::Dec) => Some(seq![ArgType::Number]),
        (ProviderKind::Pulse, Method::SetValue) => Some(seq![ArgType::Number]),
        (ProviderKind::Dict, Method::SetValue) => Some(seq![ArgType::Text, ArgType::Text]),
        (ProviderKind::Logger, Method::Log) => Some(seq![ArgType::Text]),
        (ProviderKind::Table, Method::AddRow) => Some(seq![ArgType::Uint32]),
        (ProviderKind::Table, Method::DelRow) => Some(seq![ArgType::Uint32]),
        _ => None,
    }
}

/// The name under which the host sees a class.
pub open spec fn class_name_of(kind: ProviderKind) -> Seq<char> {
    match kind {
        ProviderKind::Counter => "Counter"@,
        ProviderKind::Gauge => "Gauge"@,
        ProviderKind::Histogram => "Histogram"@,
        ProviderKind::Pulse => "Pulse"@,
        ProviderKind::Dict => "Dict"@,
        ProviderKind::Logger => "Logger"@,
        ProviderKind::Table => "Table"@,
    }
}

/// The name under which the host sees a method.
pub open spec fn method_name_of(method: Method) -> Seq<char> {
    match method {
        Method::IsActive => "isActive"@,
        Method::Inc => "inc"@,
        Method::Dec => "dec"@,
        Method::SetValue => "set"@,
        Method::Add => "add"@,
        Method::Log => "log"@,
        Method::AddRow => "add_row"@,
        Method::DelRow => "del_row"@,
    }
}

/// Position `i` of `args` does not decode under `params[i]`.
pub open spec fn position_fails(params: Seq<ArgType>, args: Seq<HostValue>, i: int) -> bool {
    decode_at(params[i], args, i as usize) is Err
}

/// `j` is the first position of the call that does not decode.
pub open spec fn is_first_bad_position(params: Seq<ArgType>, args: Seq<HostValue>, j: int) -> bool {
    &&& 0 <= j < params.len()
    &&& position_fails(params, args, j)
    &&& forall|k: int| 0 <= k < j ==> !#[trigger] position_fails(params, args, k)
}

/// What a whole call decodes to under the descriptor `params`: more values
/// than declared are refused; otherwise the first position that fails
/// decides the error; otherwise every position is decoded.
pub open spec fn decode_all(params: Seq<ArgType>, args: Seq<HostValue>) -> Result<Seq<ArgModel>, ArgError> {
    if args.len() > params.len() {
        Err(ArgError::TooMany { declared: params.len() as usize, given: args.len() as usize })
    } else if exists|j: int| is_first_bad_position(params, args, j) {
        let j = choose|j: int| is_first_bad_position(params, args, j);
        Err(decode_at(params[j], args, j as usize)->Err_0)
    } else {
        Ok(Seq::new(params.len(), |i: int| decode_at(params[i], args, i as usize)->Ok_0))
    }
}

pub open spec fn models(vals: Seq<ArgValue>) -> Seq<ArgModel> {
    vals.map_values(|a: ArgValue| a@)
}

pub proof fn lemma_first_bad_position_unique(params: Seq<ArgType>, args: Seq<HostValue>, j: int, k: int)
    requires
        is_first_bad_position(params, args, j),
        is_first_bad_position(params, args, k),
    ensures
        j == k,
{
    if j < k {
        assert(!position_fails(params, args, j));
    } else if k < j {
        assert(!position_fails(params, args, k));
    }
}

/// Where some position fails, a first one does.
pub proof fn lemma_first_bad_position_exists(params: Seq<ArgType>, args: Seq<HostValue>, i: int)
    requires
        0 <= i < params.len(),
        position_fails(params, args, i),
    ensures
        exists|j: int| is_first_bad_position(params, args, j),
    decreases i,
{
    if exists|k: int| 0 <= k < i && #[trigger] position_fails(params, args, k) {
        let k = choose|k: int| 0 <= k < i && #[trigger] position_fails(params, args, k);
        lemma_first_bad_position_exists(params, args, k);
    } else {
        assert(is_first_bad_position(params, args, i));
    }
}

/// A call that decodes gives one value per declared position, each what
/// that position decodes to.
pub proof fn lemma_decoded_positions(params: Seq<ArgType>, args: Seq<HostValue>)
    requires
        decode_all(params, args) is Ok,
    ensures
        decode_all(params, args)->Ok_0.len() == params.len(),
        forall|i: int|
            0 <= i < params.len() ==> decode_at(params[i], args, i as usize) == Ok::<ArgModel, ArgError>(
                #[trigger] decode_all(params, args)->Ok_0[i],
            ),
{
    assert forall|i: int| 0 <= i < params.len() implies decode_at(params[i], args, i as usize) == Ok::<ArgModel, ArgError>(
        #[trigger] decode_all(params, args)->Ok_0[i],
    ) by {
        if position_fails(params, args, i) {
            lemma_first_bad_position_exists(params, args, i);
        }
    }
}

pub fn constructor_descriptor(kind: ProviderKind) -> (r: Vec<ArgType>)
    ensures
        r@ == constructor_params(kind),
{
    let r = match kind {
        ProviderKind::Gauge => vec![ArgType::Text, ArgType::Number, ArgType::Number],
        ProviderKind::Histogram => vec![ArgType::Text, ArgType::NumberList],
        ProviderKind::Table => vec![ArgType::Text, ArgType::ColumnList],
        _ => vec![ArgType::Text],
    };
    proof {
        assert(r@ =~= constructor_params(kind));
    }
    r
}

pub fn method_descriptor(kind: ProviderKind, method: Method) -> (r: Option<Vec<ArgType>>)
    ensures
        match r {
            Some(v) => method_params(kind, method) == Some(v@),
            None => method_params(kind, method) is None,
        },
{
    let r = match (kind, method) {
        (_, Method::IsActive) => Some(Vec::new()),
        (ProviderKind::Counter, Method::Inc) => Some(vec![ArgType::NonNegative]),
        (ProviderKind::Gauge, Method::SetValue) => Some(vec![ArgType::Number]),
        (ProviderKind::Histogram, Method::Add) => Some(vec![ArgType::Number]),
        (ProviderKind::Pulse, Method::Inc) => Some(vec![ArgType::Number]),
        (ProviderKind::Pulse, Method::Dec) => Some(vec![ArgType::Number]),
        (ProviderKind::Pulse, Method::SetValue) => Some(vec![ArgType::Number]),
        (ProviderKind::Dict, Method::SetValue) => Some(vec![ArgType::Text, ArgType::Text]),
        (ProviderKind::Logger, Method::Log) => Some(vec![ArgType::Text]),
        (ProviderKind::Table, Method::AddRow) => Some(vec![ArgType::Uint32]),
        (ProviderKind::Table, Method::DelRow) => Some(vec![ArgType::Uint32]),
        _ => None,
    };
    proof {
        if r is Some {
            assert(r->Some_0@ =~= method_params(kind, method)->Some_0);
        }
    }
    r
}

/// Decodes a whole call against a descriptor: the count, then each position
/// in order.
pub fn decode_call(params: &Vec<ArgType>, args: &CallArgs) -> (r: Result<Vec<ArgValue>, ArgError>)
    ensures
        match r {
            Ok(v) => decode_all(params@, args.values@) == Ok::<Seq<ArgModel>, ArgError>(models(v@)),
            Err(e) => decode_all(params@, args.values@) == Err::<Seq<ArgModel>, ArgError>(e),
        },
{
    if args.len() > params.len() {
        return Err(ArgError::TooMany { declared: params.len(), given: args.len() });
    }
    let mut out: Vec<ArgValue> = Vec::new();
    let mut i: usize = 0;
    while i < params.len()
        invariant
            args.values@.len() <= params@.len(),
            i <= params@.len(),
            out@.len() == i,
            forall|k: int|
                0 <= k < i ==> decode_at(params@[k], args.values@, k as usize) == Ok::<ArgModel, ArgError>(
                    #[trigger] out@[k]@,
                ),
        decreases params@.len() - i,
    {
        let decoded = args.decode(params[i], i);
        match decoded {
            Ok(v) => {
                out.push(v);
            },
            Err(e) => {
                proof {
                    assert forall|k: int| 0 <= k < i implies !#[trigger] position_fails(params@, args.values@, k) by {
                        assert(decode_at(params@[k], args.values@, k as usize) == Ok::<ArgModel, ArgError>(out@[k]@));
                    }
                    assert(is_first_bad_position(params@, args.values@, i as int));
                    let j = choose|j: int| is_first_bad_position(params@, args.values@, j);
                    lemma_first_bad_position_unique(params@, args.values@, i as int, j);
                }
                return Err(e);
            },
        }
        i += 1;
    }
    proof {
        assert forall|j: int| !is_first_bad_position(params@, args.values@, j) by {
            if 0 <= j < params@.len() {
                assert(decode_at(params@[j], args.values@, j as usize) == Ok::<ArgModel, ArgError>(out@[j]@));
            }
        }
        assert(models(out@) =~= Seq::new(
            params@.len(),
            |i: int| decode_at(params@[i], args.values@, i as usize)->Ok_0,
        ));
    }
    Ok(out)
}

/// Every kind, in the order in which the host module lists them.
pub fn kinds() -> (r: Vec<ProviderKind>)
    ensures
        r@.len() == 7,
        forall|k: ProviderKind| r@.contains(k),
        r@.no_duplicates(),
{
    let r = vec![
        ProviderKind::Counter,
        ProviderKind::Gauge,
        ProviderKind::Histogram,
        ProviderKind::Pulse,
        ProviderKind::Dict,
        ProviderKind::Logger,
        ProviderKind::Table,
    ];
    proof {
        assert forall|k: ProviderKind| r@.contains(k) by {
            match k {
                ProviderKind::Counter => assert(r@[0] == k),
                ProviderKind::Gauge => assert(r@[1] == k),
                ProviderKind::Histogram => assert(r@[2] == k),
                ProviderKind::Pulse => assert(r@[3] == k),
                ProviderKind::Dict => assert(r@[4] == k),
                ProviderKind::Logger => assert(r@[5] == k),
                ProviderKind::Table => assert(r@[6] == k),
            }
        }
    }
    r
}

/// The methods of `kind`, each once: those for which it has a descriptor.
pub fn methods_of(kind: ProviderKind) -> (r: Vec<Method>)
    ensures
        forall|m: Method| r@.contains(m) <==> method_params(kind, m) is Some,
        r@.no_duplicates(),
{
    let r = match kind {
        ProviderKind::Counter => vec![Method::IsActive, Method::Inc],
        ProviderKind::Gauge => vec![Method::IsActive, Method::SetValue],
        ProviderKind::Histogram => vec![Method::IsActive, Method::Add],
        ProviderKind::Pulse => vec![Method::IsActive, Method::Inc, Method::Dec, Method::SetValue],
        ProviderKind::Dict => vec![Method::IsActive, Method::SetValue],
        ProviderKind::Logger => vec![Method::IsActive, Method::Log],
        ProviderKind::Table => vec![Method::IsActive, Method::AddRow, Method::DelRow],
    };
    proof {
        assert forall|m: Method| r@.contains(m) <==> method_params(kind, m) is Some by {
            if method_params(kind, m) is Some {
                if m == Method::IsActive {
                    assert(r@[0] == m);
                } else if r@.len() > 1 && r@[1] == m {
                } else if r@.len() > 2 && r@[2] == m {
                } else {
                    assert(r@.len() > 3 && r@[3] == m);
                }
            }
        }
    }
    r
}

pub fn class_name(kind: ProviderKind) -> (r: &'static str)
    ensures
        r@ == class_name_of(kind),
{
    match kind {
        ProviderKind::Counter => "Counter",
        ProviderKind::Gauge => "Gauge",
        ProviderKind::Histogram => "Histogram",
        ProviderKind::Pulse => "Pulse",
        ProviderKind::Dict => "Dict",
        ProviderKind::Logger => "Logger",
        ProviderKind::Table => "Table",
    }
}

pub fn method_name(method: Method) -> (r: &'static str)
    ensures
        r@ == method_name_of(method),
{
    match method {
        Method::IsActive => "isActive",
        Method::Inc => "inc",
        Method::Dec => "dec",
        Method::SetValue => "set",
        Method::Add => "add",
        Method::Log => "log",
        Method::AddRow => "add_row",
        Method::DelRow => "del_row",
    }
}

} // verus!
