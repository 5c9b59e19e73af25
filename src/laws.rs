use crate::command::{fits, lemma_decoded_fits};
use crate::dispatch::{
    decode_all, is_first_bad_position, lemma_decoded_positions, lemma_first_bad_position_unique, method_params, Method,
    ProviderKind,
};
use crate::number::Number;
use crate::runtime::{
    bind_step, call_outcome, construct_outcome, fetch_outcome, install_step, release_step, BindingError,
    RuntimeModel,
};
use crate::value::{decode_at, ArgError, ArgModel, ArgType, HostValue};
use vstd::prelude::*;

verus! {

/// `install` succeeds exactly when no client is installed, and once it has
/// succeeded every later `install` fails with `AlreadyInstalled`, whatever
/// bindings come and go in between.
pub proof fn install_succeeds_once(m: RuntimeModel, object: u64, kind: ProviderKind)
    ensures
        install_step(m).1 is Ok <==> !m.installed,
        install_step(m).0.installed,
        install_step(install_step(m).0).1 == Err::<(), BindingError>(BindingError::AlreadyInstalled),
        bind_step(m, object, kind).0.installed == m.installed,
        release_step(m, object).installed == m.installed,
{
}

/// Before `install`, constructing any provider fails with `NotInstalled`,
/// whatever the arguments, and nothing can be bound.
pub proof fn construction_requires_install(m: RuntimeModel, object: u64, kind: ProviderKind, args: Seq<HostValue>)
    requires
        !m.installed,
    ensures
        construct_outcome(m, object, kind, args) == Err::<Seq<ArgModel>, BindingError>(BindingError::NotInstalled),
        bind_step(m, object, kind) == (m, Err::<(), BindingError>(BindingError::NotInstalled)),
{
}

/// A method of a kind, called on an object that holds no provider of that
/// kind, fails with `Unbound` or `KindMismatch`, whatever the arguments; a
/// call succeeds only on an object that holds a provider of the kind.
pub proof fn call_needs_matching_binding(
    m: RuntimeModel,
    object: u64,
    kind: ProviderKind,
    method: Method,
    args: Seq<HostValue>,
)
    requires
        method_params(kind, method) is Some,
    ensures
        !m.bound.contains_key(object) ==> call_outcome(m, object, kind, method, args) == Err::<
            Seq<ArgModel>,
            BindingError,
        >(BindingError::Unbound),
        m.bound.contains_key(object) && m.bound[object] != kind ==> call_outcome(m, object, kind, method, args)
            == Err::<Seq<ArgModel>, BindingError>(
            BindingError::KindMismatch { expected: kind, found: m.bound[object] },
        ),
        call_outcome(m, object, kind, method, args) is Ok ==> m.bound.contains_key(object) && m.bound[object]
            == kind,
{
}

/// An object holds at most one provider: once a bind has succeeded, a second
/// bind or constructor call on the same object fails with `AlreadyBound`,
/// and the provider bound first stays.
pub proof fn binding_is_exclusive(
    m: RuntimeModel,
    object: u64,
    first: ProviderKind,
    second: ProviderKind,
    args: Seq<HostValue>,
)
    requires
        bind_step(m, object, first).1 is Ok,
    ensures
        ({
            let m1 = bind_step(m, object, first).0;
            &&& bind_step(m1, object, second) == (m1, Err::<(), BindingError>(BindingError::AlreadyBound))
            &&& construct_outcome(m1, object, second, args) == Err::<Seq<ArgModel>, BindingError>(
                BindingError::AlreadyBound,
            )
            &&& fetch_outcome(m1, object, first) is Ok
        }),
{
}

/// Once an object is released, a call on it fails with `Unbound`, and the
/// object can be bound anew.
pub proof fn release_unbinds(
    m: RuntimeModel,
    object: u64,
    kind: ProviderKind,
    method: Method,
    args: Seq<HostValue>,
)
    requires
        method_params(kind, method) is Some,
        m.installed,
    ensures
        call_outcome(release_step(m, object), object, kind, method, args) == Err::<Seq<ArgModel>, BindingError>(
            BindingError::Unbound,
        ),
        bind_step(release_step(m, object), object, kind).1 is Ok,
{
}

/// A counter only grows: on an object that holds a counter, `inc` with one
/// number succeeds exactly when the delta compares `>= 0`, and a negative
/// or NaN delta is refused as a type mismatch at position zero.
pub proof fn counter_refuses_negative_delta(m: RuntimeModel, object: u64, delta: Number)
    requires
        m.bound.contains_key(object),
        m.bound[object] == ProviderKind::Counter,
    ensures
        ({
            let outcome = call_outcome(m, object, ProviderKind::Counter, Method::Inc, seq![HostValue::Number(delta)]);
            &&& delta.is_non_negative() ==> outcome == Ok::<Seq<ArgModel>, BindingError>(
                seq![ArgModel::Number(delta)],
            )
            &&& !delta.is_non_negative() ==> outcome == Err::<Seq<ArgModel>, BindingError>(
                BindingError::Argument(
                    ArgError::TypeMismatch { index: 0, expected: ArgType::NonNegative },
                ),
            )
        }),
{
    let params = seq![ArgType::NonNegative];
    let args = seq![HostValue::Number(delta)];
    if delta.is_non_negative() {
        assert forall|j: int| !is_first_bad_position(params, args, j) by {}
        assert(decode_all(params, args)->Ok_0 =~= seq![ArgModel::Number(delta)]);
    } else {
        assert(is_first_bad_position(params, args, 0));
        let j = choose|j: int| is_first_bad_position(params, args, j);
        lemma_first_bad_position_unique(params, args, 0, j);
        assert(decode_at(params[0], args, 0) is Err);
    }
}

/// A call decodes only when it holds exactly as many values as its
/// descriptor declares, each of the declared type.
pub proof fn decoding_needs_exact_match(params: Seq<ArgType>, args: Seq<HostValue>)
    requires
        decode_all(params, args) is Ok,
        params.len() <= usize::MAX,
    ensures
        args.len() == params.len(),
        fits(params, decode_all(params, args)->Ok_0),
{
    lemma_decoded_fits(params, args);
    if args.len() < params.len() {
        lemma_decoded_positions(params, args);
        let i = args.len() as int;
        let ms = decode_all(params, args)->Ok_0;
        assert(decode_at(params[i], args, i as usize) == Ok::<ArgModel, ArgError>(ms[i]));
        assert(decode_at(params[i], args, i as usize) is Err);
    }
}

} // verus!
