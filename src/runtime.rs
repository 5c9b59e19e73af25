use crate::args::CallArgs;
use crate::command::{command_fits, command_for, creation_fits, creation_for, lemma_decoded_fits, Command, Creation};
use crate::dispatch::{
    constructor_descriptor, constructor_params, decode_all, decode_call, method_descriptor, method_params,
    Method, ProviderKind,
};
use crate::value::{ArgError, ArgModel, HostValue};
use std::collections::HashMap;
use vstd::prelude::*;

verus! {

broadcast use vstd::std_specs::hash::group_hash_axioms;

/// Why a host call on the binding layer failed.
#[derive(Clone, Copy, Debug, PartialEq, Eq, Structural)]
pub enum BindingError {
    /// The arguments do not match the declared descriptor.
    Argument(ArgError),
    /// No telemetry client has been installed yet.
    NotInstalled,
    /// A telemetry client was installed before.
    AlreadyInstalled,
    /// The host object holds no provider.
    Unbound,
    /// The host object holds a provider of another kind.
    KindMismatch { expected: ProviderKind, found: ProviderKind },
    /// The host object holds a provider already.
    AlreadyBound,
    /// The kind has no method of that name.
    NoSuchMethod,
}

impl BindingError {
    /// A short text for the host's error object.
    pub fn reason(&self) -> (r: &'static str) {
        match self {
            BindingError::Argument(ArgError::Missing { .. }) => "argument is missing",
            BindingError::Argument(ArgError::TypeMismatch { .. }) => "argument has a wrong type",
            BindingError::Argument(ArgError::ElementMismatch { .. }) => "array argument holds a wrong element",
            BindingError::Argument(ArgError::TooMany { .. }) => "too many arguments",
            BindingError::NotInstalled => "the telemetry client is not installed",
            BindingError::AlreadyInstalled => "the telemetry client is installed already",
            BindingError::Unbound => "the object holds no provider",
            BindingError::KindMismatch { .. } => "the object holds a provider of another kind",
            BindingError::AlreadyBound => "the object holds a provider already",
            BindingError::NoSuchMethod => "no such method",
        }
    }
}

/// The state of the binding layer as the laws speak of it: whether the
/// client is installed, and the kind of provider that each host object holds.
pub struct RuntimeModel {
    pub installed: bool,
    pub bound: Map<u64, ProviderKind>,
}

/// `install`: succeeds only where no client is installed yet.
pub open spec fn install_step(m: RuntimeModel) -> (RuntimeModel, Result<(), BindingError>) {
    if m.installed {
        (m, Err(BindingError::AlreadyInstalled))
    } else {
        (RuntimeModel { installed: true, bound: m.bound }, Ok(()))
    }
}

/// `bind`: attaches a provider of `kind` to an object that holds none, once
/// the client is installed.
pub open spec fn bind_step(m: RuntimeModel, object: u64, kind: ProviderKind) -> (RuntimeModel, Result<(), BindingError>) {
    if !m.installed {
        (m, Err(BindingError::NotInstalled))
    } else if m.bound.contains_key(object) {
        (m, Err(BindingError::AlreadyBound))
    } else {
        (RuntimeModel { installed: m.installed, bound: m.bound.insert(object, kind) }, Ok(()))
    }
}

/// `release`: the object holds no provider afterwards.
pub open spec fn release_step(m: RuntimeModel, object: u64) -> RuntimeModel {
    RuntimeModel { installed: m.installed, bound: m.bound.remove(object) }
}

/// `fetch`: the object must hold a provider of `kind`.
pub open spec fn fetch_outcome(m: RuntimeModel, object: u64, kind: ProviderKind) -> Result<(), BindingError> {
    if !m.bound.contains_key(object) {
        Err(BindingError::Unbound)
    } else if m.bound[object] != kind {
        Err(BindingError::KindMismatch { expected: kind, found: m.bound[object] })
    } else {
        Ok(())
    }
}

pub open spec fn argument_outcome(r: Result<Seq<ArgModel>, ArgError>) -> Result<Seq<ArgModel>, BindingError> {
    match r {
        Ok(ms) => Ok(ms),
        Err(e) => Err(BindingError::Argument(e)),
    }
}

/// A constructor call on `object`: the client must be installed, the object
/// must hold no provider, and the arguments must decode.
pub open spec fn construct_outcome(
    m: RuntimeModel,
    object: u64,
    kind: ProviderKind,
    args: Seq<HostValue>,
) -> Result<Seq<ArgModel>, BindingError> {
    if !m.installed {
        Err(BindingError::NotInstalled)
    } else if m.bound.contains_key(object) {
        Err(BindingError::AlreadyBound)
    } else {
        argument_outcome(decode_all(constructor_params(kind), args))
    }
}

/// A method call on `object`: the method must exist for the kind, the object
/// must hold a provider of that kind, and the arguments must decode.
pub open spec fn call_outcome(
    m: RuntimeModel,
    object: u64,
    kind: ProviderKind,
    method: Method,
    args: Seq<HostValue>,
) -> Result<Seq<ArgModel>, BindingError> {
    match method_params(kind, method) {
        None => Err(BindingError::NoSuchMethod),
        Some(params) => match fetch_outcome(m, object, kind) {
            Err(e) => Err(e),
            Ok(_) => argument_outcome(decode_all(params, args)),
        },
    }
}

/// A provider attached to a host object, with its kind.
pub struct Binding<P> {
    pub kind: ProviderKind,
    pub payload: P,
}

/// The binding layer: the telemetry client, installed at most once, and the
/// side table from host object identity to the provider that it holds.
pub struct Runtime<C, P> {
    client: Option<C>,
    bound: HashMap<u64, Binding<P>>,
}

impl<C, P> View for Runtime<C, P> {
    type V = RuntimeModel;

    closed spec fn view(&self) -> RuntimeModel {
        RuntimeModel { installed: self.client is Some, bound: self.bound@.map_values(|b: Binding<P>| b.kind) }
    }
}

impl<C, P> Runtime<C, P> {
    /// The installed client, if any.
    pub closed spec fn installed_client(&self) -> Option<C> {
        self.client
    }

    /// The bindings with their payloads.
    pub closed spec fn entries(&self) -> Map<u64, Binding<P>> {
        self.bound@
    }

    pub fn new() -> (r: Self)
        ensures
            r@ == (RuntimeModel { installed: false, bound: Map::empty() }),
            r.installed_client() is None,
            r.entries() == Map::<u64, Binding<P>>::empty(),
    {
        let r = Runtime { client: None, bound: HashMap::new() };
        proof {
            assert(r@.bound =~= Map::<u64, ProviderKind>::empty());
        }
        r
    }

    /// Installs the telemetry client; every call after the first that
    /// succeeded fails with `AlreadyInstalled`.
    pub fn install(&mut self, client: C) -> (r: Result<(), BindingError>)
        ensures
            (final(self)@, r) == install_step(old(self)@),
            r is Ok ==> final(self).installed_client() == Some(client),
            r is Err ==> final(self).installed_client() == old(self).installed_client(),
            final(self).entries() == old(self).entries(),
    {
        if self.client.is_some() {
            return Err(BindingError::AlreadyInstalled);
        }
        self.client = Some(client);
        Ok(())
    }

    /// The installed client.
    pub fn client(&self) -> (r: Result<&C, BindingError>)
        ensures
            match r {
                Ok(c) => self@.installed && self.installed_client() == Some(*c),
                Err(e) => !self@.installed && e == BindingError::NotInstalled,
            },
    {
        match &self.client {
            Some(c) => Ok(c),
            None => Err(BindingError::NotInstalled),
        }
    }

    pub fn is_installed(&self) -> (r: bool)
        ensures
            r == self@.installed,
    {
        self.client.is_some()
    }

    /// The provider that `object` holds, which must be of `kind`.
    pub fn fetch(&self, object: u64, kind: ProviderKind) -> (r: Result<&P, BindingError>)
        ensures
            match r {
                Ok(p) => fetch_outcome(self@, object, kind) is Ok && *p == self.entries()[object].payload,
                Err(e) => fetch_outcome(self@, object, kind) == Err::<(), BindingError>(e),
            },
    {
        match self.bound.get(&object) {
            None => Err(BindingError::Unbound),
            Some(b) => if b.kind == kind {
                Ok(&b.payload)
            } else {
                Err(BindingError::KindMismatch { expected: kind, found: b.kind })
            },
        }
    }

    /// Attaches `payload`, a provider of `kind`, to `object`.
    pub fn bind(&mut self, object: u64, kind: ProviderKind, payload: P) -> (r: Result<(), BindingError>)
        ensures
            (final(self)@, r) == bind_step(old(self)@, object, kind),
            final(self).installed_client() == old(self).installed_client(),
            r is Ok ==> final(self).entries() == old(self).entries().insert(object, Binding { kind, payload }),
            r is Err ==> final(self).entries() == old(self).entries(),
    {
        if self.client.is_none() {
            return Err(BindingError::NotInstalled);
        }
        if self.bound.contains_key(&object) {
            return Err(BindingError::AlreadyBound);
        }
        self.bound.insert(object, Binding { kind, payload });
        proof {
            assert(self@.bound =~= old(self)@.bound.insert(object, kind));
        }
        Ok(())
    }

    /// Detaches whatever `object` holds, as when the host finalizes it.
    pub fn release(&mut self, object: u64) -> (r: Option<P>)
        ensures
            final(self)@ == release_step(old(self)@, object),
            final(self).installed_client() == old(self).installed_client(),
            final(self).entries() == old(self).entries().remove(object),
            match r {
                Some(p) => old(self).entries().contains_key(object) && p == old(self).entries()[object].payload,
                None => !old(self).entries().contains_key(object),
            },
    {
        let r = match self.bound.remove(&object) {
            Some(b) => Some(b.payload),
            None => None,
        };
        proof {
            assert(self@.bound =~= old(self)@.bound.remove(object));
        }
        r
    }

    /// Checks a constructor call on `object` and decodes its arguments into
    /// the provider to create.
    pub fn prepare_construct(
        &self,
        object: u64,
        kind: ProviderKind,
        args: &CallArgs,
    ) -> (r: Result<Creation, BindingError>)
        ensures
            match r {
                Ok(c) => {
                    &&& construct_outcome(self@, object, kind, args.values@) matches Ok(ms)
                    &&& creation_fits(c, kind, ms)
                },
                Err(e) => construct_outcome(self@, object, kind, args.values@)
                    == Err::<Seq<ArgModel>, BindingError>(e),
            },
    {
        if self.client.is_none() {
            return Err(BindingError::NotInstalled);
        }
        if self.bound.contains_key(&object) {
            return Err(BindingError::AlreadyBound);
        }
        let params = constructor_descriptor(kind);
        match decode_call(&params, args) {
            Err(e) => Err(BindingError::Argument(e)),
            Ok(vals) => {
                proof {
                    lemma_decoded_fits(params@, args.values@);
                }
                Ok(creation_for(kind, vals))
            },
        }
    }

    /// Checks a method call on `object` and decodes it into the command to
    /// run on the provider that it holds.
    pub fn prepare_call(
        &self,
        object: u64,
        kind: ProviderKind,
        method: Method,
        args: &CallArgs,
    ) -> (r: Result<(&P, Command), BindingError>)
        ensures
            match r {
                Ok((p, c)) => {
                    &&& call_outcome(self@, object, kind, method, args.values@) matches Ok(ms)
                    &&& command_fits(c, kind, method, ms)
                    &&& *p == self.entries()[object].payload
                },
                Err(e) => call_outcome(self@, object, kind, method, args.values@)
                    == Err::<Seq<ArgModel>, BindingError>(e),
            },
    {
        let params = match method_descriptor(kind, method) {
            None => {
                return Err(BindingError::NoSuchMethod);
            },
            Some(params) => params,
        };
        let payload = match self.fetch(object, kind) {
            Err(e) => {
                return Err(e);
            },
            Ok(p) => p,
        };
        match decode_call(&params, args) {
            Err(e) => Err(BindingError::Argument(e)),
            Ok(vals) => {
                proof {
                    lemma_decoded_fits(params@, args.values@);
                }
                Ok((payload, command_for(kind, method, vals)))
            },
        }
    }
}

} // verus!
