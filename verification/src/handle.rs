use vstd::prelude::*;
use vstd::std_specs::convert::FromSpec;
use vstd::std_specs::convert::FromSpecImpl;
use crate::error::{Error, ErrorView};
use crate::payload::{Payload, Value};
use crate::post::{PortId, Transfer};

verus! {

/// A service that can be handed to the other side: how to make a proxy for
/// it from the conduit that arrives there, and how to start serving it on
/// the conduit that stays here.
pub trait AsHandle<T> {
    type Client;

    fn into_client(port: PortId) -> Self::Client;

    fn create_server(local: T, port: PortId);
}

/// A service that crosses the boundary by reference: on the side where it
/// lives the handle holds the service, on the other side the conduit to it.
pub struct Handle<T: AsHandle<T>> {
    local: Option<T>,
    remote: Option<PortId>,
}

/// The error for a handle that has no conduit to make a proxy from.
pub open spec fn no_remote() -> ErrorView {
    ErrorView::CreationFailed {
        type_label: "Handle"@,
        error: "tried to create a proxy from a handle without a remote port"@,
    }
}

/// The error for a handle that has no service to send.
pub open spec fn no_local() -> ErrorView {
    ErrorView::SerializeFailed {
        type_label: "Handle"@,
        error: "local not set when trying to send"@,
    }
}

/// The error for a payload that holds no handle.
pub open spec fn not_a_port() -> ErrorView {
    ErrorView::DeserializeFailed {
        type_label: "Handle"@,
        error: "failed to convert payload to a channel end for Handle"@,
    }
}

impl<T: AsHandle<T>> From<T> for Handle<T> {
    fn from(local: T) -> (handle: Self) {
        Handle { local: Some(local), remote: None }
    }
}

/// The handle that `from` makes of a service holds that service and no
/// conduit: it can be sent, and no proxy can be made from it.
pub proof fn lemma_from_local<T: AsHandle<T>>(local: T)
    ensures
        <Handle<T> as FromSpec<T>>::obeys_from_spec(),
        <Handle<T> as FromSpec<T>>::from_spec(local).local() == Some(local),
        <Handle<T> as FromSpec<T>>::from_spec(local).remote() is None,
{
}

impl<T: AsHandle<T>> FromSpecImpl<T> for Handle<T> {
    open spec fn obeys_from_spec() -> bool {
        true
    }

    closed spec fn from_spec(local: T) -> Self {
        Handle { local: Some(local), remote: None }
    }
}

impl<T: AsHandle<T>> Handle<T> {
    /// The service, on the side where it lives.
    pub closed spec fn local(&self) -> Option<T> {
        self.local
    }

    /// The conduit to the service, on the other side.
    pub closed spec fn remote(&self) -> Option<PortId> {
        self.remote
    }

    /// The handle of a service that lives here.
    pub fn new_local(local: T) -> (handle: Self)
        ensures
            handle.local() == Some(local),
            handle.remote() is None,
    {
        Handle { local: Some(local), remote: None }
    }

    /// The handle of a service on the other side of `port`.
    pub fn new_remote(port: PortId) -> (handle: Self)
        ensures
            handle.local() is None,
            handle.remote() == Some(port),
    {
        Handle { local: None, remote: Some(port) }
    }

    /// The conduit from which a proxy for the service can be made, or
    /// `CreationFailed` for a handle that has none.
    pub fn into_remote_port(self) -> (r: Result<PortId, Error>)
        ensures
            match r {
                Ok(port) => self.remote() == Some(port),
                Err(e) => self.remote() is None && e@ == no_remote(),
            },
    {
        match self.remote {
            Some(port) => Ok(port),
            None => Err(
                Error::CreationFailed {
                    type_label: "Handle".to_owned(),
                    error: "tried to create a proxy from a handle without a remote port".to_owned(),
                },
            ),
        }
    }

    /// A proxy for the service: what the service's `into_client` makes of
    /// the handle's conduit. A handle without a conduit fails with
    /// `CreationFailed`, and `into_client` is not called.
    pub fn try_into_client(self) -> (r: Result<T::Client, Error>)
        ensures
            r is Ok == self.remote() is Some,
            r matches Ok(client) ==> (self.remote() matches Some(port) && call_ensures(
                T::into_client,
                (port,),
                client,
            )),
            r matches Err(e) ==> e@ == no_remote(),
    {
        match self.into_remote_port() {
            Ok(port) => Ok(T::into_client(port)),
            Err(e) => Err(e),
        }
    }

    /// Unmarshals a handle: the payload has to be the end of a conduit.
    pub fn from_payload(payload: Payload) -> (r: Result<Self, Error>)
        ensures
            match r {
                Ok(handle) => handle.local() is None && (handle.remote() matches Some(port)
                    && payload@ == Value::Port(port.0)),
                Err(e) => !(payload@ is Port) && e@ == not_a_port(),
            },
    {
        match payload {
            Payload::Port(id) => Ok(Handle::new_remote(PortId(id))),
            _ => Err(
                Error::DeserializeFailed {
                    type_label: "Handle".to_owned(),
                    error: "failed to convert payload to a channel end for Handle".to_owned(),
                },
            ),
        }
    }

    /// Takes the service out of a handle that is to be sent, or fails with
    /// `SerializeFailed` for a handle that holds none.
    pub fn into_local(self) -> (r: Result<T, Error>)
        ensures
            match r {
                Ok(local) => self.local() == Some(local),
                Err(e) => self.local() is None && e@ == no_local(),
            },
    {
        match self.local {
            Some(local) => Ok(local),
            None => Err(
                Error::SerializeFailed {
                    type_label: "Handle".to_owned(),
                    error: "local not set when trying to send".to_owned(),
                },
            ),
        }
    }

    /// Marshals a handle. `near` and `far` are the two ends of a fresh
    /// channel: the service starts to serve on the near end, and the far end
    /// is the payload that stands for the handle on the wire. A handle
    /// without a service fails with `SerializeFailed`, and nothing is started.
    pub fn to_payload(self, near: PortId, far: PortId) -> (r: Result<Payload, Error>)
        ensures
            match r {
                Ok(payload) => payload@ == Value::Port(far.0) && (self.local() matches Some(
                    local,
                ) && call_ensures(T::create_server, (local, near), ())),
                Err(e) => self.local() is None && e@ == no_local(),
            },
    {
        match self.into_local() {
            Ok(local) => {
                T::create_server(local, near);
                Ok(Payload::Port(far.0))
            },
            Err(e) => Err(e),
        }
    }
}

impl<T: AsHandle<T>> Transfer for Handle<T> {
    open spec fn needs_transfer() -> bool {
        true
    }

    fn transfer_marked() -> (yes: bool) {
        true
    }
}

} // verus!
