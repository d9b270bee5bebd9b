//! A configured backend as the runtime names it and as the protocol names it.

use vstd::prelude::*;
use crate::artifact::BackendInstanceIdentity;
use crate::digest::Sha256Digest;
use crate::error::StoreError;
use crate::text::Text;

verus! {

/// A configured backend, as the runtime names it.
#[derive(Debug)]
pub struct ConfiguredBackend {
    pub backend_id: Text,
    pub origin: Text,
    pub deployment_id: Text,
    pub identity_sha256: Sha256Digest,
}

impl vstd::std_specs::cmp::PartialEqSpecImpl for ConfiguredBackend {
    open spec fn obeys_eq_spec() -> bool {
        true
    }

    open spec fn eq_spec(&self, other: &Self) -> bool {
        &&& vstd::std_specs::cmp::PartialEqSpec::eq_spec(&self.backend_id, &other.backend_id)
        &&& vstd::std_specs::cmp::PartialEqSpec::eq_spec(&self.origin, &other.origin)
        &&& vstd::std_specs::cmp::PartialEqSpec::eq_spec(
            &self.deployment_id,
            &other.deployment_id,
        )
        &&& vstd::std_specs::cmp::PartialEqSpec::eq_spec(
            &self.identity_sha256,
            &other.identity_sha256,
        )
    }
}

impl PartialEq for ConfiguredBackend {
    fn eq(&self, other: &Self) -> (r: bool) {
        self.backend_id == other.backend_id && self.origin == other.origin && self.deployment_id
            == other.deployment_id && self.identity_sha256 == other.identity_sha256
    }
}

impl Eq for ConfiguredBackend {
}

impl Clone for ConfiguredBackend {
    fn clone(&self) -> (r: Self)
        ensures
            r == *self,
    {
        ConfiguredBackend {
            backend_id: self.backend_id.clone(),
            origin: self.origin.clone(),
            deployment_id: self.deployment_id.clone(),
            identity_sha256: self.identity_sha256.clone(),
        }
    }
}

/// What the runtime computes of a protocol name: whether the digest in the name is that of what it
/// names, and the digest that the runtime gives the named backend, where it takes it.
#[derive(Debug)]
pub struct BackendNameReading {
    pub is_intact: bool,
    pub computed: Option<Sha256Digest>,
}

/// What a backend's error says of where it comes from. `endpoint_matches` is whether the endpoint in
/// its evidence, if there is one, lies at the configured origin.
#[derive(Debug)]
pub struct BackendErrorOrigin {
    pub backend_id: Text,
    pub backend_instance: Option<ConfiguredBackend>,
    pub endpoint_matches: Option<bool>,
}

impl vstd::std_specs::cmp::PartialEqSpecImpl for BackendErrorOrigin {
    open spec fn obeys_eq_spec() -> bool {
        true
    }

    open spec fn eq_spec(&self, other: &Self) -> bool {
        &&& vstd::std_specs::cmp::PartialEqSpec::eq_spec(&self.backend_id, &other.backend_id)
        &&& vstd::std_specs::cmp::PartialEqSpec::eq_spec(
            &self.backend_instance,
            &other.backend_instance,
        )
        &&& self.endpoint_matches == other.endpoint_matches
    }
}

impl PartialEq for BackendErrorOrigin {
    fn eq(&self, other: &Self) -> (r: bool) {
        self.backend_id == other.backend_id && self.backend_instance == other.backend_instance
            && self.endpoint_matches == other.endpoint_matches
    }
}

impl Eq for BackendErrorOrigin {
}

impl Clone for BackendErrorOrigin {
    fn clone(&self) -> (r: Self)
        ensures
            r == *self,
    {
        BackendErrorOrigin {
            backend_id: self.backend_id.clone(),
            backend_instance: match &self.backend_instance {
                Some(instance) => Some(instance.clone()),
                None => None,
            },
            endpoint_matches: self.endpoint_matches,
        }
    }
}

/// Whether both names are of the same backend.
pub open spec fn names_same_backend(
    configured: ConfiguredBackend,
    protocol: BackendInstanceIdentity,
) -> bool {
    &&& configured.backend_id@ == protocol.backend_id@
    &&& configured.origin@ == protocol.endpoint_origin@
    &&& configured.deployment_id@ == protocol.configured_deployment_id@
    &&& configured.identity_sha256@ == protocol.identity_sha256@
}

/// The protocol's name of a configured backend. `is_intact` is whether the digest in the name is that
/// of what it names, and `computed` the digest that the protocol gives it, where it takes it.
pub fn protocol_backend_instance_identity(
    identity: &ConfiguredBackend,
    is_intact: bool,
    computed: &Option<Sha256Digest>,
) -> (r: Result<BackendInstanceIdentity, StoreError>)
    ensures
        r is Ok <==> is_intact && (computed matches Some(digest) && digest@
            == identity.identity_sha256@),
        r matches Ok(protocol) ==> names_same_backend(*identity, protocol),
        r matches Err(error) ==> error == StoreError::InvalidStateEvent,
{
    if !is_intact {
        return Err(StoreError::InvalidStateEvent);
    }
    match computed {
        Some(digest) => if *digest != identity.identity_sha256 {
            Err(StoreError::InvalidStateEvent)
        } else {
            Ok(
                BackendInstanceIdentity {
                    backend_id: identity.backend_id.clone(),
                    endpoint_origin: identity.origin.clone(),
                    configured_deployment_id: identity.deployment_id.clone(),
                    identity_sha256: digest.clone(),
                },
            )
        },
        None => Err(StoreError::InvalidStateEvent),
    }
}

/// Whether a protocol name stands: it is intact, and the runtime gives the backend the same digest.
pub open spec fn name_stands(
    identity: BackendInstanceIdentity,
    reading: BackendNameReading,
) -> bool {
    &&& reading.is_intact
    &&& reading.computed matches Some(digest)
    &&& digest@ == identity.identity_sha256@
}

/// The configured backend behind the protocol's name.
pub fn backend_instance_from_protocol_identity(
    identity: &BackendInstanceIdentity,
    reading: &BackendNameReading,
) -> (r: Result<ConfiguredBackend, StoreError>)
    ensures
        r is Ok <==> name_stands(*identity, *reading),
        r matches Ok(configured) ==> names_same_backend(configured, *identity),
        r matches Err(error) ==> error == StoreError::InvalidStateEvent,
{
    if !reading.is_intact {
        return Err(StoreError::InvalidStateEvent);
    }
    match &reading.computed {
        Some(digest) => if *digest != identity.identity_sha256 {
            Err(StoreError::InvalidStateEvent)
        } else {
            Ok(
                ConfiguredBackend {
                    backend_id: identity.backend_id.clone(),
                    origin: identity.endpoint_origin.clone(),
                    deployment_id: identity.configured_deployment_id.clone(),
                    identity_sha256: digest.clone(),
                },
            )
        },
        None => Err(StoreError::InvalidStateEvent),
    }
}

/// Whether a response comes from the backend that the protocol names: the name stands, and the
/// evidence of the response matches the backend behind it.
pub fn response_matches_protocol_backend_instance(
    identity: &BackendInstanceIdentity,
    reading: &BackendNameReading,
    evidence_matches: bool,
) -> (r: bool)
    ensures
        r == (name_stands(*identity, *reading) && evidence_matches),
{
    backend_instance_from_protocol_identity(identity, reading).is_ok() && evidence_matches
}

/// Whether two configured backends are the same.
pub open spec fn same_backend(left: ConfiguredBackend, right: ConfiguredBackend) -> bool {
    &&& left.backend_id@ == right.backend_id@
    &&& left.origin@ == right.origin@
    &&& left.deployment_id@ == right.deployment_id@
    &&& left.identity_sha256@ == right.identity_sha256@
}

/// Whether an error comes from the backend that the protocol names: the name stands, the error bears
/// the backend's identity and its whole name, and the endpoint in its evidence, if there is one, lies
/// at the backend's origin.
pub open spec fn error_is_from(
    identity: BackendInstanceIdentity,
    reading: BackendNameReading,
    error: BackendErrorOrigin,
) -> bool {
    &&& name_stands(identity, reading)
    &&& error.backend_id@ == identity.backend_id@
    &&& error.backend_instance matches Some(instance) && names_same_backend(instance, identity)
    &&& error.endpoint_matches matches Some(matching) ==> matching
}

/// Whether an error comes from the backend that the protocol names.
pub fn error_matches_protocol_backend_instance(
    identity: &BackendInstanceIdentity,
    reading: &BackendNameReading,
    error: &BackendErrorOrigin,
) -> (r: bool)
    ensures
        r == error_is_from(*identity, *reading, *error),
{
    let expected = match backend_instance_from_protocol_identity(identity, reading) {
        Ok(expected) => expected,
        Err(_) => return false,
    };
    let named = match &error.backend_instance {
        Some(instance) => *instance == expected,
        None => false,
    };
    let reached = match error.endpoint_matches {
        Some(matching) => matching,
        None => true,
    };
    error.backend_id == expected.backend_id && named && reached
}

/// Both names lead back to each other: the backend behind a backend's protocol name is that backend.
pub proof fn law_names_lead_back(
    first: ConfiguredBackend,
    protocol: BackendInstanceIdentity,
    second: ConfiguredBackend,
)
    requires
        names_same_backend(first, protocol),
        names_same_backend(second, protocol),
    ensures
        same_backend(first, second),
{
}

} // verus!
