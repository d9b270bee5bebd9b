//! Content-addressed artifact references and their digests.

use vstd::prelude::*;
use crate::digest::{Sha256Digest};
use crate::error::{StoreError};
use crate::text::{Text};

verus! {

/// A content-addressed artifact: hexadecimal SHA-256, exact byte length and media type.
#[derive(Debug)]
pub struct ArtifactRef {
    pub sha256: Text,
    pub size_bytes: u64,
    pub media_type: Text,
}

impl PartialEq for ArtifactRef {
    fn eq(&self, other: &Self) -> (r: bool) {
        self.sha256 == other.sha256
            && self.size_bytes == other.size_bytes
            && self.media_type == other.media_type
    }
}

impl Eq for ArtifactRef {
}

impl vstd::std_specs::cmp::PartialEqSpecImpl for ArtifactRef {
    open spec fn obeys_eq_spec() -> bool {
        true
    }

    open spec fn eq_spec(&self, other: &Self) -> bool {
        &&& vstd::std_specs::cmp::PartialEqSpec::eq_spec(&self.sha256, &other.sha256)
        &&& self.size_bytes == other.size_bytes
        &&& vstd::std_specs::cmp::PartialEqSpec::eq_spec(&self.media_type, &other.media_type)
    }
}

impl Clone for ArtifactRef {
    fn clone(&self) -> (r: Self)
        ensures
            r == *self,
    {
        ArtifactRef {
            sha256: self.sha256.clone(),
            size_bytes: self.size_bytes,
            media_type: self.media_type.clone(),
        }
    }
}

/// What kind of service a backend is.
#[derive(Clone, Copy, Debug, PartialEq, Eq, Structural)]
pub enum BackendKind {
    Model,
    Agent,
}

/// The backend, and the model on it, that a run or an event used.
#[derive(Debug)]
pub struct BackendSelection {
    pub backend_id: Text,
    pub kind: BackendKind,
    pub model: Option<Text>,
    pub reasoning_effort: Option<Text>,
}

impl PartialEq for BackendSelection {
    fn eq(&self, other: &Self) -> (r: bool) {
        self.backend_id == other.backend_id
            && self.kind == other.kind
            && self.model == other.model
            && self.reasoning_effort == other.reasoning_effort
    }
}

impl Eq for BackendSelection {
}

impl vstd::std_specs::cmp::PartialEqSpecImpl for BackendSelection {
    open spec fn obeys_eq_spec() -> bool {
        true
    }

    open spec fn eq_spec(&self, other: &Self) -> bool {
        &&& vstd::std_specs::cmp::PartialEqSpec::eq_spec(&self.backend_id, &other.backend_id)
        &&& self.kind == other.kind
        &&& vstd::std_specs::cmp::PartialEqSpec::eq_spec(&self.model, &other.model)
        &&& vstd::std_specs::cmp::PartialEqSpec::eq_spec(&self.reasoning_effort, &other.reasoning_effort)
    }
}

impl Clone for BackendSelection {
    fn clone(&self) -> (r: Self)
        ensures
            r == *self,
    {
        BackendSelection {
            backend_id: self.backend_id.clone(),
            kind: self.kind,
            model: self.model.clone(),
            reasoning_effort: self.reasoning_effort.clone(),
        }
    }
}

/// Where an event comes from: its producer, the backend that served it and the raw bytes kept of it.
#[derive(Debug)]
pub struct Provenance {
    pub producer: Text,
    pub backend: Option<BackendSelection>,
    pub raw_artifact: Option<ArtifactRef>,
}

impl PartialEq for Provenance {
    fn eq(&self, other: &Self) -> (r: bool) {
        self.producer == other.producer
            && self.backend == other.backend
            && self.raw_artifact == other.raw_artifact
    }
}

impl Eq for Provenance {
}

impl vstd::std_specs::cmp::PartialEqSpecImpl for Provenance {
    open spec fn obeys_eq_spec() -> bool {
        true
    }

    open spec fn eq_spec(&self, other: &Self) -> bool {
        &&& vstd::std_specs::cmp::PartialEqSpec::eq_spec(&self.producer, &other.producer)
        &&& vstd::std_specs::cmp::PartialEqSpec::eq_spec(&self.backend, &other.backend)
        &&& vstd::std_specs::cmp::PartialEqSpec::eq_spec(&self.raw_artifact, &other.raw_artifact)
    }
}

impl Clone for Provenance {
    fn clone(&self) -> (r: Self)
        ensures
            r == *self,
    {
        Provenance {
            producer: self.producer.clone(),
            backend: self.backend.clone(),
            raw_artifact: self.raw_artifact.clone(),
        }
    }
}

/// One exact model on one exact backend.
#[derive(Debug)]
pub struct BackendModelRef {
    pub backend_id: Text,
    pub kind: BackendKind,
    pub model_id: Text,
}

impl PartialEq for BackendModelRef {
    fn eq(&self, other: &Self) -> (r: bool) {
        self.backend_id == other.backend_id
            && self.kind == other.kind
            && self.model_id == other.model_id
    }
}

impl Eq for BackendModelRef {
}

impl vstd::std_specs::cmp::PartialEqSpecImpl for BackendModelRef {
    open spec fn obeys_eq_spec() -> bool {
        true
    }

    open spec fn eq_spec(&self, other: &Self) -> bool {
        &&& vstd::std_specs::cmp::PartialEqSpec::eq_spec(&self.backend_id, &other.backend_id)
        &&& self.kind == other.kind
        &&& vstd::std_specs::cmp::PartialEqSpec::eq_spec(&self.model_id, &other.model_id)
    }
}

impl Clone for BackendModelRef {
    fn clone(&self) -> (r: Self)
        ensures
            r == *self,
    {
        BackendModelRef {
            backend_id: self.backend_id.clone(),
            kind: self.kind,
            model_id: self.model_id.clone(),
        }
    }
}

/// The identity by which two models are told apart.
#[derive(Debug)]
pub struct ModelLineage {
    pub backend_id: Text,
    pub model_id: Text,
    pub deployment_id: Text,
    pub independence_domain_id: Text,
}

impl PartialEq for ModelLineage {
    fn eq(&self, other: &Self) -> (r: bool) {
        self.backend_id == other.backend_id
            && self.model_id == other.model_id
            && self.deployment_id == other.deployment_id
            && self.independence_domain_id == other.independence_domain_id
    }
}

impl Eq for ModelLineage {
}

impl vstd::std_specs::cmp::PartialEqSpecImpl for ModelLineage {
    open spec fn obeys_eq_spec() -> bool {
        true
    }

    open spec fn eq_spec(&self, other: &Self) -> bool {
        &&& vstd::std_specs::cmp::PartialEqSpec::eq_spec(&self.backend_id, &other.backend_id)
        &&& vstd::std_specs::cmp::PartialEqSpec::eq_spec(&self.model_id, &other.model_id)
        &&& vstd::std_specs::cmp::PartialEqSpec::eq_spec(&self.deployment_id, &other.deployment_id)
        &&& vstd::std_specs::cmp::PartialEqSpec::eq_spec(&self.independence_domain_id, &other.independence_domain_id)
    }
}

impl Clone for ModelLineage {
    fn clone(&self) -> (r: Self)
        ensures
            r == *self,
    {
        ModelLineage {
            backend_id: self.backend_id.clone(),
            model_id: self.model_id.clone(),
            deployment_id: self.deployment_id.clone(),
            independence_domain_id: self.independence_domain_id.clone(),
        }
    }
}

/// One configured backend deployment behind one HTTP origin.
#[derive(Debug)]
pub struct BackendInstanceIdentity {
    pub backend_id: Text,
    pub endpoint_origin: Text,
    pub configured_deployment_id: Text,
    pub identity_sha256: Sha256Digest,
}

impl PartialEq for BackendInstanceIdentity {
    fn eq(&self, other: &Self) -> (r: bool) {
        self.backend_id == other.backend_id
            && self.endpoint_origin == other.endpoint_origin
            && self.configured_deployment_id == other.configured_deployment_id
            && self.identity_sha256 == other.identity_sha256
    }
}

impl Eq for BackendInstanceIdentity {
}

impl vstd::std_specs::cmp::PartialEqSpecImpl for BackendInstanceIdentity {
    open spec fn obeys_eq_spec() -> bool {
        true
    }

    open spec fn eq_spec(&self, other: &Self) -> bool {
        &&& vstd::std_specs::cmp::PartialEqSpec::eq_spec(&self.backend_id, &other.backend_id)
        &&& vstd::std_specs::cmp::PartialEqSpec::eq_spec(&self.endpoint_origin, &other.endpoint_origin)
        &&& vstd::std_specs::cmp::PartialEqSpec::eq_spec(&self.configured_deployment_id, &other.configured_deployment_id)
        &&& vstd::std_specs::cmp::PartialEqSpec::eq_spec(&self.identity_sha256, &other.identity_sha256)
    }
}

impl Clone for BackendInstanceIdentity {
    fn clone(&self) -> (r: Self)
        ensures
            r == *self,
    {
        BackendInstanceIdentity {
            backend_id: self.backend_id.clone(),
            endpoint_origin: self.endpoint_origin.clone(),
            configured_deployment_id: self.configured_deployment_id.clone(),
            identity_sha256: self.identity_sha256.clone(),
        }
    }
}

/// Whether `digest` is the digest that `artifact` is addressed by.
pub fn digest_matches_artifact(digest: &Sha256Digest, artifact: &ArtifactRef) -> (r: bool)
    ensures
        r == (digest@ == artifact.sha256@),
{
    digest.reads(&artifact.sha256)
}

/// Refuses an artifact of another media type.
pub fn require_artifact_media_type(artifact: &ArtifactRef, media_type: &Text) -> (r: Result<
    (),
    StoreError,
>)
    ensures
        r == (if artifact.media_type@ == media_type@ {
            Ok::<(), StoreError>(())
        } else {
            Err(StoreError::InvalidStateEvent)
        }),
{
    if artifact.media_type == *media_type {
        Ok(())
    } else {
        Err(StoreError::InvalidStateEvent)
    }
}

/// Whether something was read at all.
pub open spec fn outcome<T>(read: Result<T, StoreError>) -> Result<(), StoreError> {
    match read {
        Ok(_) => Ok(()),
        Err(error) => Err(error),
    }
}

/// Whether a document can be read in an artifact: it has the media type of the document, and what is
/// in it was read.
pub open spec fn readable<T>(
    artifact: ArtifactRef,
    media_type: Text,
    read: Result<T, StoreError>,
) -> Result<(), StoreError> {
    if artifact.media_type@ != media_type@ {
        Err(StoreError::InvalidStateEvent)
    } else {
        outcome(read)
    }
}

/// Refuses an artifact in which a document cannot be read.
pub fn require_readable<T>(
    artifact: &ArtifactRef,
    media_type: &Text,
    read: &Result<T, StoreError>,
) -> (r: Result<(), StoreError>)
    ensures
        r == readable(*artifact, *media_type, *read),
{
    match require_artifact_media_type(artifact, media_type) {
        Ok(()) => match read {
            Ok(_) => Ok(()),
            Err(error) => Err(*error),
        },
        Err(error) => Err(error),
    }
}


/// What an artifact of a media type holds, as it was read.
pub fn read_document<'a, T>(
    artifact: &ArtifactRef,
    media_type: &Text,
    read: &'a Result<T, StoreError>,
) -> (r: Result<&'a T, StoreError>)
    ensures
        match (r, readable(*artifact, *media_type, *read)) {
            (Ok(document), Ok(())) => *read == Ok::<T, StoreError>(*document),
            (Err(error), Err(expected)) => error == expected,
            _ => false,
        },
{
    match require_artifact_media_type(artifact, media_type) {
        Ok(()) => {},
        Err(error) => return Err(error),
    }
    match read {
        Ok(document) => Ok(document),
        Err(error) => Err(*error),
    }
}
} // verus!
