//! Direct reads of canonical resources through the unit-of-work boundary,
//! behind the exact authorization context of the read.
use vstd::prelude::*;
use crate::authorization::{AuthorizationRequest, AuthorizationResult};
use crate::authorization_enforcement::{AuthorizationValidationError, enforcement, validate_authorization};
use crate::persistence::{
    PersistenceError, ResourceRecord, UnitOfWork, UnitOfWorkContext, UnitOfWorkError, UnitOfWorkFactory,
};
use crate::resource::{ResourceRef, opt_text_eq, opt_text_view};
use crate::text::{is_blank, str_is_blank};

verus! {

/// A request for one canonical resource, with the authorization request and
/// the result evaluated for it.
#[derive(Debug, Clone, PartialEq, Eq)]
pub struct ResourceQueryRequest {
    pub resource_ref: ResourceRef,
    pub authorization_request: AuthorizationRequest,
    pub authorization: AuthorizationResult,
    pub requested_data_class: Option<String>,
    pub now_epoch_seconds: u64,
}

#[derive(Debug, Clone, Copy, PartialEq, Eq, Structural)]
pub enum QueryError {
    AuthorizationDenied,
    AuthorizationMismatch,
    AuthorizationInvalid,
    AuthorizationExpired,
    DataClassificationMismatch,
    InvalidRequest,
    NotFound,
    Persistence(PersistenceError),
}

/// The query error that an authorization failure is reported as.
pub open spec fn query_error_of(e: AuthorizationValidationError) -> QueryError {
    match e {
        AuthorizationValidationError::Denied => QueryError::AuthorizationDenied,
        AuthorizationValidationError::Expired => QueryError::AuthorizationExpired,
        AuthorizationValidationError::RequestResultMismatch => QueryError::AuthorizationMismatch,
        AuthorizationValidationError::NotYetEvaluated => QueryError::AuthorizationInvalid,
        AuthorizationValidationError::InvalidRequest => QueryError::AuthorizationInvalid,
        AuthorizationValidationError::ConstraintViolation => QueryError::AuthorizationInvalid,
    }
}

fn map_authorization_error(e: AuthorizationValidationError) -> (r: QueryError)
    ensures
        r == query_error_of(e),
{
    match e {
        AuthorizationValidationError::Denied => QueryError::AuthorizationDenied,
        AuthorizationValidationError::Expired => QueryError::AuthorizationExpired,
        AuthorizationValidationError::RequestResultMismatch => QueryError::AuthorizationMismatch,
        AuthorizationValidationError::NotYetEvaluated => QueryError::AuthorizationInvalid,
        AuthorizationValidationError::InvalidRequest => QueryError::AuthorizationInvalid,
        AuthorizationValidationError::ConstraintViolation => QueryError::AuthorizationInvalid,
    }
}

impl ResourceQueryRequest {
    pub fn new(
        resource_ref: ResourceRef,
        authorization_request: AuthorizationRequest,
        authorization: AuthorizationResult,
        requested_data_class: Option<String>,
        now_epoch_seconds: u64,
    ) -> (r: Self)
        ensures
            r == (ResourceQueryRequest {
                resource_ref,
                authorization_request,
                authorization,
                requested_data_class,
                now_epoch_seconds,
            }),
    {
        ResourceQueryRequest {
            resource_ref,
            authorization_request,
            authorization,
            requested_data_class,
            now_epoch_seconds,
        }
    }

    /// What checking the request answers, in order: the authorization request
    /// names exactly this resource and data class, a named data class is not
    /// blank, and the evaluated result authorizes the request now.
    pub open spec fn check(&self) -> Result<(), QueryError> {
        let q = self.authorization_request;
        if q.resource_ref@ != self.resource_ref@ || opt_text_view(q.data_class) != opt_text_view(
            self.requested_data_class,
        ) {
            Err(QueryError::AuthorizationMismatch)
        } else if self.requested_data_class matches Some(c) && is_blank(c@) {
            Err(QueryError::InvalidRequest)
        } else {
            match enforcement(q, self.authorization, self.now_epoch_seconds) {
                Ok(()) => Ok(()),
                Err(e) => Err(query_error_of(e)),
            }
        }
    }

    pub fn validate(&self) -> (r: Result<(), QueryError>)
        ensures
            r == self.check(),
    {
        let request = &self.authorization_request;
        if !request.resource_ref.same(&self.resource_ref) || !opt_text_eq(
            &request.data_class,
            &self.requested_data_class,
        ) {
            return Err(QueryError::AuthorizationMismatch);
        }
        match &self.requested_data_class {
            Some(c) => {
                if str_is_blank(c.as_str()) {
                    return Err(QueryError::InvalidRequest);
                }
            },
            None => {},
        }
        match validate_authorization(request, &self.authorization, self.now_epoch_seconds) {
            Ok(()) => Ok(()),
            Err(e) => Err(map_authorization_error(e)),
        }
    }
}

/// What a read reports, given what the unit of work answered: the record, or
/// `NotFound` when there is none, or the storage error.
pub open spec fn read_outcome(read: Result<Option<ResourceRecord>, UnitOfWorkError>) -> Result<
    ResourceRecord,
    QueryError,
> {
    match read {
        Ok(Some(record)) => Ok(record),
        Ok(None) => Err(QueryError::NotFound),
        Err(UnitOfWorkError::Persistence(e)) => Err(QueryError::Persistence(e)),
        Err(UnitOfWorkError::InvalidOperation) => Err(QueryError::InvalidRequest),
    }
}

/// Maps what the unit of work answered to what the read reports.
pub fn settle_read(read: Result<Option<ResourceRecord>, UnitOfWorkError>) -> (r: Result<ResourceRecord, QueryError>)
    ensures
        r == read_outcome(read),
{
    match read {
        Ok(Some(record)) => Ok(record),
        Ok(None) => Err(QueryError::NotFound),
        Err(UnitOfWorkError::Persistence(e)) => Err(QueryError::Persistence(e)),
        Err(UnitOfWorkError::InvalidOperation) => Err(QueryError::InvalidRequest),
    }
}

/// A direct read of one canonical resource. Implementations return the
/// canonical record as stored and never reinterpret its payload.
pub trait ResourceQuery {
    fn get(&mut self, request: ResourceQueryRequest) -> Result<ResourceRecord, QueryError>;
}

/// Reads through the same unit-of-work boundary that writes go through.
pub struct UnitOfWorkResourceQuery<F: UnitOfWorkFactory> {
    factory: F,
}

impl<F: UnitOfWorkFactory> UnitOfWorkResourceQuery<F> {
    /// The storage that reads go to.
    pub closed spec fn storage(&self) -> F {
        self.factory
    }

    pub fn new(factory: F) -> (r: Self)
        ensures
            r.storage() == factory,
    {
        UnitOfWorkResourceQuery { factory }
    }

    pub fn into_inner(self) -> (r: F)
        ensures
            r == self.storage(),
    {
        self.factory
    }
}

impl<F: UnitOfWorkFactory> ResourceQuery for UnitOfWorkResourceQuery<F> {
    /// Checks the request before anything is read; then reads the resource in
    /// one unit of work, committed when a record was found and rolled back
    /// otherwise.
    fn get(&mut self, request: ResourceQueryRequest) -> (r: Result<ResourceRecord, QueryError>)
        ensures
            request.check() is Err ==> r == Err::<ResourceRecord, QueryError>(request.check()->Err_0)
                && final(self).storage() == old(self).storage(),
            r is Ok ==> request.check() is Ok,
            r matches Ok(record) ==> record.resource_ref@ == request.resource_ref@,
    {
        match request.validate() {
            Ok(()) => {},
            Err(e) => return Err(e),
        }
        let resource_ref = request.resource_ref;
        let mut uow = match self.factory.begin() {
            Ok(u) => u,
            Err(e) => return Err(QueryError::Persistence(e)),
        };
        let ghost wanted = resource_ref@;
        let operation = |context: &mut <F::Uow as UnitOfWork>::Context| -> (o: Result<
            Option<ResourceRecord>,
            UnitOfWorkError,
        >)
            ensures
                o matches Ok(Some(record)) ==> record.resource_ref@ == wanted,
        { context.read_resource(&resource_ref) };
        let read = uow.execute(operation);
        proof {
            if read is Ok {
                let c = choose|c: &mut <F::Uow as UnitOfWork>::Context| #[trigger] operation.ensures((c,), read);
                assert(operation.ensures((c,), read));
            }
        }
        match settle_read(read) {
            Ok(record) => match uow.commit() {
                Ok(()) => Ok(record),
                Err(e) => Err(QueryError::Persistence(e)),
            },
            Err(e) => {
                let _ = uow.rollback();
                Err(e)
            },
        }
    }
}

} // verus!
