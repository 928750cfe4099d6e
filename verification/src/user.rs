//! Registration of a user: the values that pass between the transport, the
//! service and the repository, and the decisions taken between them.

use crate::error::{AppError, AppErrorView, AppResult, INTERNAL_ERROR_CODE};
use crate::storage::{map_db_error, translate, StorageError};
use vstd::prelude::*;

verus! {

/// `uuid::Uuid`, carried through unread.
#[verifier::external_type_specification]
#[verifier::external_body]
pub struct ExUuid(uuid::Uuid);

/// The request to register a user.
#[derive(Debug)]
pub struct CreateUserDto {
    pub email: String,
    pub first_name: String,
    pub last_name: String,
    pub password: String,
    pub phone_number: String,
}

/// The user as stored.
pub struct CreateUserResponse {
    pub id: uuid::Uuid,
    pub email: String,
    pub first_name: String,
    pub last_name: String,
    pub phone_number: String,
}

/// What the transport answers to a registration.
pub enum RegistrationReply {
    /// The user was stored: status 200 with the user as body.
    Created(CreateUserResponse),
    /// The registration failed: the error's reported status with the error's
    /// code and message as body.
    Failed(AppError),
}

/// The message of the error that reports a password that could not be hashed.
pub open spec fn password_hash_failure() -> Seq<char> {
    "Password hash error"@
}

impl RegistrationReply {
    /// The status of the reply.
    pub open spec fn spec_status(&self) -> u16 {
        match self {
            RegistrationReply::Created(_) => 200,
            RegistrationReply::Failed(error) => crate::error::reported_status(
                error@.transport_status,
            ),
        }
    }

    /// The status of the reply: 200 for a stored user, else the status that
    /// the error reports.
    pub fn status(&self) -> (status: u16)
        ensures
            status == self.spec_status(),
    {
        match self {
            RegistrationReply::Created(_) => 200,
            RegistrationReply::Failed(error) => error.status_code(),
        }
    }
}

/// What has happened in a registration and is handed to the next decision.
pub enum RegistrationEvent {
    /// The request has arrived.
    Received(CreateUserDto),
    /// The password of the request has been hashed, or hashing has failed.
    PasswordHashed(CreateUserDto, Option<String>),
    /// The service has answered.
    ServiceAnswered(AppResult<CreateUserResponse>),
}

/// What the transport does next in a registration.
pub enum RegistrationStep {
    /// Hash the password of the request.
    HashPassword(CreateUserDto),
    /// Ask the service to create the user.
    CreateUser(CreateUserDto),
    /// Answer the client; the registration is over.
    Reply(RegistrationReply),
}

/// The service between the transport and the repository.
pub struct UserServices;

impl UserServices {
    /// Concludes the creation of a user with what the repository answered:
    /// the stored user as it is, or the application error that the storage
    /// failure is reported as.
    pub fn create_user(
        stored: Result<CreateUserResponse, StorageError>,
    ) -> (answer: AppResult<CreateUserResponse>)
        ensures
            match stored {
                Ok(user) => answer == Ok::<CreateUserResponse, AppError>(user),
                Err(failure) => answer matches Err(error) && error@ == translate(failure@),
            },
    {
        match stored {
            Ok(user) => Ok(user),
            Err(failure) => Err(map_db_error(failure)),
        }
    }
}

/// The transport's side of a registration.
pub struct UserHandlers;

impl UserHandlers {
    /// Decides the next step of a registration. A request that has arrived
    /// has its password hashed first. With the hash in place of the password
    /// the request goes to the service; where hashing failed, the client is
    /// answered with an internal error. The service's answer is the reply: the
    /// stored user, or the error.
    pub fn register_user(event: RegistrationEvent) -> (step: RegistrationStep)
        ensures
            match event {
                RegistrationEvent::Received(payload) => step == RegistrationStep::HashPassword(
                    payload,
                ),
                RegistrationEvent::PasswordHashed(payload, Some(hash)) => step
                    == RegistrationStep::CreateUser(
                    (CreateUserDto { password: hash, ..payload }),
                ),
                RegistrationEvent::PasswordHashed(_, None) => step matches RegistrationStep::Reply(
                    RegistrationReply::Failed(error),
                ) && error@ == (AppErrorView {
                    code: 1000,
                    message: password_hash_failure(),
                    transport_status: 500,
                }),
                RegistrationEvent::ServiceAnswered(Ok(user)) => step == RegistrationStep::Reply(
                    RegistrationReply::Created(user),
                ),
                RegistrationEvent::ServiceAnswered(Err(error)) => step == RegistrationStep::Reply(
                    RegistrationReply::Failed(error),
                ),
            },
    {
        match event {
            RegistrationEvent::Received(payload) => RegistrationStep::HashPassword(payload),
            RegistrationEvent::PasswordHashed(payload, Some(hash)) => {
                let mut data = payload;
                data.password = hash;
                RegistrationStep::CreateUser(data)
            },
            RegistrationEvent::PasswordHashed(_, None) => RegistrationStep::Reply(
                RegistrationReply::Failed(
                    AppError::from_parts(
                        INTERNAL_ERROR_CODE,
                        String::from_str("Password hash error"),
                        Some(500),
                    ),
                ),
            ),
            RegistrationEvent::ServiceAnswered(Ok(user)) => RegistrationStep::Reply(
                RegistrationReply::Created(user),
            ),
            RegistrationEvent::ServiceAnswered(Err(error)) => RegistrationStep::Reply(
                RegistrationReply::Failed(error),
            ),
        }
    }
}

} // verus!
