//! Registration at the `/create_user` endpoint, straight against the user
//! table.

use vstd::prelude::*;
use crate::models::user::UserInfo;
pub use crate::models::user::Registration;

verus! {

/// The endpoint's answer.
pub enum CreateUserReply {
    /// `400 Bad Request`, with a message.
    BadRequest(String),
    /// `200 OK`, with the new user's id and name.
    Created(u128, String),
}

/// Where a registration stands.
pub enum CreateUserStage {
    CheckingEmail,
    Hashing,
    Inserting,
    Finished,
}

/// The outcome of a piece of outside work during the registration.
pub enum CreateUserEvent {
    /// Whether a user with the email exists.
    EmailChecked(bool),
    /// The hash of the password.
    PasswordHashed(String),
    /// The id and name of the inserted row.
    UserInserted(u128, String),
}

/// What the registration asks for next.
pub enum CreateUserAction {
    CheckEmail(String),
    HashPassword(String),
    InsertUser(UserInfo),
    Respond(CreateUserReply),
}

/// A registration in progress.
pub struct CreateUserFlow {
    pub registration: Registration,
    pub stage: CreateUserStage,
}

/// Whether `event` answers the work that `stage` waits for.
pub open spec fn create_user_event_fits(stage: CreateUserStage, event: CreateUserEvent) -> bool {
    match stage {
        CreateUserStage::CheckingEmail => event is EmailChecked,
        CreateUserStage::Hashing => event is PasswordHashed,
        CreateUserStage::Inserting => event is UserInserted,
        CreateUserStage::Finished => false,
    }
}

/// The flow of `create_user`: first ask whether the email is taken.
pub fn create_user(body: Registration) -> (r: (CreateUserFlow, CreateUserAction))
    ensures
        r.0.registration == body,
        r.0.stage is CheckingEmail,
        r.1 == CreateUserAction::CheckEmail(body.email),
{
    let email = body.email.clone();
    (CreateUserFlow { registration: body, stage: CreateUserStage::CheckingEmail }, CreateUserAction::CheckEmail(email))
}

impl CreateUserFlow {
    /// Takes the outcome of the work asked for and names the next step: a
    /// taken email is refused; otherwise the password is hashed, the user
    /// inserted with the hash, and the inserted id and name handed back.
    pub fn step(&mut self, event: CreateUserEvent) -> (r: CreateUserAction)
        requires
            create_user_event_fits(old(self).stage, event),
        ensures
            final(self).registration == old(self).registration,
            match event {
                CreateUserEvent::EmailChecked(true) => final(self).stage is Finished
                    && (r matches CreateUserAction::Respond(CreateUserReply::BadRequest(m)) && m@
                    == "already exists"@),
                CreateUserEvent::EmailChecked(false) => final(self).stage is Hashing && r
                    == CreateUserAction::HashPassword(old(self).registration.password),
                CreateUserEvent::PasswordHashed(h) => final(self).stage is Inserting && r
                    == CreateUserAction::InsertUser(
                    UserInfo {
                        name: old(self).registration.name,
                        email: old(self).registration.email,
                        passhash: h,
                    },
                ),
                CreateUserEvent::UserInserted(id, name) => final(self).stage is Finished && r
                    == CreateUserAction::Respond(CreateUserReply::Created(id, name)),
            },
    {
        match event {
            CreateUserEvent::EmailChecked(exists) => {
                if exists {
                    self.stage = CreateUserStage::Finished;
                    CreateUserAction::Respond(
                        CreateUserReply::BadRequest(String::from_str("already exists")),
                    )
                } else {
                    self.stage = CreateUserStage::Hashing;
                    CreateUserAction::HashPassword(self.registration.password.clone())
                }
            },
            CreateUserEvent::PasswordHashed(h) => {
                self.stage = CreateUserStage::Inserting;
                CreateUserAction::InsertUser(
                    UserInfo {
                        name: self.registration.name.clone(),
                        email: self.registration.email.clone(),
                        passhash: h,
                    },
                )
            },
            CreateUserEvent::UserInserted(id, name) => {
                self.stage = CreateUserStage::Finished;
                CreateUserAction::Respond(CreateUserReply::Created(id, name))
            },
        }
    }
}

} // verus!
