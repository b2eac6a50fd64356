//! The signed-in person's own profile.

use vstd::prelude::*;

use crate::cli::PersonalCommand;
use crate::error::CliError;
use crate::text::{chars_of, trim, trim_seq, utf16_len, utf16_len_at_most};

verus! {

/// The signed-in person, as `GET /api/v1/me` returns them.
pub struct PersonalProfile {
    pub id: String,
    pub email: String,
    pub name: String,
    pub updated_at: String,
}

/// The answer to `GET` and `PATCH /api/v1/me`.
pub struct MeResponse {
    pub user: PersonalProfile,
}

/// The body of `PATCH /api/v1/me`: the name and nothing else.
pub struct UpdateNameRequest {
    pub name: String,
}

/// The message that refuses a personal name.
pub open spec fn personal_name_refusal() -> Seq<char> {
    "name must be between 1 and 100 characters"@
}

/// The body of `personal update --name`: the name trimmed, with 1 to 100 UTF-16 code units,
/// as the server requires.
pub fn update_name_request(name: &str) -> (r: Result<UpdateNameRequest, CliError>)
    ensures
        match r {
            Ok(body) => body.name@ == trim_seq(name@) && body.name@.len() > 0 && utf16_len(
                body.name@,
            ) <= 100,
            Err(e) => e matches CliError::InvalidInput { message } && message@
                == personal_name_refusal() && (trim_seq(name@).len() == 0 || utf16_len(
                trim_seq(name@),
            ) > 100),
        },
{
    let trimmed = trim(name);
    let chars = chars_of(trimmed.as_str());
    if trimmed.as_str().is_empty() || !utf16_len_at_most(&chars, 100) {
        return Err(CliError::InvalidInput { message: String::from_str("name must be between 1 and 100 characters") });
    }
    Ok(UpdateNameRequest { name: trimmed })
}

/// What a `personal` command sends: `GET /api/v1/me`, or `PATCH /api/v1/me` with the body.
pub enum PersonalPlan {
    Show,
    UpdateName(UpdateNameRequest),
}

/// Checks a `personal` command and returns what it sends; a refused name sends nothing.
pub fn personal_plan(command: PersonalCommand) -> (r: Result<PersonalPlan, CliError>)
    ensures
        match command {
            PersonalCommand::Show => r matches Ok(PersonalPlan::Show),
            PersonalCommand::Update { name } => match r {
                Ok(PersonalPlan::UpdateName(body)) => body.name@ == trim_seq(name@)
                    && body.name@.len() > 0 && utf16_len(body.name@) <= 100,
                Ok(PersonalPlan::Show) => false,
                Err(e) => e matches CliError::InvalidInput { message } && message@
                    == personal_name_refusal() && (trim_seq(name@).len() == 0 || utf16_len(
                    trim_seq(name@),
                ) > 100),
            },
        },
{
    match command {
        PersonalCommand::Show => Ok(PersonalPlan::Show),
        PersonalCommand::Update { name } => {
            let body = update_name_request(name.as_str())?;
            Ok(PersonalPlan::UpdateName(body))
        },
    }
}

} // verus!
