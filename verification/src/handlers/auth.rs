//! Accounts: who is logged in.

use crate::error::ApiError;
use vstd::prelude::*;

verus! {

#[derive(PartialEq, Eq, Structural, Clone, Copy, Debug)]
pub enum PlanType {
    Free,
    Plus,
    Pro,
    Team,
    Business,
    Enterprise,
    Edu,
    Unknown,
}

/// How the server is authenticated.
pub enum CodexAuth {
    ApiKey,
    Chatgpt { email: Option<String>, plan_type: Option<PlanType> },
}

pub enum Account {
    ApiKey,
    Chatgpt { email: String, plan_type: PlanType },
}

pub struct GetAccountResponse {
    pub account: Option<Account>,
    pub requires_openai_auth: bool,
}

pub struct LogoutResponse {}

/// The account behind `auth`. A login without an address is no account; a
/// login without a plan is on the free one. Without an account the client
/// must log in.
pub fn get_account(auth: Option<CodexAuth>) -> (r: GetAccountResponse)
    ensures
        r.requires_openai_auth == r.account is None,
        match auth {
            None => r.account is None,
            Some(CodexAuth::ApiKey) => r.account matches Some(Account::ApiKey),
            Some(CodexAuth::Chatgpt { email, plan_type }) => match email {
                None => r.account is None,
                Some(address) => r.account == Some(
                    Account::Chatgpt {
                        email: address,
                        plan_type: match plan_type {
                            Some(plan) => plan,
                            None => PlanType::Free,
                        },
                    },
                ),
            },
        },
{
    let account = match auth {
        None => None,
        Some(CodexAuth::ApiKey) => Some(Account::ApiKey),
        Some(CodexAuth::Chatgpt { email, plan_type }) => match email {
            None => None,
            Some(address) => Some(
                Account::Chatgpt {
                    email: address,
                    plan_type: match plan_type {
                        Some(plan) => plan,
                        None => PlanType::Free,
                    },
                },
            ),
        },
    };
    let requires_openai_auth = account.is_none();
    GetAccountResponse { account, requires_openai_auth }
}

/// Logging out succeeds only where nobody is logged in; the rest is not
/// there yet.
pub fn logout(logged_in: bool) -> (r: Result<LogoutResponse, ApiError>)
    ensures
        r is Ok == !logged_in,
        r matches Err(e) ==> (e matches ApiError::InternalError(msg) && msg@
            == "Logout endpoint not yet implemented"@),
{
    if logged_in {
        Err(ApiError::InternalError("Logout endpoint not yet implemented".to_string()))
    } else {
        Ok(LogoutResponse {  })
    }
}

} // verus!
