//! A notifier that swallows mail: the in-process stand-in for the
//! out-of-band delivery channel used by tests and single-process
//! deployments.

use vstd::prelude::*;
use vstd::string::StringExecFns;

use crate::email::Email;
use crate::errors::AuthAPIError;

verus! {

/// Delivers nothing and reports success.
pub struct MockEmailClient;

impl MockEmailClient {
    /// Accepts any message and confirms delivery.
    #[allow(unused_variables)]
    pub fn send_email(&self, recipient: &Email, subject: &str, content: &str) -> (r: Result<
        String,
        AuthAPIError,
    >)
        ensures
            r matches Ok(m) && m@ == "mock-email-sent"@,
    {
        Ok(String::from_str("mock-email-sent"))
    }
}

} // verus!
