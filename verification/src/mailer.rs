//! The outgoing mail message.  Submission itself is network I/O and lives
//! with the binary; the library fixes what the message holds.

use vstd::prelude::*;
use vstd::string::*;

verus! {

/// One mail message: sender identity and credential, recipient, subject,
/// and the HTML body.
pub struct Message {
    pub from_email: String,
    pub from_password: String,
    pub to: String,
    pub subject: String,
    pub html_body: String,
}

/// Builds the daily report message: sent from the configured address to
/// itself, under the fixed daily subject, with the rendered report as body.
pub fn daily_message(email: &String, password: &String, html_body: String) -> (m: Message)
    ensures
        m.from_email@ == email@,
        m.from_password@ == password@,
        m.to@ == email@,
        m.subject@ == "Daily Pie Email!"@,
        m.html_body == html_body,
{
    Message {
        from_email: email.clone(),
        from_password: password.clone(),
        to: email.clone(),
        subject: String::from_str("Daily Pie Email!"),
        html_body,
    }
}

} // verus!
