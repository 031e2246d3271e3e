//! The diagnostic lines that the notification commands record.

use vstd::prelude::*;

verus! {

/// The line recorded for a notification request.
pub fn notification_line(title: &str, message: &str) -> (r: String)
    ensures
        r@ == "🔔 Notification: "@ + title@ + " - "@ + message@,
{
    let mut r = String::from_str("🔔 Notification: ");
    r.append(title);
    r.append(" - ");
    r.append(message);
    r
}

/// The line recorded for a finished validation.
pub fn validation_line(results: &str) -> (r: String)
    ensures
        r@ == "📊 Validation results: "@ + results@,
{
    let mut r = String::from_str("📊 Validation results: ");
    r.append(results);
    r
}

} // verus!
