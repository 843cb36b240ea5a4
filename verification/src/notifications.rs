//! What a local OS notification contains, and how its delivery is
//! reported.
//!
//! Only one platform build of the shell posts notifications; on the
//! others the operation is a silent success. The host runtime delivers
//! the notification and reports failures; this module decides what is
//! posted and what the caller is told.

use vstd::prelude::*;

verus! {

/// Whether a notification is posted, and with what content.
#[derive(Debug, PartialEq, Eq)]
pub enum NotificationPlan {
    /// Post a notification with this summary line, body text and named
    /// notification sound.
    Post { summary: String, body: String, sound: String },
    /// Post nothing and report success.
    Skip,
}

/// Plans the notification for a caller-supplied title and body. On the
/// notifying platform the title becomes the summary, the body is carried
/// unchanged, and the platform's `default` sound is requested; elsewhere
/// nothing is posted.
pub fn plan_notification(platform_notifies: bool, title: &str, body: &str) -> (p: NotificationPlan)
    ensures
        platform_notifies ==> (p matches NotificationPlan::Post { summary, body: b, sound }
            && summary@ == title@ && b@ == body@ && sound@ == "default"@),
        !platform_notifies ==> p is Skip,
{
    if platform_notifies {
        NotificationPlan::Post {
            summary: String::from_str(title),
            body: String::from_str(body),
            sound: String::from_str("default"),
        }
    } else {
        NotificationPlan::Skip
    }
}

/// Turns the reported outcome of a delivery into what the caller is
/// told: the delivery error's description verbatim, or success when
/// there was nothing to deliver or delivery went through.
pub fn notification_result(delivery_error: Option<String>) -> (r: Result<(), String>)
    ensures
        (delivery_error matches Some(m) ==> r == Err::<(), String>(m)),
        delivery_error is None ==> r == Ok::<(), String>(()),
{
    match delivery_error {
        Some(m) => Err(m),
        None => Ok(()),
    }
}

} // verus!
