//! The platform's answer codes, as the library reads them.
//!
//! The notification subsystem answers an update with a small integer and
//! reports a dismissal with another.  The platform's own enumerations give
//! those integers names; the functions here turn a raw code into the
//! library's corresponding value, with an explicit catch-all for codes the
//! enumeration does not know.

use vstd::prelude::*;

verus! {

/// The outcome of an update against an already shown toast.
#[derive(Debug, Clone, Copy, PartialEq, Eq, Structural)]
pub enum NotificationUpdateResult {
    /// The notification was found and its data replaced.
    Succeeded,
    /// The platform refused the update.
    Failed,
    /// No live notification carries the given tag under the given app id.
    NotificationNotFound,
    /// The platform answered with a code outside its documented enumeration.
    Unknown,
}

/// Why a toast left the screen.
#[derive(Debug, Clone, Copy, PartialEq, Eq, Structural)]
pub enum ToastDismissalReason {
    /// The user explicitly dismissed the toast.
    UserCanceled,
    /// The application hid the toast programmatically.
    ApplicationHidden,
    /// The toast timed out.
    TimedOut,
}

/// The update result that a raw platform code stands for.  The codes are
/// those of the platform's update-result enumeration: 0 succeeded, 1 failed,
/// 2 notification not found; anything else is taken as [`NotificationUpdateResult::Unknown`]
/// rather than refused.
pub fn update_result_from_code(code: i32) -> (r: NotificationUpdateResult)
    ensures
        r == (if code == 0 {
            NotificationUpdateResult::Succeeded
        } else if code == 1 {
            NotificationUpdateResult::Failed
        } else if code == 2 {
            NotificationUpdateResult::NotificationNotFound
        } else {
            NotificationUpdateResult::Unknown
        }),
{
    if code == 0 {
        NotificationUpdateResult::Succeeded
    } else if code == 1 {
        NotificationUpdateResult::Failed
    } else if code == 2 {
        NotificationUpdateResult::NotificationNotFound
    } else {
        NotificationUpdateResult::Unknown
    }
}

/// The action argument the activation callback receives: the argument string
/// of the clicked element, or nothing when that string is empty — the toast
/// body itself carries no argument, so a click on it reports `None`.
pub fn activated_action(arguments: String) -> (r: Option<String>)
    ensures
        match r {
            Some(s) => s@ == arguments@ && arguments@.len() > 0,
            None => arguments@.len() == 0,
        },
{
    if arguments.as_str().is_empty() {
        None
    } else {
        Some(arguments)
    }
}

/// The dismissal reason that a raw platform code stands for.  The codes are
/// those of the platform's dismissal-reason enumeration: 0 user canceled,
/// 1 application hidden, 2 timed out; any other code gives `None`, and the
/// dismissal callback reports an unknown reason.
pub fn dismissal_reason_from_code(code: i32) -> (r: Option<ToastDismissalReason>)
    ensures
        r == (if code == 0 {
            Some(ToastDismissalReason::UserCanceled)
        } else if code == 1 {
            Some(ToastDismissalReason::ApplicationHidden)
        } else if code == 2 {
            Some(ToastDismissalReason::TimedOut)
        } else {
            None::<ToastDismissalReason>
        }),
{
    if code == 0 {
        Some(ToastDismissalReason::UserCanceled)
    } else if code == 1 {
        Some(ToastDismissalReason::ApplicationHidden)
    } else if code == 2 {
        Some(ToastDismissalReason::TimedOut)
    } else {
        None
    }
}

} // verus!
