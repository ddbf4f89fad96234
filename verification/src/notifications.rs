//! Notifications: what the service decides around the notification store.

use vstd::prelude::*;
use vstd::string::*;
use crate::api_error::ApiError;
use crate::text::{ascii_lowered, is_text_ignoring_case};

verus! {

/// Asks for the notifications of one user.
#[derive(Clone, Debug)]
pub struct NotificationQuery {
    pub user_id: String,
}

/// What a notification is about.
#[derive(Clone, Copy, Debug, PartialEq, Eq, Structural)]
pub enum NotificationType {
    Payment,
    Security,
    System,
}

/// The name of a notification type.
pub open spec fn notification_type_name(notification_type: NotificationType) -> Seq<char> {
    match notification_type {
        NotificationType::Payment => seq!['p', 'a', 'y', 'm', 'e', 'n', 't'],
        NotificationType::Security => seq!['s', 'e', 'c', 'u', 'r', 'i', 't', 'y'],
        NotificationType::System => seq!['s', 'y', 's', 't', 'e', 'm'],
    }
}

/// The notification type that a text names, whatever the case of its
/// letters; a text that names none stands for a notification of the system.
pub open spec fn notification_type_of(s: Seq<char>) -> NotificationType {
    if ascii_lowered(s) == notification_type_name(NotificationType::Payment) {
        NotificationType::Payment
    } else if ascii_lowered(s) == notification_type_name(NotificationType::Security) {
        NotificationType::Security
    } else {
        NotificationType::System
    }
}

impl NotificationType {
    /// The name of the notification type, in lower case.
    pub fn as_str(&self) -> (r: &'static str)
        ensures
            r@ == notification_type_name(*self),
    {
        proof {
            reveal_strlit("payment");
            reveal_strlit("security");
            reveal_strlit("system");
        }
        match self {
            NotificationType::Payment => "payment",
            NotificationType::Security => "security",
            NotificationType::System => "system",
        }
    }

    /// The name of the notification type as an owned text.
    pub fn to_string(&self) -> (r: String)
        ensures
            r@ == notification_type_name(*self),
    {
        String::from_str(self.as_str())
    }

    /// The notification type that `s` names: see [`notification_type_of`].
    pub fn from_str(s: &str) -> (r: NotificationType)
        ensures
            r == notification_type_of(s@),
    {
        let payment = NotificationType::Payment.as_str();
        let security = NotificationType::Security.as_str();
        assert(ascii_lowered(payment@) =~= payment@);
        assert(ascii_lowered(security@) =~= security@);
        if is_text_ignoring_case(s, payment) {
            NotificationType::Payment
        } else if is_text_ignoring_case(s, security) {
            NotificationType::Security
        } else {
            NotificationType::System
        }
    }
}

/// The identifier of a notification: the sixteen bytes of a UUID.
#[derive(Clone, Copy, Debug)]
pub struct NotificationId {
    pub bytes: [u8; 16],
}

/// The bytes of the UUID that `uuid::Uuid::parse_str` reads from a text;
/// `None` where the text is no UUID.
pub uninterp spec fn parsed_uuid(text: Seq<char>) -> Option<Seq<u8>>;

/// Calls `uuid::Uuid::parse_str` and hands out the bytes of the UUID. The
/// result is a function of the text; the contract gives it its name.
#[verifier::external_body]
fn parse_uuid(text: &str) -> (r: Option<[u8; 16]>)
    ensures
        match r {
            Some(bytes) => parsed_uuid(text@) == Some(bytes@),
            None => parsed_uuid(text@) is None,
        },
{
    uuid::Uuid::parse_str(text).ok().map(|id| id.into_bytes())
}

/// Reads the identifier of a notification from the path of a request. A
/// text that is no UUID is a malformed request.
pub fn notification_id(id: &str) -> (r: Result<NotificationId, ApiError>)
    ensures
        match r {
            Ok(parsed) => parsed_uuid(id@) == Some(parsed.bytes@),
            Err(e) => parsed_uuid(id@) is None && (e matches ApiError::Validation(message)
                && message@ == "Invalid Notification ID"@),
        },
{
    match parse_uuid(id) {
        Some(bytes) => Ok(NotificationId { bytes }),
        None => Err(ApiError::Validation(String::from_str("Invalid Notification ID"))),
    }
}

/// Answers a request to mark a notification as read, once the store has
/// said how many notifications it changed: none means that there is no such
/// notification.
pub fn mark_as_read(rows_affected: u64) -> (r: Result<(), ApiError>)
    ensures
        rows_affected == 0 ==> (r matches Err(ApiError::NotFound(message)) && message@
            == "Notification not found"@),
        rows_affected != 0 ==> r is Ok,
{
    if rows_affected == 0 {
        return Err(ApiError::NotFound(String::from_str("Notification not found")));
    }
    Ok(())
}

} // verus!
