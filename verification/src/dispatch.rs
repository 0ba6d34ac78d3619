//! Mapping from activated menu identifiers to outbound notifications.
//!
//! The dispatcher owns only the custom subset of the menu: the five
//! identifiers below. Anything else (platform-native default items such as
//! quit or hide) is handled natively by the host and is silently ignored
//! here — by design, not as an error.

use vstd::prelude::*;

verus! {

/// An application event sent to the UI layer: a name and an optional payload.
/// Created transiently per dispatch; not persisted.
pub struct OutboundNotification {
    pub name: String,
    pub payload: Option<String>,
}

/// Abstract value of an [`OutboundNotification`].
#[verifier::ext_equal]
pub struct NotificationView {
    pub name: Seq<char>,
    pub payload: Option<Seq<char>>,
}

impl View for OutboundNotification {
    type V = NotificationView;

    open spec fn view(&self) -> NotificationView {
        NotificationView {
            name: self.name@,
            payload: match self.payload {
                Some(p) => Some(p@),
                None => None,
            },
        }
    }
}

/// The dispatch table: which notification, if any, an activated menu
/// identifier produces.
pub open spec fn spec_dispatch(id: Seq<char>) -> Option<NotificationView> {
    if id == "open-file"@ {
        Some(NotificationView { name: "request open file"@, payload: None })
    } else if id == "zoom-in"@ {
        Some(NotificationView { name: "zoom"@, payload: Some("in"@) })
    } else if id == "zoom-out"@ {
        Some(NotificationView { name: "zoom"@, payload: Some("out"@) })
    } else if id == "zoom-reset"@ {
        Some(NotificationView { name: "zoom"@, payload: Some("reset"@) })
    } else if id == "toggle-theme"@ {
        Some(NotificationView { name: "toggle theme"@, payload: None })
    } else {
        None
    }
}

/// True exactly of the five identifiers the dispatcher owns.
pub open spec fn is_dispatched_id(id: Seq<char>) -> bool {
    ||| id == "open-file"@
    ||| id == "zoom-in"@
    ||| id == "zoom-out"@
    ||| id == "zoom-reset"@
    ||| id == "toggle-theme"@
}

/// String-slice equality by characters.
fn str_eq(a: &str, b: &str) -> (r: bool)
    ensures
        r == (a@ == b@),
{
    a.to_owned() == b.to_owned()
}

/// Translates one "menu item activated" identifier into the notification the
/// table prescribes; an unrecognized identifier produces nothing.
pub fn dispatch(id: &str) -> (r: Option<OutboundNotification>)
    ensures
        match r {
            Some(n) => spec_dispatch(id@) == Some(n@),
            None => spec_dispatch(id@) is None,
        },
{
    if str_eq(id, "open-file") {
        Some(OutboundNotification { name: "request open file".to_owned(), payload: None })
    } else if str_eq(id, "zoom-in") {
        Some(OutboundNotification { name: "zoom".to_owned(), payload: Some("in".to_owned()) })
    } else if str_eq(id, "zoom-out") {
        Some(OutboundNotification { name: "zoom".to_owned(), payload: Some("out".to_owned()) })
    } else if str_eq(id, "zoom-reset") {
        Some(OutboundNotification { name: "zoom".to_owned(), payload: Some("reset".to_owned()) })
    } else if str_eq(id, "toggle-theme") {
        Some(OutboundNotification { name: "toggle theme".to_owned(), payload: None })
    } else {
        None
    }
}

/// Dispatch completeness: every identifier in the table produces exactly the
/// prescribed notification name and payload, and no identifier outside the
/// table produces any notification at all.
pub proof fn lemma_dispatch_completeness()
    ensures
        spec_dispatch("open-file"@) == Some(
            NotificationView { name: "request open file"@, payload: None },
        ),
        spec_dispatch("zoom-in"@) == Some(
            NotificationView { name: "zoom"@, payload: Some("in"@) },
        ),
        spec_dispatch("zoom-out"@) == Some(
            NotificationView { name: "zoom"@, payload: Some("out"@) },
        ),
        spec_dispatch("zoom-reset"@) == Some(
            NotificationView { name: "zoom"@, payload: Some("reset"@) },
        ),
        spec_dispatch("toggle-theme"@) == Some(
            NotificationView { name: "toggle theme"@, payload: None },
        ),
        forall|id: Seq<char>| spec_dispatch(id) is Some ==> is_dispatched_id(id),
{
    reveal_strlit("open-file");
    reveal_strlit("zoom-in");
    reveal_strlit("zoom-out");
    reveal_strlit("zoom-reset");
    reveal_strlit("toggle-theme");
    assert("open-file"@.len() == 9);
    assert("zoom-in"@.len() == 7);
    assert("zoom-out"@.len() == 8);
    assert("zoom-reset"@.len() == 10);
    assert("toggle-theme"@.len() == 12);
    assert("zoom-in"@ != "open-file"@);
    assert("zoom-out"@ != "open-file"@);
    assert("zoom-out"@ != "zoom-in"@);
    assert("zoom-reset"@ != "open-file"@);
    assert("zoom-reset"@ != "zoom-in"@);
    assert("zoom-reset"@ != "zoom-out"@);
    assert("toggle-theme"@ != "open-file"@);
    assert("toggle-theme"@ != "zoom-in"@);
    assert("toggle-theme"@ != "zoom-out"@);
    assert("toggle-theme"@ != "zoom-reset"@);
}

/// Unknown-identifier inertness: an identifier outside the table (for
/// instance a platform-native default item) produces no notification.
pub proof fn lemma_unknown_identifier_inert(id: Seq<char>)
    requires
        !is_dispatched_id(id),
    ensures
        spec_dispatch(id) is None,
{
}

} // verus!
