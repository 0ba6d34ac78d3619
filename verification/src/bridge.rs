//! The lifecycle bridge's decision logic.
//!
//! The host platform may deliver an "open with" notification carrying one or
//! more resource locators at any point in the process lifetime, including
//! before any UI window exists. The platform callback itself lives outside
//! this crate; it converts each incoming locator to a plain [`Locator`]
//! value and hands the batch to [`handle_opened`], which resolves each
//! locator, records the survivor in the pending slot (last write wins), and
//! returns the live notifications to emit, in order.

use vstd::prelude::*;
use crate::dispatch::{NotificationView, OutboundNotification};
use crate::slot::PendingOpenSlot;

verus! {

/// One resource locator from an OS "open" notification, reduced to the plain
/// values this shell reads: whether it names a local file, its full textual
/// form, and — for a local file — its absolute filesystem path, when one
/// could be derived.
pub struct Locator {
    /// True when the locator identifies a local file.
    pub is_file: bool,
    /// The locator's full textual form (kept as-is for non-file locators,
    /// e.g. a custom URL scheme).
    pub text: String,
    /// For a local-file locator, its absolute filesystem path; `None` when
    /// no such path could be derived.
    pub file_path: Option<String>,
}

/// Abstract value of a [`Locator`].
#[verifier::ext_equal]
pub struct LocatorView {
    pub is_file: bool,
    pub text: Seq<char>,
    pub file_path: Option<Seq<char>>,
}

impl View for Locator {
    type V = LocatorView;

    open spec fn view(&self) -> LocatorView {
        LocatorView {
            is_file: self.is_file,
            text: self.text@,
            file_path: match self.file_path {
                Some(p) => Some(p@),
                None => None,
            },
        }
    }
}

/// What a locator resolves to: a local file resolves to its absolute path
/// (or to nothing when none could be derived); anything else is kept as its
/// opaque textual form.
pub open spec fn resolved_of(l: LocatorView) -> Option<Seq<char>> {
    if l.is_file {
        l.file_path
    } else {
        Some(l.text)
    }
}

/// The live notification announcing that a file (or URL) was opened.
pub open spec fn opened_note_of(p: Seq<char>) -> NotificationView {
    NotificationView { name: "a file was opened"@, payload: Some(p) }
}

/// The views of a batch of locators.
pub open spec fn locator_views(ls: Seq<Locator>) -> Seq<LocatorView> {
    ls.map_values(|l: Locator| l@)
}

/// The views of a batch of notifications.
pub open spec fn note_views(ns: Seq<OutboundNotification>) -> Seq<NotificationView> {
    ns.map_values(|n: OutboundNotification| n@)
}

/// The live notifications a batch of locators produces: one per locator that
/// resolves, in delivery order.
pub open spec fn opened_notes(ls: Seq<LocatorView>) -> Seq<NotificationView>
    decreases ls.len(),
{
    if ls.len() == 0 {
        Seq::empty()
    } else {
        opened_notes(ls.drop_last()) + (match resolved_of(ls.last()) {
            Some(p) => seq![opened_note_of(p)],
            None => Seq::empty(),
        })
    }
}

/// The slot's state after a batch of locators is absorbed into a slot that
/// held `init`: the last locator that resolves wins; when none resolves the
/// slot is untouched.
pub open spec fn pending_after(init: Option<Seq<char>>, ls: Seq<LocatorView>) -> Option<Seq<char>>
    decreases ls.len(),
{
    if ls.len() == 0 {
        init
    } else {
        match resolved_of(ls.last()) {
            Some(p) => Some(p),
            None => pending_after(init, ls.drop_last()),
        }
    }
}

/// Resolves one locator to the value that is recorded and announced, or to
/// nothing when a local-file locator yielded no usable path.
pub fn resolve_locator(l: &Locator) -> (r: Option<String>)
    ensures
        match r {
            Some(p) => resolved_of(l@) == Some(p@),
            None => resolved_of(l@) is None,
        },
{
    if l.is_file {
        match &l.file_path {
            Some(p) => Some(p.clone()),
            None => None,
        }
    } else {
        Some(l.text.clone())
    }
}

/// Absorbs one OS "open" notification: each locator is resolved in delivery
/// order; each resolved value is written to the slot (so only the last
/// survives there) and yields one live notification, returned in order for
/// the caller to emit after the slot is updated.
pub fn handle_opened(slot: &mut PendingOpenSlot, locators: &Vec<Locator>) -> (notes: Vec<
    OutboundNotification,
>)
    ensures
        final(slot)@ == pending_after(old(slot)@, locator_views(locators@)),
        note_views(notes@) == opened_notes(locator_views(locators@)),
{
    let ghost all = locator_views(locators@);
    let mut notes: Vec<OutboundNotification> = Vec::new();
    let mut i: usize = 0;
    while i < locators.len()
        invariant
            i <= locators.len(),
            all == locator_views(locators@),
            slot@ == pending_after(old(slot)@, all.take(i as int)),
            note_views(notes@) == opened_notes(all.take(i as int)),
        decreases locators.len() - i,
    {
        let ghost prev_notes = notes@;
        match resolve_locator(&locators[i]) {
            Some(p) => {
                slot.write(p.clone());
                notes.push(
                    OutboundNotification {
                        name: "a file was opened".to_owned(),
                        payload: Some(p),
                    },
                );
            },
            None => {},
        }
        i = i + 1;
        proof {
            assert(all.take(i as int).drop_last() =~= all.take(i - 1));
            assert(all.take(i as int).last() == all[i - 1]);
            assert(note_views(notes@) =~= opened_notes(all.take(i as int)));
        }
    }
    proof {
        assert(all.take(locators@.len() as int) =~= all);
    }
    notes
}

} // verus!
