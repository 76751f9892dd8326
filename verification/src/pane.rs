//! The page's render decisions: which body the page shows, which list pane
//! the tab switcher shows, and what stands in the referral-code slot.

use vstd::prelude::*;

verus! {

use crate::code::CanisterId;
use crate::tab::HOW_TO_TAB;

/// The body of the page.
#[derive(PartialEq, Eq, Structural, Clone, Copy, Debug)]
pub enum PageBody {
    /// The tab switcher over the explainer and the history.
    Tabbed,
    /// The explainer alone.
    HowToOnly,
}

/// Returns the body the page shows: the tab switcher for a logged-in user,
/// the explainer alone otherwise.
pub fn page_body(logged_in: bool) -> (b: PageBody)
    ensures
        b == (if logged_in {
            PageBody::Tabbed
        } else {
            PageBody::HowToOnly
        }),
{
    if logged_in {
        PageBody::Tabbed
    } else {
        PageBody::HowToOnly
    }
}

/// A pane of the tab switcher.
#[derive(PartialEq, Eq, Structural, Clone, Copy, Debug)]
pub enum ListPane {
    /// The explainer: how referring earns tokens.
    HowTo,
    /// The history of past referrals.
    History,
}

/// Returns the pane the tab switcher shows: the explainer while its tab is
/// selected, the history otherwise.
pub fn list_pane(current_tab: i32) -> (p: ListPane)
    ensures
        p == (if current_tab == HOW_TO_TAB {
            ListPane::HowTo
        } else {
            ListPane::History
        }),
{
    if current_tab == HOW_TO_TAB {
        ListPane::HowTo
    } else {
        ListPane::History
    }
}

/// What stands in the referral-code slot of the explainer.
#[derive(PartialEq, Eq, Structural, Clone, Copy, Debug)]
pub enum CodeSlot {
    /// A prompt to connect, for a user not logged in.
    ConnectPrompt,
    /// The referral-code widget.
    CodeWidget,
}

/// Returns what the referral-code slot holds: the code widget for a
/// logged-in user, the connect prompt otherwise.
pub fn code_slot(logged_in: bool) -> (s: CodeSlot)
    ensures
        s == (if logged_in {
            CodeSlot::CodeWidget
        } else {
            CodeSlot::ConnectPrompt
        }),
{
    if logged_in {
        CodeSlot::CodeWidget
    } else {
        CodeSlot::ConnectPrompt
    }
}

/// The referral-code widget.
#[derive(PartialEq, Eq, Structural, Clone, Copy, Debug)]
pub enum CodeView {
    /// A placeholder, while the user's canister is not known yet.
    Loading,
    /// The referral code itself.
    Loaded,
}

/// Returns what the referral-code widget shows: the code once the user's
/// canister is known, a loading placeholder until then.
pub fn code_view(user_canister: Option<&CanisterId>) -> (v: CodeView)
    ensures
        v == (if user_canister is Some {
            CodeView::Loaded
        } else {
            CodeView::Loading
        }),
{
    match user_canister {
        Some(_) => CodeView::Loaded,
        None => CodeView::Loading,
    }
}

} // verus!
