//! Clipboard and paste decisions: the clipboard snapshot taken before a
//! paste, how many UTF-16 units a paste inserts (what a later replacement
//! backspaces over), and whether the focused element should get a paste.
use vstd::prelude::*;

use crate::text;

verus! {

#[verifier::external_type_specification]
#[verifier::external_body]
pub struct ExClipboard(arboard::Clipboard);

#[verifier::external_type_specification]
#[verifier::external_body]
pub struct ExClipboardError(arboard::Error);

/// Trusted: `arboard::Clipboard::new`. Whether the system clipboard can be
/// opened depends on the desktop session, so nothing is claimed of the
/// result.
#[verifier::external_body]
fn clipboard_open() -> (res: Result<arboard::Clipboard, arboard::Error>) {
    arboard::Clipboard::new()
}

/// Trusted: `arboard::Clipboard::get_text`. The text depends on what the
/// user last copied, so nothing is claimed of the result.
#[verifier::external_body]
fn clipboard_get_text(cb: &mut arboard::Clipboard) -> (res: Result<String, arboard::Error>) {
    cb.get_text()
}

fn read_clipboard() -> Result<String, arboard::Error> {
    match clipboard_open() {
        Ok(mut cb) => clipboard_get_text(&mut cb),
        Err(e) => Err(e),
    }
}

/// The text on the clipboard now, if it can be read, so that it can be put
/// back after pasting.
pub fn snapshot_clipboard() -> Option<String> {
    match read_clipboard() {
        Ok(s) => Some(s),
        Err(_) => None,
    }
}

/// How many UTF-16 code units pasting `text` inserts, the unit editors count
/// backspaces in; zero exactly when there is nothing to paste. The caller
/// performs the paste itself and keeps this count for a later replacement.
pub fn paste_sync(text: &str) -> (units: usize)
    requires
        text@.len() * 2 <= usize::MAX,
    ensures
        units == text::utf16_len(text@),
        (units == 0) == (text@.len() == 0),
        text@.len() <= units <= 2 * text@.len(),
{
    proof {
        text::lemma_utf16_len_bound(text@);
    }
    text::utf16_count(text)
}

/// Whether to send the paste shortcut after putting text on the clipboard:
/// only when the focused element is known to take text. When it does not,
/// or when that cannot be told, the text is left on the clipboard for the
/// user to paste.
pub fn should_paste(editable: Option<bool>) -> (res: bool)
    ensures
        res == (editable == Some(true)),
{
    match editable {
        Some(e) => e,
        None => false,
    }
}

/// Accessibility roles of elements that never take typed text.
pub open spec fn is_non_text_role(role: Seq<char>) -> bool {
    ||| role == "AXButton"@
    ||| role == "AXImage"@
    ||| role == "AXMenuItem"@
    ||| role == "AXMenuBarItem"@
    ||| role == "AXMenu"@
    ||| role == "AXMenuBar"@
    ||| role == "AXCheckBox"@
    ||| role == "AXRadioButton"@
    ||| role == "AXLink"@
    ||| role == "AXStaticText"@
    ||| role == "AXSlider"@
    ||| role == "AXScrollBar"@
}

/// Whether a focused element with accessibility role `role` gets the paste:
/// every role but the clearly non-text ones (buttons, images, menus, check
/// and radio boxes, links, static text, sliders, scroll bars), and also an
/// element that reports no role.
pub fn role_accepts_text(role: Option<&str>) -> (res: bool)
    ensures
        res == (match role {
            Some(r) => !is_non_text_role(r@),
            None => true,
        }),
{
    match role {
        None => true,
        Some(r) => {
            let v = text::chars_of(r);
            !(text::chars_eq_str(&v, "AXButton") || text::chars_eq_str(&v, "AXImage")
                || text::chars_eq_str(&v, "AXMenuItem") || text::chars_eq_str(&v, "AXMenuBarItem")
                || text::chars_eq_str(&v, "AXMenu") || text::chars_eq_str(&v, "AXMenuBar")
                || text::chars_eq_str(&v, "AXCheckBox") || text::chars_eq_str(&v, "AXRadioButton")
                || text::chars_eq_str(&v, "AXLink") || text::chars_eq_str(&v, "AXStaticText")
                || text::chars_eq_str(&v, "AXSlider") || text::chars_eq_str(&v, "AXScrollBar"))
        },
    }
}

/// Exactly twelve roles refuse text: buttons, images, menu items, menu bar
/// items, menus, menu bars, check boxes, radio buttons, links, static text,
/// sliders and scroll bars. Every other role, text fields and text areas
/// among them, takes the paste.
pub proof fn law_only_twelve_roles_refuse_text(role: Seq<char>)
    ensures
        is_non_text_role(role) <==> (role == "AXButton"@ || role == "AXImage"@ || role
            == "AXMenuItem"@ || role == "AXMenuBarItem"@ || role == "AXMenu"@ || role
            == "AXMenuBar"@ || role == "AXCheckBox"@ || role == "AXRadioButton"@ || role
            == "AXLink"@ || role == "AXStaticText"@ || role == "AXSlider"@ || role
            == "AXScrollBar"@),
        !is_non_text_role("AXTextField"@),
        !is_non_text_role("AXTextArea"@),
{
    reveal_strlit("AXButton");
    reveal_strlit("AXImage");
    reveal_strlit("AXMenuItem");
    reveal_strlit("AXMenuBarItem");
    reveal_strlit("AXMenu");
    reveal_strlit("AXMenuBar");
    reveal_strlit("AXCheckBox");
    reveal_strlit("AXRadioButton");
    reveal_strlit("AXLink");
    reveal_strlit("AXStaticText");
    reveal_strlit("AXSlider");
    reveal_strlit("AXScrollBar");
    reveal_strlit("AXTextField");
    reveal_strlit("AXTextArea");
    // Same-length names differ in their third character.
    assert("AXTextField"@[2] != "AXScrollBar"@[2]);
    assert("AXTextArea"@[2] != "AXMenuItem"@[2]);
    assert("AXTextArea"@[2] != "AXCheckBox"@[2]);
}

} // verus!
