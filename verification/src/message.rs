//! The user-visible texts of the two workflows.
//!
//! Every message or prompt the workflows emit is one of the fixed phrases
//! below, with the item-kind label (and, for the not-found error, an item
//! name) spliced in. Each phrase has a spec-level text and an executable
//! builder proved to produce exactly that text.

use vstd::prelude::*;
use vstd::string::StringExecFns;

verus! {

pub open spec fn no_items_to_show_text(kind: Seq<char>) -> Seq<char> {
    "There are no "@ + kind + " to show"@
}

pub open spec fn no_items_to_delete_text(kind: Seq<char>) -> Seq<char> {
    "There are no "@ + kind + "s to delete"@
}

pub open spec fn none_selected_to_show_text(kind: Seq<char>) -> Seq<char> {
    "No "@ + kind + " selected to show"@
}

pub open spec fn none_selected_to_delete_text(kind: Seq<char>) -> Seq<char> {
    "No "@ + kind + "s selected to delete"@
}

pub open spec fn delete_all_prompt_text(kind: Seq<char>) -> Seq<char> {
    "Are you sure you want to delete all "@ + kind + "?"@
}

pub open spec fn proceed_prompt_text() -> Seq<char> {
    "Are you sure you want to proceed?"@
}

pub open spec fn select_to_show_prompt_text(kind: Seq<char>) -> Seq<char> {
    "Select one or more "@ + kind + " that you want to show"@
}

pub open spec fn select_to_delete_prompt_text(kind: Seq<char>) -> Seq<char> {
    "Select one or more "@ + kind + "s that you want to delete"@
}

pub open spec fn not_found_text(kind: Seq<char>, name: Seq<char>) -> Seq<char> {
    "The "@ + kind + " "@ + name + " was not found"@
}

/// Splices `mid` between two fixed pieces of text.
fn enclose(prefix: &str, mid: &String, suffix: &str) -> (r: String)
    ensures
        r@ == prefix@ + mid@ + suffix@,
{
    let mut s = String::from_str(prefix);
    s.append(mid.as_str());
    s.append(suffix);
    s
}

pub fn no_items_to_show_message(kind: &String) -> (r: String)
    ensures
        r@ == no_items_to_show_text(kind@),
{
    enclose("There are no ", kind, " to show")
}

pub fn no_items_to_delete_message(kind: &String) -> (r: String)
    ensures
        r@ == no_items_to_delete_text(kind@),
{
    enclose("There are no ", kind, "s to delete")
}

pub fn none_selected_to_show_message(kind: &String) -> (r: String)
    ensures
        r@ == none_selected_to_show_text(kind@),
{
    enclose("No ", kind, " selected to show")
}

pub fn none_selected_to_delete_message(kind: &String) -> (r: String)
    ensures
        r@ == none_selected_to_delete_text(kind@),
{
    enclose("No ", kind, "s selected to delete")
}

pub fn delete_all_prompt(kind: &String) -> (r: String)
    ensures
        r@ == delete_all_prompt_text(kind@),
{
    enclose("Are you sure you want to delete all ", kind, "?")
}

pub fn proceed_prompt() -> (r: String)
    ensures
        r@ == proceed_prompt_text(),
{
    String::from_str("Are you sure you want to proceed?")
}

pub fn select_to_show_prompt(kind: &String) -> (r: String)
    ensures
        r@ == select_to_show_prompt_text(kind@),
{
    enclose("Select one or more ", kind, " that you want to show")
}

pub fn select_to_delete_prompt(kind: &String) -> (r: String)
    ensures
        r@ == select_to_delete_prompt_text(kind@),
{
    enclose("Select one or more ", kind, "s that you want to delete")
}

pub fn not_found_message(kind: &String, name: &String) -> (r: String)
    ensures
        r@ == not_found_text(kind@, name@),
{
    let mut s = String::from_str("The ");
    s.append(kind.as_str());
    s.append(" ");
    s.append(name.as_str());
    s.append(" was not found");
    s
}

} // verus!
