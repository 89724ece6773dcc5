//! The texts shown for a commit in the interactive selector.
use vstd::prelude::*;

verus! {

/// The abbreviated id: the first seven characters of `id`, or all of a shorter one.
pub open spec fn short_of(id: Seq<char>) -> Seq<char> {
    if id.len() < 7 {
        id
    } else {
        id.subrange(0, 7)
    }
}

/// The abbreviated form of a commit id.
pub fn short_id(id: &str) -> (r: String)
    ensures
        r@ == short_of(id@),
{
    let n = id.unicode_len();
    if n < 7 {
        String::from_str(id)
    } else {
        String::from_str(id.substring_char(0, 7))
    }
}

/// The text matched against the query: the full id and the message.
pub fn text(id: &str, message: &str) -> (r: String)
    ensures
        r@ == id@ + " "@ + message@,
{
    let mut r = String::from_str(id);
    r.append(" ");
    r.append(message);
    r
}

/// The line shown in the list: the abbreviated id and the summary.
pub fn display(id: &str, summary: &str) -> (r: String)
    ensures
        r@ == short_of(id@) + " "@ + summary@,
{
    let mut r = short_id(id);
    r.append(" ");
    r.append(summary);
    r
}

/// The line printed once a commit is chosen.
pub fn output(id: &str, summary: &str) -> (r: String)
    ensures
        r@ == short_of(id@) + " "@ + summary@ + " has been selected."@,
{
    let mut r = display(id, summary);
    r.append(" has been selected.");
    r
}

/// The preview of a commit: its id (as given, which may be coloured), its
/// author, and its message.
pub fn preview(id: &str, author: &str, message: &str) -> (r: String)
    ensures
        r@ == "commit "@ + id@ + "\nAuthor: "@ + author@ + "\n\n"@ + message@,
{
    let mut r = String::from_str("commit ");
    r.append(id);
    r.append("\nAuthor: ");
    r.append(author);
    r.append("\n\n");
    r.append(message);
    r
}

} // verus!
