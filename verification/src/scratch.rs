//! The name of the scratch file that carries the text to the editor and back.

use vstd::prelude::*;
use vstd::string::StringExecFns;

verus! {

/// `c` is a digit or one of the letters `a` to `f`.
pub open spec fn is_lower_hex(c: char) -> bool {
    ('0' <= c && c <= '9') || ('a' <= c && c <= 'f')
}

/// `id` has the hyphenated form of a unique identifier: 36 characters, a
/// hyphen at the positions 8, 13, 18 and 23, lower-case hexadecimal digits
/// everywhere else.
pub open spec fn is_hyphenated_id(id: Seq<char>) -> bool {
    &&& id.len() == 36
    &&& forall|i: int|
        0 <= i < 36 ==> if i == 8 || i == 13 || i == 18 || i == 23 {
            #[trigger] id[i] == '-'
        } else {
            is_lower_hex(id[i])
        }
}

/// The scratch file's name for the identifier `id`.
pub open spec fn scratch_file_name_spec(id: Seq<char>) -> Seq<char> {
    "q-developer-prompt-"@ + id + ".md"@
}

/// Calls `uuid::Uuid::new_v4` and writes the identifier out with its
/// `Display`. Which identifier comes back is left open; only its hyphenated
/// lower-case form is claimed.
#[verifier::external_body]
pub(crate) fn new_unique_id() -> (r: String)
    ensures
        is_hyphenated_id(r@),
{
    uuid::Uuid::new_v4().to_string()
}

/// The scratch file's name for a given identifier: the fixed prefix, the
/// identifier, and the extension of a Markdown file.
pub fn scratch_file_name(id: &str) -> (r: String)
    ensures
        r@ == scratch_file_name_spec(id@),
{
    let mut name = String::from_str("q-developer-prompt-");
    name.append(id);
    name.append(".md");
    name
}

/// A scratch file name that no other session uses: the name for a freshly
/// drawn unique identifier.
pub fn fresh_scratch_file_name() -> (r: String)
    ensures
        exists|id: Seq<char>| is_hyphenated_id(id) && r@ == scratch_file_name_spec(id),
{
    let id = new_unique_id();
    scratch_file_name(id.as_str())
}

} // verus!
