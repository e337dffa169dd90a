//! Types and logic of the accessibility collaborators: the foreground
//! application snapshot, the paste/typing entry points and the
//! permission report.
//!
//! Running a script to read the foreground application, driving the
//! clipboard and probing the OS permissions are I/O outside this
//! crate; what comes back is parsed and shaped here.

use vstd::prelude::*;

use crate::strutil::index_of_char;
use crate::strutil::substring;

verus! {

/// Information about the frontmost (active) application.
pub struct FrontmostAppInfo {
    /// Display name of the application.
    pub name: String,
    /// Bundle identifier of the application, possibly empty.
    pub bundle_id: String,
}

impl Clone for FrontmostAppInfo {
    fn clone(&self) -> (r: Self)
        ensures
            r == *self,
    {
        FrontmostAppInfo { name: self.name.clone(), bundle_id: self.bundle_id.clone() }
    }
}

/// Parse the script output that describes the foreground application.
///
/// The output has the shape `name|bundle-identifier`; the split is at
/// the first `|`.  Output without a `|` is taken whole as the name,
/// with an empty bundle identifier.
pub fn parse_frontmost_output(s: &str) -> (r: FrontmostAppInfo)
    ensures
        match index_of_char_spec(s@) {
            Some(i) => r.name@ == s@.subrange(0, i) && r.bundle_id@ == s@.subrange(
                i + 1,
                s@.len() as int,
            ),
            None => r.name@ == s@ && r.bundle_id@.len() == 0,
        },
{
    let n = s.unicode_len();
    match index_of_char(s, '|') {
        Some(i) => {
            let name = substring(s, 0, i);
            let bundle_id = substring(s, i + 1, n);
            proof {
                lemma_index_of_char_spec(s@, i as int);
            }
            FrontmostAppInfo { name, bundle_id }
        },
        None => {
            proof {
                lemma_index_of_char_none(s@);
            }
            FrontmostAppInfo { name: substring(s, 0, n), bundle_id: String::new() }
        },
    }
}

/// The first index of `|` in `s`, if any.
pub open spec fn index_of_char_spec(s: Seq<char>) -> Option<int> {
    if exists|i: int| 0 <= i < s.len() && s[i] == '|' {
        Some(choose|i: int| (0 <= i < s.len() && s[i] == '|') && forall|j: int|
            0 <= j < i ==> s[j] != '|')
    } else {
        None
    }
}

proof fn lemma_index_of_char_spec(s: Seq<char>, i: int)
    requires
        0 <= i < s.len(),
        s[i] == '|',
        forall|j: int| 0 <= j < i ==> s[j] != '|',
    ensures
        index_of_char_spec(s) == Some(i),
{
    assert(exists|k: int| 0 <= k < s.len() && s[k] == '|');
    let w = choose|k: int| (0 <= k < s.len() && s[k] == '|') && forall|j: int|
        0 <= j < k ==> s[j] != '|';
    assert((0 <= i < s.len() && s[i] == '|') && forall|j: int| 0 <= j < i ==> s[j] != '|');
    if w < i {
        assert(s[w] != '|');
    } else if i < w {
        assert(s[i] != '|');
    }
}

proof fn lemma_index_of_char_none(s: Seq<char>)
    requires
        forall|j: int| 0 <= j < s.len() ==> s[j] != '|',
    ensures
        index_of_char_spec(s) is None,
{
}

/// Type text character by character instead of pasting.
///
/// This path is not implemented; the clipboard-based paste outside
/// this crate is used instead, so the call always reports that.
pub fn type_text(text: &str) -> (r: Result<(), String>)
    ensures
        r is Err,
        r->Err_0@ == "Not implemented - use paste_text instead"@,
{
    let _ = text;
    Err("Not implemented - use paste_text instead".to_owned())
}

/// The permission report the settings screen shows.
pub struct PermissionStatus {
    /// Whether a microphone input device is available.
    pub microphone: bool,
    /// Whether the accessibility permission is granted.
    pub accessibility: bool,
}

} // verus!
