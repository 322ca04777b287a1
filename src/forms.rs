use vstd::prelude::*;
use crate::text::{chars_of, contains, str_contains};

verus! {

/// Whether a character has Unicode's White_Space property.
pub uninterp spec fn white_space(c: char) -> bool;

/// Relies on `char::is_whitespace`: whether the character has Unicode's White_Space
/// property, which depends on the character alone.
#[verifier::external_body]
fn is_whitespace(c: char) -> (r: bool)
    ensures
        r == white_space(c),
{
    c.is_whitespace()
}

/// A form field is filled when something other than white space is left after trimming.
pub open spec fn is_filled(s: Seq<char>) -> bool {
    exists|i: int| 0 <= i < s.len() && !white_space(#[trigger] s[i])
}

/// Whether a form field holds something other than white space.
pub fn field_is_filled(value: &str) -> (r: bool)
    ensures
        r == is_filled(value@),
{
    let cs = chars_of(value);
    let mut i: usize = 0;
    while i < cs.len()
        invariant
            cs@ == value@,
            i <= cs.len(),
            forall|k: int| 0 <= k < i ==> white_space(#[trigger] cs@[k]),
        decreases cs.len() - i,
    {
        if !is_whitespace(cs[i]) {
            return true;
        }
        i = i + 1;
    }
    false
}

/// Which fields of a profile form are acceptable.
#[derive(Clone, Copy, Debug, PartialEq, Eq, Structural)]
pub struct ProfileChecks {
    pub name: bool,
    pub email: bool,
    pub old_password: bool,
    pub new_password: bool,
    pub confirm_password: bool,
}

impl ProfileChecks {
    /// Whether every field is acceptable.
    pub fn all_valid(&self) -> (r: bool)
        ensures
            r == (self.name && self.email && self.old_password && self.new_password
                && self.confirm_password),
    {
        self.name && self.email && self.old_password && self.new_password && self.confirm_password
    }
}

/// Checks a profile form: a name and the old password are given, the email holds an
/// `@` and a `.`, the new password has at least eight bytes, and the confirmation
/// repeats it.
pub fn check_profile(
    name: &str,
    email: &str,
    old_password: &str,
    new_password: &str,
    confirm_password: &str,
) -> (r: ProfileChecks)
    ensures
        r.name == (name@.len() > 0),
        r.email == (contains(email@, "@"@) && contains(email@, "."@)),
        r.old_password == (old_password@.len() > 0),
        r.new_password == (new_password.len() >= 8),
        r.confirm_password == (confirm_password@ == new_password@),
{
    let confirm = String::from_str(confirm_password);
    let new = String::from_str(new_password);
    ProfileChecks {
        name: !name.is_empty(),
        email: str_contains(email, "@") && str_contains(email, "."),
        old_password: !old_password.is_empty(),
        new_password: new_password.len() >= 8,
        confirm_password: confirm == new,
    }
}

} // verus!
