//! The invoking user and the static authorization checks made against it.

use vstd::prelude::*;

use crate::text::same_text;

verus! {

/// Why an invoker was refused by the allow-list.
#[derive(Debug, Clone, Copy, PartialEq, Eq, Structural)]
pub enum AuthError {
    /// The invoking user is not the user that the entry names.
    NotAuthorizedUser,
    /// The invoking user is not a member of the required group.
    NotGroupMember,
    /// The required group appears more than once in the user's group list.
    DuplicateGroup,
}

/// Number of times `g` occurs in `groups`.
pub open spec fn group_count(groups: Seq<Seq<char>>, g: Seq<char>) -> nat
    decreases groups.len(),
{
    if groups.len() == 0 {
        0
    } else {
        group_count(groups.drop_last(), g) + if groups.last() == g {
            1nat
        } else {
            0nat
        }
    }
}

/// Outcome of the group check: exactly one listing authorizes.
pub open spec fn group_check(groups: Seq<Seq<char>>, g: Seq<char>) -> Result<(), AuthError> {
    let n = group_count(groups, g);
    if n == 1 {
        Ok(())
    } else if n >= 2 {
        Err(AuthError::DuplicateGroup)
    } else {
        Err(AuthError::NotGroupMember)
    }
}

/// Snapshot of the invoking user, as reported by the operating system.
pub struct User {
    /// Login name of the invoking user.
    pub username: String,
    /// Names of the groups that the invoking user belongs to.
    pub groups: Vec<String>,
}

impl User {
    /// The group names as character sequences.
    pub open spec fn group_names(&self) -> Seq<Seq<char>> {
        self.groups@.map_values(|s: String| s@)
    }

    /// Builds the snapshot from the name and group names that the system reported.
    pub fn new(username: String, groups: Vec<String>) -> (r: Self)
        ensures
            r.username@ == username@,
            r.group_names() == groups@.map_values(|s: String| s@),
    {
        User { username, groups }
    }

    /// Succeeds iff the invoking user is `username`.
    pub fn verify_user(&self, username: &str) -> (r: Result<(), AuthError>)
        ensures
            r is Ok <==> self.username@ == username@,
            r is Err ==> r == Err::<(), AuthError>(AuthError::NotAuthorizedUser),
    {
        if same_text(self.username.as_str(), username) {
            Ok(())
        } else {
            Err(AuthError::NotAuthorizedUser)
        }
    }

    /// Counts how often `arggroup` is listed among the user's groups: exactly
    /// once authorizes, twice or more is refused as a duplicated listing.
    pub fn verify_group(&self, arggroup: &str) -> (r: Result<(), AuthError>)
        ensures
            r == group_check(self.group_names(), arggroup@),
    {
        let mut count: usize = 0;
        let mut i: usize = 0;
        while i < self.groups.len()
            invariant
                i <= self.groups.len(),
                count == group_count(self.group_names().take(i as int), arggroup@),
                count <= i,
            decreases self.groups.len() - i,
        {
            let ghost names = self.group_names();
            assert(names.take(i as int + 1).drop_last() =~= names.take(i as int));
            if same_text(self.groups[i].as_str(), arggroup) {
                count = count + 1;
            }
            i = i + 1;
        }
        assert(self.group_names().take(i as int) =~= self.group_names());
        if count == 1 {
            Ok(())
        } else if count >= 2 {
            Err(AuthError::DuplicateGroup)
        } else {
            Err(AuthError::NotGroupMember)
        }
    }
}

} // verus!
