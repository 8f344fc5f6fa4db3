//! The static authorization of the invoker against its allow-list entry.

use vstd::prelude::*;

use crate::config::{UserConf, UserConfView};
use crate::user::{group_check, group_count, AuthError, User};

verus! {

/// The outcome of authorizing a user named `username`, member of `groups`,
/// against `entry`: the user check comes first, then the group check.
pub open spec fn authorization(username: Seq<char>, groups: Seq<Seq<char>>, entry: UserConfView) -> Result<
    (),
    AuthError,
> {
    if username != entry.username {
        Err(AuthError::NotAuthorizedUser)
    } else {
        group_check(groups, entry.group)
    }
}

/// Authorization succeeds iff the user is the entry's user and lists the
/// entry's group exactly once; a group listed twice or more is refused.
pub proof fn lemma_authorization_exact(username: Seq<char>, groups: Seq<Seq<char>>, entry: UserConfView)
    ensures
        authorization(username, groups, entry) is Ok <==> (username == entry.username
            && group_count(groups, entry.group) == 1),
        username == entry.username && group_count(groups, entry.group) >= 2 ==> authorization(
            username,
            groups,
            entry,
        ) == Err::<(), AuthError>(AuthError::DuplicateGroup),
{
}

/// Checks that the invoking user may use the program at all: it must be the
/// user of its allow-list entry and a member of the entry's group.
pub fn authentification(userconf: &UserConf, userdata: &User) -> (r: Result<(), AuthError>)
    ensures
        r == authorization(userdata.username@, userdata.group_names(), userconf@),
{
    userdata.verify_user(userconf.username.as_str())?;
    userdata.verify_group(userconf.group.as_str())?;
    Ok(())
}

} // verus!
