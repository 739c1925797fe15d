//! The permissions that the player asks the streaming account for.

use vstd::prelude::*;
use vstd::string::StringExecFns;

verus! {

/// The scopes, in the order in which they are requested.
pub open spec fn scope_names() -> Seq<Seq<char>> {
    seq![
        "user-read-currently-playing"@,
        "user-read-playback-state"@,
        "user-read-playback-position"@,
        "user-modify-playback-state"@,
        "user-library-read"@,
    ]
}

/// The scopes that every token of the player carries.
pub fn get_scopes() -> (scopes: Vec<String>)
    ensures
        scopes.deep_view() == scope_names(),
        scopes.deep_view().no_duplicates(),
{
    proof {
        lemma_scopes_differ();
    }
    let mut scopes: Vec<String> = Vec::new();
    scopes.push(String::from_str("user-read-currently-playing"));
    scopes.push(String::from_str("user-read-playback-state"));
    scopes.push(String::from_str("user-read-playback-position"));
    scopes.push(String::from_str("user-modify-playback-state"));
    scopes.push(String::from_str("user-library-read"));
    assert(scopes.deep_view() =~= scope_names());
    scopes
}

/// No scope is asked for twice.
pub proof fn lemma_scopes_differ()
    ensures
        scope_names().no_duplicates(),
{
    reveal_strlit("user-read-currently-playing");
    reveal_strlit("user-read-playback-state");
    reveal_strlit("user-read-playback-position");
    reveal_strlit("user-modify-playback-state");
    reveal_strlit("user-library-read");
    let names = scope_names();
    assert(names[0].len() == 27 && names[1].len() == 24 && names[2].len() == 27 && names[3].len()
        == 26 && names[4].len() == 17);
    assert(names[0][10] != names[2][10]);
    assert forall|i: int, j: int| 0 <= i < names.len() && 0 <= j < names.len() && i != j implies names[i]
        != names[j] by {
        if names[i].len() == names[j].len() {
            assert(i + j == 2);
        }
    }
}

} // verus!
