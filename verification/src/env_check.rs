//! The server's start-up check that the environment gives every setting it
//! needs.
use vstd::prelude::*;

verus! {

/// The environment variables that the server needs, in the order they are
/// checked: the bind address and port, the Google OAuth key and client id,
/// and the database URL.
pub open spec fn required_env_names() -> Seq<Seq<char>> {
    seq!["BIND_IP"@, "BIND_PORT"@, "GOOGLE_OAUTH_KEY"@, "GOOGLE_OAUTH_ID"@, "DATABASE_URL"@]
}

/// The texts of a list of strings.
pub open spec fn views_of(v: Seq<String>) -> Seq<Seq<char>> {
    v.map_values(|s: String| s@)
}

/// The names of the environment variables that the server needs.
pub fn required_env_fields() -> (r: Vec<String>)
    ensures
        views_of(r@) == required_env_names(),
{
    let mut r: Vec<String> = Vec::new();
    r.push("BIND_IP".to_string());
    r.push("BIND_PORT".to_string());
    r.push("GOOGLE_OAUTH_KEY".to_string());
    r.push("GOOGLE_OAUTH_ID".to_string());
    r.push("DATABASE_URL".to_string());
    assert(views_of(r@) =~= required_env_names());
    r
}

/// The names, in order, of the variables of `env` (name and value, if set)
/// that are not set.
pub open spec fn missing_names(env: Seq<(String, Option<String>)>) -> Seq<Seq<char>>
    decreases env.len(),
{
    if env.len() == 0 {
        seq![]
    } else {
        let rest = missing_names(env.drop_last());
        if env.last().1 is None { rest.push(env.last().0@) } else { rest }
    }
}

/// The names of the variables that are not set, in the order given.  The
/// server does not start unless this list is empty.
pub fn missing_env_vars(env: &Vec<(String, Option<String>)>) -> (r: Vec<String>)
    ensures
        views_of(r@) == missing_names(env@),
{
    let mut r: Vec<String> = Vec::new();
    let n = env.len();
    for i in 0..n
        invariant
            n == env@.len(),
            views_of(r@) == missing_names(env@.take(i as int)),
    {
        let ghost before = r@;
        assert(env@.take(i + 1).drop_last() =~= env@.take(i as int));
        if env[i].1.is_none() {
            r.push(env[i].0.clone());
            assert(views_of(r@) =~= views_of(before).push(env@[i as int].0@));
        }
    }
    assert(env@.take(n as int) =~= env@);
    r
}

/// No variable is missing exactly when every variable is set.
pub proof fn nothing_missing_iff_all_set(env: Seq<(String, Option<String>)>)
    ensures
        (missing_names(env).len() == 0) == (forall|i: int| 0 <= i < env.len() ==> (#[trigger] env[i]).1 is Some),
    decreases env.len(),
{
    if env.len() > 0 {
        nothing_missing_iff_all_set(env.drop_last());
        if missing_names(env).len() == 0 {
            assert forall|i: int| 0 <= i < env.len() implies (#[trigger] env[i]).1 is Some by {
                if i < env.len() - 1 {
                    assert(env.drop_last()[i] == env[i]);
                }
            }
        } else if forall|i: int| 0 <= i < env.len() ==> (#[trigger] env[i]).1 is Some {
            assert forall|i: int| 0 <= i < env.drop_last().len() implies (#[trigger] env.drop_last()[i]).1 is Some by {
                assert(env.drop_last()[i] == env[i]);
            }
            assert(env[env.len() - 1].1 is Some);
        }
    }
}

/// A name is reported missing exactly when some variable with that name
/// is not set.
pub proof fn missing_names_law(env: Seq<(String, Option<String>)>, name: Seq<char>)
    ensures
        missing_names(env).contains(name) == exists|i: int| 0 <= i < env.len() && (#[trigger] env[i]).1 is None
            && env[i].0@ == name,
    decreases env.len(),
{
    if env.len() > 0 {
        let init = env.drop_last();
        missing_names_law(init, name);
        let last = env.last();
        if missing_names(env).contains(name) {
            if missing_names(init).contains(name) {
                let i = choose|i: int| 0 <= i < init.len() && (#[trigger] init[i]).1 is None && init[i].0@ == name;
                assert(env[i] == init[i]);
            } else {
                assert(last.1 is None && last.0@ == name);
                assert(env[env.len() - 1] == last);
            }
        }
        if exists|i: int| 0 <= i < env.len() && (#[trigger] env[i]).1 is None && env[i].0@ == name {
            let i = choose|i: int| 0 <= i < env.len() && (#[trigger] env[i]).1 is None && env[i].0@ == name;
            if i < env.len() - 1 {
                assert(init[i] == env[i]);
                assert(missing_names(init).contains(name));
                if last.1 is None {
                    assert(missing_names(env) == missing_names(init).push(last.0@));
                    assert(missing_names(env)[missing_names(init).index_of(name)] == name);
                }
            } else {
                assert(missing_names(env) == missing_names(init).push(last.0@));
                assert(missing_names(env)[missing_names(init).len() as int] == name);
            }
        }
    }
}

} // verus!
