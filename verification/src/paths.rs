use vstd::prelude::*;
use crate::runtime::{push_text, texts};
use crate::text::owned;

verus! {

broadcast use vstd::string::group_string_axioms;

/// The web profile of the harness, as path components: the directory named
/// by `DSH_PROFILE_DIR`, else `.dsh/profiles/web` under the user's home
/// (`USERPROFILE`, else `HOME`); none when neither is known.
pub open spec fn profile_dir_spec(
    explicit: Option<Seq<char>>,
    user_profile: Option<Seq<char>>,
    home: Option<Seq<char>>,
) -> Option<Seq<Seq<char>>> {
    match explicit {
        Some(p) => Some(seq![p]),
        None => match user_profile {
            Some(h) => Some(seq![h, ".dsh"@, "profiles"@, "web"@]),
            None => match home {
                Some(h) => Some(seq![h, ".dsh"@, "profiles"@, "web"@]),
                None => None,
            },
        },
    }
}

/// The web profile of the harness, as path components (see
/// `profile_dir_spec`).
pub fn profile_dir_parts(explicit: Option<&str>, user_profile: Option<&str>, home: Option<&str>) -> (r:
    Option<Vec<String>>)
    ensures
        match r {
            Some(v) => profile_dir_spec(
                match explicit {
                    Some(x) => Some(x@),
                    None => None,
                },
                match user_profile {
                    Some(x) => Some(x@),
                    None => None,
                },
                match home {
                    Some(x) => Some(x@),
                    None => None,
                },
            ) == Some(texts(v@)),
            None => explicit is None && user_profile is None && home is None,
        },
{
    if let Some(p) = explicit {
        let mut v: Vec<String> = Vec::new();
        push_text(&mut v, p);
        assert(texts(v@) =~= seq![p@]);
        return Some(v);
    }
    let base = match user_profile {
        Some(h) => h,
        None => match home {
            Some(h) => h,
            None => return None,
        },
    };
    let mut v: Vec<String> = Vec::new();
    push_text(&mut v, base);
    push_text(&mut v, ".dsh");
    push_text(&mut v, "profiles");
    push_text(&mut v, "web");
    assert(texts(v@) =~= seq![base@, ".dsh"@, "profiles"@, "web"@]);
    Some(v)
}

/// The directory the runtime works in: the one named by
/// `DSH_DESKTOP_WORKSPACE` when it is a directory, else the current
/// directory, else the application's data directory.
pub fn choose_workspace(
    configured: Option<String>,
    configured_is_dir: bool,
    current_dir: Option<String>,
    data_dir: String,
) -> (r: String)
    ensures
        r@ == (match configured {
            Some(p) if configured_is_dir => p@,
            _ => match current_dir {
                Some(c) => c@,
                None => data_dir@,
            },
        }),
{
    match configured {
        Some(p) => if configured_is_dir {
            return p;
        },
        None => {},
    }
    match current_dir {
        Some(c) => c,
        None => data_dir,
    }
}

} // verus!
