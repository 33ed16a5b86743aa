//! The ignore filter: which paths under the install root are left out of
//! synchronization.

use vstd::prelude::*;

use crate::text::{
    normalize_separators, owned, replace_backslashes, starts_with, strip_prefix,
    strip_suffix,
};

verus! {

/// The root directory with separators normalized and one trailing `/` removed.
pub open spec fn root_dir(root: Seq<char>) -> Seq<char> {
    let r = normalize_separators(root);
    if r.len() > 0 && r.last() == '/' {
        r.drop_last()
    } else {
        r
    }
}

/// The path relative to the root, with `/` separators, or `None` where the
/// path does not lie under the root.
pub open spec fn relative_to(path: Seq<char>, root: Seq<char>) -> Option<Seq<char>> {
    let p = normalize_separators(path);
    let r = root_dir(root);
    if p == r {
        Some(Seq::<char>::empty())
    } else if r.push('/').is_prefix_of(p) {
        Some(p.skip(r.len() as int + 1))
    } else {
        None
    }
}

/// A relative path that names an entry directly inside the root.
pub open spec fn top_level(rel: Seq<char>) -> bool {
    rel.len() > 0 && !rel.contains('/')
}

/// The patterns of an ignore set, as character sequences.
pub open spec fn patterns_view(patterns: Seq<String>) -> Seq<Seq<char>> {
    patterns.map_values(|s: String| s@)
}

/// Some pattern is a literal prefix of the relative path.
pub open spec fn prefix_match(rel: Seq<char>, patterns: Seq<Seq<char>>) -> bool {
    exists|i: int| 0 <= i < patterns.len() && (#[trigger] patterns[i]).is_prefix_of(rel)
}

/// A relative path is ignored when it is a top-level name equal to a pattern,
/// or when some pattern is a prefix of it.
pub open spec fn ignored_rel(rel: Seq<char>, patterns: Seq<Seq<char>>) -> bool {
    (top_level(rel) && patterns.contains(rel)) || prefix_match(rel, patterns)
}

/// Whether `path` is excluded from synchronization under `root`; a path outside
/// the root is never ignored.
pub open spec fn path_ignored(path: Seq<char>, root: Seq<char>, patterns: Seq<Seq<char>>) -> bool {
    match relative_to(path, root) {
        Some(rel) => ignored_rel(rel, patterns),
        None => false,
    }
}

/// The paths that synchronization leaves alone: logs, caches, screenshots,
/// per-user settings and installer artifacts.
pub open spec fn default_patterns() -> Seq<Seq<char>> {
    seq![
        "$Patch"@,
        "Binaries/cookies.dat"@,
        "S1Game/GuildFlagUpload"@,
        "S1Game/GuildLogoUpload"@,
        "S1Game/ImageCache"@,
        "S1Game/Logs"@,
        "S1Game/Screenshots"@,
        "S1Game/Config/S1Engine.ini"@,
        "S1Game/Config/S1Game.ini"@,
        "S1Game/Config/S1Input.ini"@,
        "S1Game/Config/S1Lightmass.ini"@,
        "S1Game/Config/S1Option.ini"@,
        "S1Game/Config/S1SystemSettings.ini"@,
        "S1Game/Config/S1TBASettings.ini"@,
        "S1Game/Config/S1UI.ini"@,
        "Launcher.exe"@,
        "local.db"@,
        "version.ini"@,
        "unins000.dat"@,
        "unins000.exe"@,
    ]
}

/// The ignore set of the engine, in the order of [`default_patterns`].
pub fn default_ignore_patterns() -> (r: Vec<String>)
    ensures
        patterns_view(r@) == default_patterns(),
{
    let mut r: Vec<String> = Vec::new();
    r.push(String::from_str("$Patch"));
    r.push(String::from_str("Binaries/cookies.dat"));
    r.push(String::from_str("S1Game/GuildFlagUpload"));
    r.push(String::from_str("S1Game/GuildLogoUpload"));
    r.push(String::from_str("S1Game/ImageCache"));
    r.push(String::from_str("S1Game/Logs"));
    r.push(String::from_str("S1Game/Screenshots"));
    r.push(String::from_str("S1Game/Config/S1Engine.ini"));
    r.push(String::from_str("S1Game/Config/S1Game.ini"));
    r.push(String::from_str("S1Game/Config/S1Input.ini"));
    r.push(String::from_str("S1Game/Config/S1Lightmass.ini"));
    r.push(String::from_str("S1Game/Config/S1Option.ini"));
    r.push(String::from_str("S1Game/Config/S1SystemSettings.ini"));
    r.push(String::from_str("S1Game/Config/S1TBASettings.ini"));
    r.push(String::from_str("S1Game/Config/S1UI.ini"));
    r.push(String::from_str("Launcher.exe"));
    r.push(String::from_str("local.db"));
    r.push(String::from_str("version.ini"));
    r.push(String::from_str("unins000.dat"));
    r.push(String::from_str("unins000.exe"));
    assert(patterns_view(r@) =~= default_patterns());
    r
}

/// The path of `path` relative to `root`, with separators written as `/`.
pub fn relative_path(path: &str, root: &str) -> (r: Option<String>)
    ensures
        r matches Some(s) ==> relative_to(path@, root@) == Some(s@),
        r is None ==> relative_to(path@, root@) is None,
{
    let p = replace_backslashes(path);
    let r0 = replace_backslashes(root);
    let r: &str = match strip_suffix(r0.as_str(), "/") {
        Some(x) => x,
        None => r0.as_str(),
    };
    proof {
        reveal_strlit("/");
        let n = normalize_separators(root@);
        if n.len() > 0 && n.last() == '/' {
            assert(seq!['/'].is_suffix_of(n));
        } else if n.len() > 0 {
            assert(!seq!['/'].is_suffix_of(n)) by {
                if seq!['/'].is_suffix_of(n) {
                    assert(n.subrange(n.len() - 1, n.len() as int)[0] == n.last());
                }
            }
        }
        assert(r@ =~= root_dir(root@));
    }
    let ghost rd = root_dir(root@);
    let ghost pv = normalize_separators(path@);
    match strip_prefix(p.as_str(), r) {
        None => {
            proof {
                if rd.push('/').is_prefix_of(pv) {
                    assert(rd =~= pv.subrange(0, rd.len() as int));
                }
            }
            None
        },
        Some(rest) => {
            if rest.is_empty() {
                assert(pv =~= rd);
                Some(String::new())
            } else {
                let ghost restv = rest@;
                match strip_prefix(rest, "/") {
                    Some(rel) => {
                        proof {
                            reveal_strlit("/");
                            assert("/"@ =~= seq!['/']);
                            assert(restv.subrange(0, 1) =~= seq!['/']);
                            assert(restv[0] == restv.subrange(0, 1)[0]);
                            assert(pv[rd.len() as int] == restv[0]);
                            assert(rd.push('/') =~= pv.subrange(0, rd.len() as int + 1));
                            assert(rel@ =~= pv.skip(rd.len() as int + 1));
                            assert(pv != rd);
                        }
                        Some(owned(rel))
                    },
                    None => {
                        proof {
                            reveal_strlit("/");
                            assert(pv != rd) by {
                                if pv == rd {
                                    assert(restv.len() == 0);
                                }
                            }
                            if rd.push('/').is_prefix_of(pv) {
                                assert(rd.push('/')[rd.len() as int] == '/');
                                assert(pv.subrange(0, rd.len() as int + 1)[rd.len() as int]
                                    == pv[rd.len() as int]);
                                assert(pv[rd.len() as int] == '/');
                                assert("/"@ =~= seq!['/']);
                                assert(restv.subrange(0, 1) =~= seq!['/']);
                                assert(restv[0] == pv[rd.len() as int]);
                                assert(seq!['/'].is_prefix_of(restv));
                            }
                        }
                        None
                    },
                }
            }
        },
    }
}

/// Whether `path` is excluded from synchronization: its path relative to
/// `game_path` is a top-level name in `ignored_paths`, or starts with one of them.
pub fn is_ignored(path: &str, game_path: &str, ignored_paths: &Vec<String>) -> (r: bool)
    ensures
        r == path_ignored(path@, game_path@, patterns_view(ignored_paths@)),
{
    let rel = match relative_path(path, game_path) {
        Some(s) => s,
        None => return false,
    };
    let ghost pats = patterns_view(ignored_paths@);
    assert(relative_to(path@, game_path@) == Some(rel@));
    let mut i: usize = 0;
    while i < ignored_paths.len()
        invariant
            0 <= i <= ignored_paths@.len(),
            pats == patterns_view(ignored_paths@),
            relative_to(path@, game_path@) == Some(rel@),
            forall|j: int| 0 <= j < i ==> !(#[trigger] pats[j]).is_prefix_of(rel@),
        decreases ignored_paths@.len() - i,
    {
        if starts_with(rel.as_str(), ignored_paths[i].as_str()) {
            assert(pats[i as int] == ignored_paths@[i as int]@);
            assert(pats[i as int].is_prefix_of(rel@));
            assert(prefix_match(rel@, pats));
            assert(ignored_rel(rel@, pats));
            assert(path_ignored(path@, game_path@, pats));
            return true;
        }
        i = i + 1;
    }
    proof {
        assert(!prefix_match(rel@, pats));
        if pats.contains(rel@) {
            let j = choose|j: int| 0 <= j < pats.len() && pats[j] == rel@;
            assert(rel@.is_prefix_of(rel@));
            assert(pats[j].is_prefix_of(rel@));
        }
    }
    false
}

} // verus!
