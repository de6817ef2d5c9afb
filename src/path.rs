//! Path expansion: `~` to the home directory, relative paths against the
//! session's directory, and the choice between a canonical form and the
//! expanded one.
use vstd::prelude::*;

verus! {

/// `base` with `comp` appended as one more path component; an absolute
/// `comp` replaces `base`.
pub open spec fn join_path(base: Seq<char>, comp: Seq<char>) -> Seq<char> {
    if comp.len() > 0 && comp[0] == '/' {
        comp
    } else if base.len() == 0 {
        comp
    } else if base.last() == '/' {
        base + comp
    } else {
        base + seq!['/'] + comp
    }
}

/// `home` put in place of a leading `~` whose remainder is `rest`, without
/// doubling a separator.
pub open spec fn tilde_path(home: Seq<char>, rest: Seq<char>) -> Seq<char> {
    if home.len() > 0 && home.last() == '/' && rest.len() > 0 && rest[0] == '/' {
        home + rest.drop_first()
    } else {
        home + rest
    }
}

/// The home directory where one was found, else the root.
pub open spec fn home_or_root(home: Option<String>) -> Seq<char> {
    match home {
        Some(h) => h@,
        None => "/"@,
    }
}

/// The path that `raw` denotes in directory `cwd` with home directory
/// `home`, before any canonicalization.
pub open spec fn expanded(raw: Seq<char>, cwd: Seq<char>, home: Seq<char>) -> Seq<char> {
    if raw.len() > 0 && raw[0] == '~' {
        tilde_path(home, raw.drop_first())
    } else if raw.len() > 0 && raw[0] == '/' {
        raw
    } else {
        join_path(cwd, raw)
    }
}

/// The path that a resolution yields: the canonical form where there is
/// one, else the expanded path itself.
pub open spec fn settled(expanded: Seq<char>, canonical: Option<Seq<char>>) -> Seq<char> {
    match canonical {
        Some(c) => c,
        None => expanded,
    }
}

fn starts_with_char(s: &str, c: char) -> (r: bool)
    ensures
        r == (s@.len() > 0 && s@[0] == c),
{
    s.unicode_len() > 0 && s.get_char(0) == c
}

fn ends_with_char(s: &str, c: char) -> (r: bool)
    ensures
        r == (s@.len() > 0 && s@.last() == c),
{
    let n = s.unicode_len();
    n > 0 && s.get_char(n - 1) == c
}

/// Appends `comp` to `base` as a path component.
pub fn join_component(base: &str, comp: &str) -> (r: String)
    ensures
        r@ == join_path(base@, comp@),
{
    if starts_with_char(comp, '/') || base.unicode_len() == 0 {
        comp.to_owned()
    } else if ends_with_char(base, '/') {
        base.to_owned().concat(comp)
    } else {
        proof {
            reveal_strlit("/");
            assert("/"@ =~= seq!['/']);
        }
        base.to_owned().concat("/").concat(comp)
    }
}

fn tilde_join(home: &str, raw: &str) -> (r: String)
    requires
        raw@.len() > 0,
    ensures
        r@ == tilde_path(home@, raw@.drop_first()),
{
    let n = raw.unicode_len();
    let rest = raw.substring_char(1, n);
    if ends_with_char(home, '/') && starts_with_char(rest, '/') {
        let tail = rest.substring_char(1, n - 1);
        proof {
            assert(tail@ =~= rest@.drop_first());
        }
        home.to_owned().concat(tail)
    } else {
        proof {
            assert(rest@ =~= raw@.drop_first());
        }
        home.to_owned().concat(rest)
    }
}

/// Expands `raw` against directory `cwd` and home directory `home` (the
/// root where none was found).
pub fn expand_path(raw: &str, cwd: &str, home: Option<String>) -> (r: String)
    ensures
        r@ == expanded(raw@, cwd@, home_or_root(home)),
{
    if starts_with_char(raw, '~') {
        match home {
            Some(h) => tilde_join(h.as_str(), raw),
            None => tilde_join("/", raw),
        }
    } else if starts_with_char(raw, '/') {
        raw.to_owned()
    } else {
        join_component(cwd, raw)
    }
}

/// Relies on home::home_dir for the current user's home directory; what it
/// returns depends on the environment, so nothing is stated of it.
#[verifier::external_body]
fn home_directory() -> (r: Option<String>) {
    match home::home_dir() {
        Some(p) => Some(p.display().to_string()),
        None => None,
    }
}

/// Expands `raw` against directory `cwd` and the current user's home
/// directory.
pub fn expand_user_path(raw: &str, cwd: &str) -> (r: String)
    ensures
        exists|home: Seq<char>| r@ == expanded(raw@, cwd@, home),
        !(raw@.len() > 0 && raw@[0] == '~') ==> r@ == expanded(raw@, cwd@, "/"@),
{
    let home = home_directory();
    let r = expand_path(raw, cwd, home);
    proof {
        assert(r@ == expanded(raw@, cwd@, home_or_root(home)));
    }
    r
}

/// Finishes a resolution: the canonical form of the expanded path where the
/// file system gave one, else the expanded path unchanged.
pub fn settle_path(expanded: String, canonical: Option<String>) -> (r: String)
    ensures
        r@ == settled(expanded@, match canonical {
            Some(c) => Some(c@),
            None => None,
        }),
{
    match canonical {
        Some(c) => c,
        None => expanded,
    }
}

/// Leading separators removed.
pub open spec fn strip_slashes(s: Seq<char>) -> Seq<char>
    decreases s.len(),
{
    if s.len() > 0 && s[0] == '/' {
        strip_slashes(s.drop_first())
    } else {
        s
    }
}

/// The name under which `list` shows the entry at path `entry` of directory
/// `dir`: the directory prefix and the separators after it removed.
pub open spec fn entry_name_of(entry: Seq<char>, dir: Seq<char>) -> Seq<char> {
    if dir.len() <= entry.len() && entry.take(dir.len() as int) == dir {
        strip_slashes(entry.skip(dir.len() as int))
    } else {
        strip_slashes(entry)
    }
}

fn has_prefix(s: &str, p: &str) -> (r: bool)
    ensures
        r == (p@.len() <= s@.len() && s@.take(p@.len() as int) == p@),
{
    let n = p.unicode_len();
    if n > s.unicode_len() {
        return false;
    }
    let mut i: usize = 0;
    while i < n
        invariant
            n == p@.len() <= s@.len(),
            i <= n,
            forall|k: int| 0 <= k < i ==> s@[k] == p@[k],
        decreases n - i,
    {
        if s.get_char(i) != p.get_char(i) {
            proof {
                assert(s@.take(n as int)[i as int] != p@[i as int]);
            }
            return false;
        }
        i = i + 1;
    }
    proof {
        assert(s@.take(n as int) =~= p@);
    }
    true
}

/// The name of a directory entry as `list` shows it.
pub fn entry_name(entry: &str, dir: &str) -> (r: String)
    ensures
        r@ == entry_name_of(entry@, dir@),
{
    let n = entry.unicode_len();
    let mut k: usize = if has_prefix(entry, dir) {
        dir.unicode_len()
    } else {
        0
    };
    let ghost start = k;
    proof {
        assert(entry@.skip(0) =~= entry@);
    }
    while k < n && entry.get_char(k) == '/'
        invariant
            n == entry@.len(),
            start <= k <= n,
            strip_slashes(entry@.skip(k as int)) == strip_slashes(entry@.skip(start as int)),
        decreases n - k,
    {
        proof {
            assert(entry@.skip(k as int).drop_first() =~= entry@.skip(k as int + 1));
        }
        k = k + 1;
    }
    let r = entry.substring_char(k, n).to_owned();
    proof {
        assert(r@ =~= entry@.skip(k as int));
    }
    r
}

/// Each name followed by a space, as `list` prints them on one line.
pub open spec fn spaced(names: Seq<Seq<char>>) -> Seq<char>
    decreases names.len(),
{
    if names.len() == 0 {
        seq![]
    } else {
        spaced(names.drop_last()) + names.last() + " "@
    }
}

/// The line that `list` prints for these entry names.
pub fn listing_text(names: &Vec<String>) -> (r: String)
    ensures
        r@ == spaced(crate::text::views(names@)),
{
    let mut out = String::new();
    let mut i: usize = 0;
    while i < names.len()
        invariant
            i <= names@.len(),
            out@ == spaced(crate::text::views(names@.take(i as int))),
        decreases names@.len() - i,
    {
        proof {
            assert(crate::text::views(names@.take(i as int + 1)).drop_last() =~= crate::text::views(
                names@.take(i as int),
            ));
        }
        out.append(names[i].as_str());
        out.append(" ");
        i = i + 1;
    }
    proof {
        assert(names@.take(names@.len() as int) =~= names@);
    }
    out
}

} // verus!
