//! Executable lookup on a colon-separated search path: the candidate paths
//! in search order, and the choice of the first one that exists with an
//! execute permission bit.
use vstd::prelude::*;
use crate::path::{join_component, join_path};
use crate::text::{pieces, split_on, views};

verus! {

/// The path tried in each search directory of `path_var`, in order; none
/// where the search path is not set.
pub open spec fn candidates_of(path_var: Option<Seq<char>>, name: Seq<char>) -> Seq<Seq<char>> {
    match path_var {
        Some(p) => pieces(p, ':').map_values(|d: Seq<char>| join_path(d, name)),
        None => seq![],
    }
}

/// The paths at which to look for the executable `name`.
pub fn executable_candidates(path_var: Option<&str>, name: &str) -> (r: Vec<String>)
    ensures
        views(r@) == candidates_of(
            match path_var {
                Some(p) => Some(p@),
                None => None,
            },
            name@,
        ),
{
    let p = match path_var {
        Some(p) => p,
        None => {
            proof {
                assert(views(Seq::<String>::empty()) =~= Seq::<Seq<char>>::empty());
            }
            return Vec::new();
        },
    };
    let dirs = split_on(p, ':');
    let mut out: Vec<String> = Vec::new();
    let mut i: usize = 0;
    while i < dirs.len()
        invariant
            i <= dirs@.len(),
            views(out@) == views(dirs@.take(i as int)).map_values(
                |d: Seq<char>| join_path(d, name@),
            ),
        decreases dirs@.len() - i,
    {
        let c = join_component(dirs[i].as_str(), name);
        proof {
            assert(views(out@.push(c)) =~= views(out@).push(c@));
            assert(views(dirs@.take(i as int + 1)) =~= views(dirs@.take(i as int)).push(
                dirs@[i as int]@,
            ));
        }
        out.push(c);
        i = i + 1;
        proof {
            assert(views(out@) =~= views(dirs@.take(i as int)).map_values(
                |d: Seq<char>| join_path(d, name@),
            ));
        }
    }
    proof {
        assert(dirs@.take(dirs@.len() as int) =~= dirs@);
    }
    out
}

/// Whether a file with permission bits `mode` may be executed by someone:
/// its owner, its group or anyone else.
pub open spec fn has_execute_bit(mode: u32) -> bool {
    mode & 0o111u32 != 0
}

/// Whether probe `m` found a file with an execute bit; `None` stands for a
/// path where nothing exists.
pub open spec fn probe_ok(m: Option<u32>) -> bool {
    m is Some && has_execute_bit(m->Some_0)
}

/// The first candidate whose probe found an executable file.
pub open spec fn first_executable_of(cands: Seq<Seq<char>>, modes: Seq<Option<u32>>) -> Option<
    Seq<char>,
>
    decreases cands.len(),
{
    if cands.len() == 0 || modes.len() == 0 {
        None
    } else if probe_ok(modes[0]) {
        Some(cands[0])
    } else {
        first_executable_of(cands.drop_first(), modes.drop_first())
    }
}

/// Picks the first of `candidates` that exists and can be executed;
/// `modes[i]` is what probing `candidates[i]` found: the permission bits of
/// the file there, or `None` where there is none.
pub fn first_executable(candidates: &Vec<String>, modes: &Vec<Option<u32>>) -> (r: Option<String>)
    requires
        candidates@.len() == modes@.len(),
    ensures
        match r {
            Some(p) => first_executable_of(views(candidates@), modes@) == Some(p@),
            None => first_executable_of(views(candidates@), modes@) is None,
        },
{
    let mut i: usize = 0;
    proof {
        assert(views(candidates@).skip(0) =~= views(candidates@));
        assert(modes@.skip(0) =~= modes@);
    }
    while i < candidates.len()
        invariant
            candidates@.len() == modes@.len(),
            i <= candidates@.len(),
            first_executable_of(views(candidates@), modes@) == first_executable_of(
                views(candidates@).skip(i as int),
                modes@.skip(i as int),
            ),
        decreases candidates@.len() - i,
    {
        let found = match modes[i] {
            Some(m) => m & 0o111u32 != 0,
            None => false,
        };
        proof {
            assert(views(candidates@).skip(i as int).drop_first() =~= views(candidates@).skip(
                i as int + 1,
            ));
            assert(modes@.skip(i as int).drop_first() =~= modes@.skip(i as int + 1));
        }
        if found {
            return Some(candidates[i].clone());
        }
        i = i + 1;
    }
    None
}

} // verus!
