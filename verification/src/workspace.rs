//! Choosing the workspace folder from the launch arguments.
//!
//! The first argument is the executable's own path and is never a
//! workspace request; of the rest, the first that names an existing
//! directory is the workspace.

use vstd::prelude::*;
use crate::paths::{answered, names_existing_dir};

verus! {

/// The first position from `i` on at which `dirs` is `true`, if any.
pub open spec fn first_dir_from(dirs: Seq<bool>, i: int) -> Option<int>
    decreases dirs.len() - i,
{
    if i < 0 || i >= dirs.len() {
        None
    } else if dirs[i] {
        Some(i)
    } else {
        first_dir_from(dirs, i + 1)
    }
}

/// The workspace that the arguments `args` ask for when `dirs[k]` tells
/// whether argument `k` names an existing directory: the first argument
/// after the executable's path (argument 0) that does, or none.
pub open spec fn workspace_choice(args: Seq<String>, dirs: Seq<bool>) -> Option<String> {
    match first_dir_from(dirs, 1) {
        Some(i) => Some(args[i]),
        None => None,
    }
}

/// Argument `i` is the workspace chosen: the first argument after the
/// executable's path that names a directory.
pub open spec fn picks_workspace(args: Seq<String>, dirs: Seq<bool>, i: int) -> bool {
    &&& 1 <= i < args.len()
    &&& dirs[i]
    &&& forall|j: int| 1 <= j < i ==> !dirs[j]
}

proof fn lemma_first_dir_from(dirs: Seq<bool>, i: int)
    requires
        0 <= i,
    ensures
        first_dir_from(dirs, i) matches Some(k) ==> i <= k < dirs.len() && dirs[k] && forall|j: int|
            i <= j < k ==> !dirs[j],
        first_dir_from(dirs, i) is None ==> forall|j: int| i <= j < dirs.len() ==> !dirs[j],
    decreases dirs.len() - i,
{
    if i < dirs.len() && !dirs[i] {
        lemma_first_dir_from(dirs, i + 1);
        assert forall|j: int| i <= j < dirs.len() && first_dir_from(dirs, i) is None implies !dirs[j] by {
            if j > i {
            }
        }
    }
}

/// The workspace that the launch arguments ask for, given for each argument
/// whether it names an existing directory: the first argument after the
/// executable's path that does, or `None` when none does.
pub fn pick_workspace(args: &[String], dirs: &[bool]) -> (r: Option<String>)
    requires
        dirs@.len() == args@.len(),
    ensures
        r == workspace_choice(args@, dirs@),
        r matches Some(p) ==> exists|i: int| picks_workspace(args@, dirs@, i) && p == args@[i],
        r is None ==> forall|i: int| 1 <= i < args@.len() ==> !dirs@[i],
{
    proof {
        lemma_first_dir_from(dirs@, 1);
    }
    let mut i: usize = 1;
    while i < args.len()
        invariant
            dirs@.len() == args@.len(),
            1 <= i,
            first_dir_from(dirs@, 1) == first_dir_from(dirs@, i as int),
        decreases args.len() - i,
    {
        if dirs[i] {
            proof {
                lemma_first_dir_from(dirs@, 1);
                assert(picks_workspace(args@, dirs@, i as int));
            }
            return Some(args[i].clone());
        }
        i = i + 1;
    }
    None
}

/// `r` is the workspace that the launch arguments `args` ask for, going by
/// the answers of `is_dir`: the arguments after the executable's path were
/// put to it in turn; `r` is the first one answered `true`, every one
/// before it having been answered `false`, or `None` when every one was
/// answered `false`.
pub open spec fn first_dir_answered<F: Fn(&String) -> bool>(
    args: Seq<String>,
    is_dir: F,
    r: Option<String>,
) -> bool {
    match r {
        Some(p) => exists|i: int|
            {
                &&& 1 <= i < args.len()
                &&& p == args[i]
                &&& #[trigger] answered(is_dir, args[i], true)
                &&& forall|j: int| 1 <= j < i ==> #[trigger] answered(is_dir, args[j], false)
            },
        None => forall|j: int| 1 <= j < args.len() ==> #[trigger] answered(is_dir, args[j], false),
    }
}

/// The workspace folder that the launch arguments ask for, going by
/// `is_dir` for whether a path names an existing directory: the arguments
/// after the executable's path are put to it in turn, and the first one
/// answered `true` is the workspace; `None` when none is.
pub fn requested_workspace_by<F: Fn(&String) -> bool>(args: &[String], is_dir: F) -> (r: Option<
    String,
>)
    requires
        forall|s: &String| #[trigger] is_dir.requires((s,)),
    ensures
        first_dir_answered(args@, is_dir, r),
{
    let mut i: usize = 1;
    while i < args.len()
        invariant
            forall|s: &String| #[trigger] is_dir.requires((s,)),
            1 <= i,
            forall|j: int| 1 <= j < i && j < args@.len() ==> #[trigger] answered(is_dir, args@[j], false),
        decreases args.len() - i,
    {
        let b = is_dir(&args[i]);
        if b {
            assert(answered(is_dir, args@[i as int], true));
            return Some(args[i].clone());
        }
        i = i + 1;
    }
    None
}

/// The workspace folder that the launch arguments ask for: the first
/// argument after the executable's path that the file system says names an
/// existing directory, the arguments being asked about in turn.
pub fn requested_workspace(args: &[String]) -> (r: Option<String>)
    ensures
        first_dir_answered(args@, names_existing_dir, r),
        args@.len() <= 1 ==> r is None,
{
    requested_workspace_by(args, names_existing_dir)
}

/// The workspace to start in: none when the workspace was already chosen
/// by the environment (an explicit setting wins), else the one the launch
/// arguments ask for.
pub fn startup_workspace(chosen_by_environment: bool, args: &[String]) -> (r: Option<String>)
    ensures
        chosen_by_environment ==> r is None,
        !chosen_by_environment ==> first_dir_answered(args@, names_existing_dir, r),
        args@.len() <= 1 ==> r is None,
{
    if chosen_by_environment {
        None
    } else {
        requested_workspace(args)
    }
}

proof fn lemma_first_dir_ignores_before(dirs: Seq<bool>, other: Seq<bool>, i: int)
    requires
        0 <= i,
        dirs.len() == other.len(),
        forall|j: int| i <= j < dirs.len() ==> dirs[j] == other[j],
    ensures
        first_dir_from(dirs, i) == first_dir_from(other, i),
    decreases dirs.len() - i,
{
    if i < dirs.len() && !dirs[i] {
        lemma_first_dir_ignores_before(dirs, other, i + 1);
    }
}

proof fn lemma_first_dir_extends(dirs: Seq<bool>, more: Seq<bool>, i: int)
    requires
        0 <= i,
        first_dir_from(dirs, i) is Some,
    ensures
        first_dir_from(dirs + more, i) == first_dir_from(dirs, i),
    decreases dirs.len() - i,
{
    if i < dirs.len() && !dirs[i] {
        lemma_first_dir_extends(dirs, more, i + 1);
    }
}

/// Law: the executable's own path never matters. Whatever argument 0 is,
/// and whatever the file system says of it, the workspace is the same.
pub proof fn law_executable_path_never_matters(
    args: Seq<String>,
    dirs: Seq<bool>,
    exe: String,
    exe_is_dir: bool,
)
    requires
        dirs.len() == args.len(),
        args.len() >= 1,
    ensures
        workspace_choice(args.update(0, exe), dirs.update(0, exe_is_dir)) == workspace_choice(
            args,
            dirs,
        ),
{
    let dirs2 = dirs.update(0, exe_is_dir);
    lemma_first_dir_ignores_before(dirs2, dirs, 1);
    lemma_first_dir_from(dirs, 1);
}

/// Law: a workspace once found stays the one chosen when more arguments
/// are appended: the first directory argument wins.
pub proof fn law_appending_keeps_found_workspace(
    args: Seq<String>,
    dirs: Seq<bool>,
    extra: Seq<String>,
    extra_dirs: Seq<bool>,
)
    requires
        dirs.len() == args.len(),
        extra_dirs.len() == extra.len(),
        workspace_choice(args, dirs) is Some,
    ensures
        workspace_choice(args + extra, dirs + extra_dirs) == workspace_choice(args, dirs),
{
    lemma_first_dir_extends(dirs, extra_dirs, 1);
    lemma_first_dir_from(dirs, 1);
}

/// `ask` answers each path the same way every time it is asked.
pub open spec fn answers_consistently<F: Fn(&String) -> bool>(ask: F) -> bool {
    forall|s: String, b1: bool, b2: bool|
        #![trigger answered(ask, s, b1), answered(ask, s, b2)]
        answered(ask, s, b1) && answered(ask, s, b2) ==> b1 == b2
}

/// Law: asking about the launch arguments, the executable's own path never
/// matters. Two runs whose arguments differ only in argument 0 pick the
/// same workspace, as far as the answers about the other arguments are the
/// same in both.
pub proof fn law_asking_ignores_the_executable_path<F: Fn(&String) -> bool>(
    args: Seq<String>,
    exe: String,
    is_dir: F,
    r1: Option<String>,
    r2: Option<String>,
)
    requires
        args.len() >= 1,
        answers_consistently(is_dir),
        first_dir_answered(args, is_dir, r1),
        first_dir_answered(args.update(0, exe), is_dir, r2),
    ensures
        r1 == r2,
{
    let args2 = args.update(0, exe);
    assert forall|j: int| 1 <= j < args.len() implies #[trigger] args2[j] == args[j] by {}
    match r1 {
        Some(p) => {
            let i = choose|i: int|
                {
                    &&& 1 <= i < args.len()
                    &&& p == args[i]
                    &&& #[trigger] answered(is_dir, args[i], true)
                    &&& forall|j: int| 1 <= j < i ==> #[trigger] answered(is_dir, args[j], false)
                };
            assert(args2[i] == args[i]);
            match r2 {
                Some(q) => {
                    let k = choose|k: int|
                        {
                            &&& 1 <= k < args2.len()
                            &&& q == args2[k]
                            &&& #[trigger] answered(is_dir, args2[k], true)
                            &&& forall|j: int| 1 <= j < k ==> #[trigger] answered(is_dir, args2[j], false)
                        };
                    assert(args2[k] == args[k]);
                    if i < k {
                        assert(answered(is_dir, args2[i], false));
                    } else if k < i {
                        assert(answered(is_dir, args[k], false));
                    }
                },
                None => {
                    assert(answered(is_dir, args2[i], false));
                },
            }
        },
        None => {
            if let Some(q) = r2 {
                let k = choose|k: int|
                    {
                        &&& 1 <= k < args2.len()
                        &&& q == args2[k]
                        &&& #[trigger] answered(is_dir, args2[k], true)
                        &&& forall|j: int| 1 <= j < k ==> #[trigger] answered(is_dir, args2[j], false)
                    };
                assert(args2[k] == args[k]);
                assert(answered(is_dir, args[k], false));
            }
        },
    }
}

/// Law: asking about the launch arguments, a workspace once found stays
/// the one chosen when more arguments are appended, as far as the answers
/// about the first arguments are the same: the first directory wins.
pub proof fn law_asking_keeps_found_workspace<F: Fn(&String) -> bool>(
    args: Seq<String>,
    extra: Seq<String>,
    is_dir: F,
    p: String,
    r: Option<String>,
)
    requires
        answers_consistently(is_dir),
        first_dir_answered(args, is_dir, Some(p)),
        first_dir_answered(args + extra, is_dir, r),
    ensures
        r == Some(p),
{
    let all = args + extra;
    let i = choose|i: int|
        {
            &&& 1 <= i < args.len()
            &&& p == args[i]
            &&& #[trigger] answered(is_dir, args[i], true)
            &&& forall|j: int| 1 <= j < i ==> #[trigger] answered(is_dir, args[j], false)
        };
    assert(all[i] == args[i]);
    match r {
        Some(q) => {
            let k = choose|k: int|
                {
                    &&& 1 <= k < all.len()
                    &&& q == all[k]
                    &&& #[trigger] answered(is_dir, all[k], true)
                    &&& forall|j: int| 1 <= j < k ==> #[trigger] answered(is_dir, all[j], false)
                };
            if i < k {
                assert(answered(is_dir, all[i], false));
            } else if k < i {
                assert(all[k] == args[k]);
                assert(answered(is_dir, args[k], false));
            }
        },
        None => {
            assert(answered(is_dir, all[i], false));
        },
    }
}

} // verus!
