use vstd::prelude::*;

verus! {

/// Which subset of the repository's changes a diff query covers.
#[derive(Clone, Copy, PartialEq, Eq, Structural, Debug)]
pub enum ChangeScope {
    /// Changes already added to the index.
    Staged,
    /// Changes in the working tree that are not in the index.
    Unstaged,
    /// Staged and unstaged changes together.
    Combined,
}

/// The scope an operator's answer selects; an unrecognized answer
/// falls back to the default scope, `Staged`.
pub open spec fn scope_of_answer(answer: Seq<char>) -> ChangeScope {
    if answer == "unstaged"@ {
        ChangeScope::Unstaged
    } else if answer == "combined"@ {
        ChangeScope::Combined
    } else {
        ChangeScope::Staged
    }
}

fn str_eq(a: &str, b: &str) -> (r: bool)
    ensures
        r == (a@ == b@),
{
    let sa = a.to_owned();
    let sb = b.to_owned();
    sa == sb
}

/// Map the operator's textual answer to a scope, defaulting to `Staged`.
pub fn scope_from_answer(answer: &str) -> (s: ChangeScope)
    ensures
        s == scope_of_answer(answer@),
{
    if str_eq(answer, "unstaged") {
        ChangeScope::Unstaged
    } else if str_eq(answer, "combined") {
        ChangeScope::Combined
    } else {
        ChangeScope::Staged
    }
}

/// The answers the scope question offers, in the order they are shown; each
/// maps to its scope under `scope_of_answer`.
pub fn scope_choices() -> (choices: Vec<String>)
    ensures
        choices.deep_view() == seq!["staged"@, "unstaged"@, "combined"@],
        scope_of_answer(choices.deep_view()[0]) == ChangeScope::Staged,
        scope_of_answer(choices.deep_view()[1]) == ChangeScope::Unstaged,
        scope_of_answer(choices.deep_view()[2]) == ChangeScope::Combined,
{
    let mut choices: Vec<String> = Vec::new();
    choices.push(String::from_str("staged"));
    choices.push(String::from_str("unstaged"));
    choices.push(String::from_str("combined"));
    proof {
        assert(choices.deep_view() =~= seq!["staged"@, "unstaged"@, "combined"@]);
        reveal_strlit("staged");
        reveal_strlit("unstaged");
        reveal_strlit("combined");
        assert("staged"@.len() == 6);
        assert("unstaged"@.len() == 8);
        assert("combined"@.len() == 8);
        assert("combined"@[0] == 'c' && "unstaged"@[0] == 'u');
    }
    choices
}

/// The flag arguments that select a scope's diff: the index alone for
/// `Staged`, the working tree against the index for `Unstaged` (no flag),
/// and everything since the last commit for `Combined`.
pub open spec fn scope_flag_view(scope: ChangeScope) -> Seq<Seq<char>> {
    match scope {
        ChangeScope::Staged => seq!["--cached"@],
        ChangeScope::Unstaged => Seq::empty(),
        ChangeScope::Combined => seq!["HEAD"@],
    }
}

/// The pathspec that excludes one path from a diff query.
pub open spec fn exclude_pathspec_view(path: Seq<char>) -> Seq<char> {
    ":(exclude)"@ + path
}

/// The full argument list of a diff query: the subcommand, the scope's flag,
/// and, when any path is excluded, a pathspec section covering everything
/// but the excluded paths.
pub open spec fn diff_args_view(scope: ChangeScope, exclusions: Seq<Seq<char>>) -> Seq<Seq<char>> {
    let base = seq!["diff"@] + scope_flag_view(scope);
    if exclusions.len() == 0 {
        base
    } else {
        base + seq!["--"@, "."@] + exclusions.map_values(|path: Seq<char>| exclude_pathspec_view(path))
    }
}

/// The argument list of the explicit staging operation, which stages every
/// pending change. It stands apart from the commit operation, so that the
/// orchestrator decides whether it runs.
pub fn stage_args() -> (args: Vec<String>)
    ensures
        args.deep_view() == seq!["add"@, "."@],
{
    let mut args: Vec<String> = Vec::new();
    args.push(String::from_str("add"));
    args.push(String::from_str("."));
    proof {
        assert(args.deep_view() =~= seq!["add"@, "."@]);
    }
    args
}

/// Build the argument list for the diff query of the given scope, keeping
/// every excluded path out of the produced diff.
pub fn diff_args(scope: &ChangeScope, exclusions: &Vec<String>) -> (args: Vec<String>)
    ensures
        args.deep_view() == diff_args_view(*scope, exclusions.deep_view()),
{
    let mut args: Vec<String> = Vec::new();
    args.push(String::from_str("diff"));
    match scope {
        ChangeScope::Staged => args.push(String::from_str("--cached")),
        ChangeScope::Unstaged => {},
        ChangeScope::Combined => args.push(String::from_str("HEAD")),
    }
    proof {
        assert(args.deep_view() =~= seq!["diff"@] + scope_flag_view(*scope));
    }
    if exclusions.len() > 0 {
        args.push(String::from_str("--"));
        args.push(String::from_str("."));
        let ghost prefix = args.deep_view();
        let ghost all = exclusions.deep_view();
        let mut i: usize = 0;
        while i < exclusions.len()
            invariant
                i <= exclusions.len(),
                all == exclusions.deep_view(),
                args.deep_view() =~= prefix + all.subrange(0, i as int).map_values(
                    |path: Seq<char>| exclude_pathspec_view(path),
                ),
            decreases exclusions.len() - i,
        {
            let ghost pre = args.deep_view();
            let mut p = String::from_str(":(exclude)");
            p.append(exclusions[i].as_str());
            let ghost pv = p@;
            proof {
                assert(pv == exclude_pathspec_view(all[i as int]));
            }
            args.push(p);
            i += 1;
            proof {
                assert(args.deep_view() =~= pre.push(pv));
                assert(all.subrange(0, i as int).map_values(
                    |path: Seq<char>| exclude_pathspec_view(path),
                ) =~= all.subrange(0, i - 1).map_values(
                    |path: Seq<char>| exclude_pathspec_view(path),
                ).push(exclude_pathspec_view(all[i - 1])));
                assert(args.deep_view() =~= prefix + all.subrange(0, i as int).map_values(
                    |path: Seq<char>| exclude_pathspec_view(path),
                ));
            }
        }
        proof {
            assert(all.subrange(0, all.len() as int) =~= all);
            assert(args.deep_view() =~= diff_args_view(*scope, exclusions.deep_view()));
        }
    }
    proof {
        assert(args.deep_view() =~= diff_args_view(*scope, exclusions.deep_view()));
    }
    args
}

} // verus!
