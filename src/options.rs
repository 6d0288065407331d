use vstd::prelude::*;
use vstd::string::StringExecFns;

use crate::settings::ClusterSettings;

verus! {

/// The engine's verbosity switch at level `v`: `-` followed by `v` letters `v`.
pub open spec fn spec_verbosity_switch(v: nat) -> Seq<char> {
    seq!['-'] + Seq::new(v, |i: int| 'v')
}

/// The engine's arguments for `settings` and the playbook at `path`, in the
/// order `--inventory <path> [--user <user>] [-v...] [--check] <playbook>`.
pub open spec fn spec_engine_args(settings: ClusterSettings, path: Seq<char>) -> Seq<Seq<char>> {
    seq!["--inventory"@, settings.inventory@] + match settings.user {
        Some(u) => seq!["--user"@, u@],
        None => Seq::empty(),
    } + if settings.verbosity > 0 {
        seq![spec_verbosity_switch(settings.verbosity as nat)]
    } else {
        Seq::empty()
    } + if settings.dry_run {
        seq!["--check"@]
    } else {
        Seq::empty()
    } + seq![path]
}

pub open spec fn strings_view(v: Seq<String>) -> Seq<Seq<char>> {
    v.map_values(|s: String| s@)
}

/// The engine's arguments depend on the settings alone but for the last one,
/// which is the playbook's path.
pub proof fn lemma_engine_args_path_only(settings: ClusterSettings, p1: Seq<char>, p2: Seq<char>)
    ensures
        spec_engine_args(settings, p1).drop_last() == spec_engine_args(settings, p2).drop_last(),
        spec_engine_args(settings, p1).last() == p1,
{
    assert(spec_engine_args(settings, p1).drop_last() =~= spec_engine_args(settings, p2).drop_last());
}

pub fn verbosity_switch(v: u8) -> (r: String)
    ensures
        r@ == spec_verbosity_switch(v as nat),
{
    let mut r = String::from_str("-");
    proof {
        reveal_strlit("-");
    }
    assert(r@ =~= spec_verbosity_switch(0));
    let mut i: u8 = 0;
    while i < v
        invariant
            i <= v,
            r@ == spec_verbosity_switch(i as nat),
        decreases v - i,
    {
        r.append("v");
        proof {
            reveal_strlit("v");
        }
        i = i + 1;
        assert(r@ =~= spec_verbosity_switch(i as nat));
    }
    r
}

/// Derives the engine's arguments from the settings; `playbook_path` is where
/// the playbook was written out. Equal inputs give equal arguments.
pub fn engine_args(settings: &ClusterSettings, playbook_path: &str) -> (r: Vec<String>)
    ensures
        strings_view(r@) == spec_engine_args(*settings, playbook_path@),
{
    let mut r: Vec<String> = Vec::new();
    r.push(String::from_str("--inventory"));
    r.push(settings.inventory.clone());
    let ghost base = r@;
    match &settings.user {
        Some(u) => {
            r.push(String::from_str("--user"));
            r.push(u.clone());
        },
        None => {},
    }
    if settings.verbosity > 0 {
        r.push(verbosity_switch(settings.verbosity));
    }
    if settings.dry_run {
        r.push(String::from_str("--check"));
    }
    r.push(String::from_str(playbook_path));
    assert(strings_view(r@) =~= spec_engine_args(*settings, playbook_path@));
    r
}

} // verus!
