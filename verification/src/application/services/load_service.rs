//! Loading a configuration: linking its dotfile directories, then running
//! the provisioning scripts meant for this system.
use vstd::prelude::*;
use crate::models::config::{Config, Link, Provision};
use crate::models::shell::{command_line, make_command, CommandLine};
use crate::text::str_eq;

verus! {

/// The mode and script of a provisioning entry.
pub open spec fn provision_view(p: Provision) -> (Seq<char>, Seq<char>) {
    (p.mode@, p.script@)
}

/// The scripts of the entries whose mode is `os`, in order.
pub open spec fn spec_scripts_for(ps: Seq<(Seq<char>, Seq<char>)>, os: Seq<char>) -> Seq<Seq<char>>
    decreases ps.len(),
{
    if ps.len() == 0 {
        Seq::empty()
    } else {
        let prev = spec_scripts_for(ps.drop_last(), os);
        if ps.last().0 == os {
            prev.push(ps.last().1)
        } else {
            prev
        }
    }
}

/// The provisioning entries of a configuration, none where it has no
/// provisioning section.
pub open spec fn config_provisions(c: Config) -> Seq<(Seq<char>, Seq<char>)> {
    match c.provision {
        Some(v) => v@.map_values(|p: Provision| provision_view(p)),
        None => Seq::empty(),
    }
}

/// The dotfile directories of a configuration, none where it has no link
/// section.
pub open spec fn config_locations(c: Config) -> Seq<Seq<char>> {
    match c.link {
        Some(v) => v@.map_values(|l: Link| l.location@),
        None => Seq::empty(),
    }
}

/// The dotfile directories to link, in order.
pub fn link_locations(config: &Config) -> (res: Vec<String>)
    ensures
        res@.map_values(|s: String| s@) == config_locations(*config),
{
    let mut out: Vec<String> = Vec::new();
    match &config.link {
        Some(links) => {
            let ghost lv = links@.map_values(|l: Link| l.location@);
            let mut i: usize = 0;
            while i < links.len()
                invariant
                    lv == links@.map_values(|l: Link| l.location@),
                    i <= links@.len(),
                    out@.map_values(|s: String| s@) == lv.take(i as int),
                decreases links@.len() - i,
            {
                let ghost before = out@.map_values(|s: String| s@);
                out.push(links[i].location.clone());
                assert(out@.map_values(|s: String| s@) =~= before.push(links@[i as int].location@));
                assert(lv.take(i + 1) =~= lv.take(i as int).push(lv[i as int]));
                i = i + 1;
            }
            assert(lv.take(links@.len() as int) =~= lv);
        },
        None => {
            assert(out@.map_values(|s: String| s@) =~= Seq::<Seq<char>>::empty());
        },
    }
    out
}

/// The scripts to run on the system named `os`: those of the entries whose
/// mode is `os`, in order.
pub fn scripts_to_run(config: &Config, os: &str) -> (res: Vec<String>)
    ensures
        res@.map_values(|s: String| s@) == spec_scripts_for(config_provisions(*config), os@),
{
    let mut out: Vec<String> = Vec::new();
    match &config.provision {
        Some(ps) => {
            let ghost pv = ps@.map_values(|p: Provision| provision_view(p));
            let mut i: usize = 0;
            assert(pv.take(0) =~= Seq::<(Seq<char>, Seq<char>)>::empty());
            while i < ps.len()
                invariant
                    pv == ps@.map_values(|p: Provision| provision_view(p)),
                    i <= ps@.len(),
                    out@.map_values(|s: String| s@) == spec_scripts_for(pv.take(i as int), os@),
                decreases ps@.len() - i,
            {
                assert(pv.take(i + 1).drop_last() =~= pv.take(i as int));
                assert(pv.take(i + 1).last() == provision_view(ps@[i as int]));
                if str_eq(ps[i].mode.as_str(), os) {
                    let ghost before = out@.map_values(|s: String| s@);
                    out.push(ps[i].script.clone());
                    assert(out@.map_values(|s: String| s@) =~= before.push(ps@[i as int].script@));
                }
                i = i + 1;
            }
            assert(pv.take(ps@.len() as int) =~= pv);
        },
        None => {
            assert(out@.map_values(|s: String| s@) =~= Seq::<Seq<char>>::empty());
        },
    }
    out
}

/// Whether any provisioning entry exists, so that the system has to be
/// named at all.
pub fn has_provisions(config: &Config) -> (res: bool)
    ensures
        res == (config_provisions(*config).len() > 0),
{
    match &config.provision {
        Some(ps) => ps.len() > 0,
        None => false,
    }
}

/// The command that runs a script file with bash.
pub fn bash_command(script_path: &str) -> (res: CommandLine)
    ensures
        res@ == command_line("bash"@, seq![script_path@]),
{
    let c = make_command("bash", &[script_path]);
    assert(c@.args =~= seq![script_path@]);
    c
}

/// `s` is the script of an entry whose mode is `os`.
pub open spec fn from_entry_for(ps: Seq<(Seq<char>, Seq<char>)>, os: Seq<char>, s: Seq<char>) -> bool {
    exists|j: int| 0 <= j < ps.len() && (#[trigger] ps[j]).0 == os && ps[j].1 == s
}

/// Every script chosen for `os` comes from an entry whose mode is `os`.
pub proof fn lemma_scripts_for_match_os(ps: Seq<(Seq<char>, Seq<char>)>, os: Seq<char>)
    ensures
        forall|k: int|
            0 <= k < spec_scripts_for(ps, os).len() ==> from_entry_for(
                ps,
                os,
                #[trigger] spec_scripts_for(ps, os)[k],
            ),
    decreases ps.len(),
{
    if ps.len() > 0 {
        let init = ps.drop_last();
        lemma_scripts_for_match_os(init, os);
        let prev = spec_scripts_for(init, os);
        let out = spec_scripts_for(ps, os);
        assert forall|k: int| 0 <= k < out.len() implies from_entry_for(ps, os, #[trigger] out[k]) by {
            if k < prev.len() {
                assert(from_entry_for(init, os, prev[k]));
                let j = choose|j: int| 0 <= j < init.len() && (#[trigger] init[j]).0 == os && init[j].1 == prev[k];
                assert(ps[j] == init[j]);
                assert(out[k] == prev[k]);
            } else {
                assert(ps[ps.len() - 1] == ps.last());
            }
        }
    }
}

/// Loading runs the script of every provisioning entry whose mode is `os`,
/// and only those, in the order the configuration lists them.
pub proof fn lemma_scripts_for_every_matching_entry(
    ps: Seq<(Seq<char>, Seq<char>)>,
    os: Seq<char>,
)
    ensures
        spec_scripts_for(ps, os) == ps.filter(|e: (Seq<char>, Seq<char>)| e.0 == os).map_values(
            |e: (Seq<char>, Seq<char>)| e.1,
        ),
    decreases ps.len(),
{
    reveal(Seq::filter);
    if ps.len() > 0 {
        let init = ps.drop_last();
        lemma_scripts_for_every_matching_entry(init, os);
        let sub = init.filter(|e: (Seq<char>, Seq<char>)| e.0 == os);
        let g = |e: (Seq<char>, Seq<char>)| e.1;
        assert(sub.push(ps.last()).map_values(g) =~= sub.map_values(g).push(g(ps.last())));
    }
}

} // verus!
