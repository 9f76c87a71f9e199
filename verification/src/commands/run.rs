//! Running a run file: link each listed location into the home directory,
//! then run the provisioning scripts meant for this operating system.
use vstd::prelude::*;
use crate::text::strings_view;
use crate::commands::link::Linker;
use crate::models::yaml::{Link, Provision, RunFile};
use crate::system::shell::ShellExecutor;
use crate::text::str_eq;
use crate::utils::yaml::YamlParser;

verus! {

/// The locations that a run file lists for linking, in order.
pub open spec fn run_links(f: RunFile) -> Seq<Seq<char>> {
    match f.link {
        Some(ls) => ls@.map_values(|l: Link| l.location@),
        None => Seq::empty(),
    }
}

/// The scripts of the provisions whose mode is `os`, in order.
pub open spec fn scripts_for_os(ps: Seq<Provision>, os: Seq<char>) -> Seq<Seq<char>>
    decreases ps.len(),
{
    if ps.len() == 0 {
        Seq::empty()
    } else {
        let prev = scripts_for_os(ps.drop_last(), os);
        if ps.last().mode@ == os {
            prev.push(ps.last().script@)
        } else {
            prev
        }
    }
}

/// The scripts a run file runs on the system named `os`.
pub open spec fn run_scripts(f: RunFile, os: Seq<char>) -> Seq<Seq<char>> {
    match f.provision {
        Some(ps) => scripts_for_os(ps@, os),
        None => Seq::empty(),
    }
}

/// The work a run file asks for: the locations to link into the home
/// directory (`~`), then the scripts to run with bash.
pub struct RunPlan {
    pub links: Vec<String>,
    pub scripts: Vec<String>,
}

/// Runs run files.
pub struct Runner {
    shell: ShellExecutor,
    yaml_parser: YamlParser,
    linker: Linker,
}

impl Runner {
    /// The shell the runner holds.
    pub closed spec fn held_shell(&self) -> ShellExecutor {
        self.shell
    }

    /// The parser the runner holds.
    pub closed spec fn held_yaml_parser(&self) -> YamlParser {
        self.yaml_parser
    }

    /// The linker the runner holds.
    pub closed spec fn held_linker(&self) -> Linker {
        self.linker
    }

    pub fn new(shell: ShellExecutor, yaml_parser: YamlParser, linker: Linker) -> (res: Self)
        ensures
            res.held_shell() == shell,
            res.held_yaml_parser() == yaml_parser,
            res.held_linker() == linker,
    {
        Runner { shell, yaml_parser, linker }
    }

    /// The shell the scripts run in.
    pub fn shell(&self) -> (res: &ShellExecutor)
        ensures
            *res == self.held_shell(),
    {
        &self.shell
    }

    /// The parser the run file is read with.
    pub fn yaml_parser(&self) -> (res: &YamlParser)
        ensures
            *res == self.held_yaml_parser(),
    {
        &self.yaml_parser
    }

    /// The linker the locations are linked with.
    pub fn linker(&self) -> (res: &Linker)
        ensures
            *res == self.held_linker(),
    {
        &self.linker
    }

    /// The locations to link, in the order the run file lists them.
    pub fn handle_links(&self, run_file: &RunFile) -> (res: Vec<String>)
        ensures
            strings_view(res@) == run_links(*run_file),
    {
        let mut out: Vec<String> = Vec::new();
        match &run_file.link {
            Some(links) => {
                let mut i: usize = 0;
                while i < links.len()
                    invariant
                        i <= links@.len(),
                        strings_view(out@) == links@.take(i as int).map_values(
                            |l: Link| l.location@,
                        ),
                    decreases links@.len() - i,
                {
                    let ghost before = strings_view(out@);
                    out.push(links[i].location.clone());
                    assert(strings_view(out@) =~= before.push(links@[i as int].location@));
                    assert(links@.take(i + 1) =~= links@.take(i as int).push(links@[i as int]));
                    assert(strings_view(out@) =~= links@.take(i + 1).map_values(
                        |l: Link| l.location@,
                    ));
                    i = i + 1;
                }
                assert(links@.take(links@.len() as int) =~= links@);
            },
            None => {},
        }
        assert(strings_view(out@) =~= run_links(*run_file));
        out
    }

    /// The scripts of the provisions meant for the system named `os`, in
    /// the order the run file lists them.
    pub fn handle_provision(&self, run_file: &RunFile, os: &str) -> (res: Vec<String>)
        ensures
            strings_view(res@) == run_scripts(*run_file, os@),
    {
        let mut out: Vec<String> = Vec::new();
        match &run_file.provision {
            Some(ps) => {
                let mut i: usize = 0;
                while i < ps.len()
                    invariant
                        i <= ps@.len(),
                        strings_view(out@) == scripts_for_os(ps@.take(i as int), os@),
                    decreases ps@.len() - i,
                {
                    assert(ps@.take(i + 1).drop_last() =~= ps@.take(i as int));
                    assert(ps@.take(i + 1).last() == ps@[i as int]);
                    let ghost before = strings_view(out@);
                    if str_eq(ps[i].mode.as_str(), os) {
                        out.push(ps[i].script.clone());
                        assert(strings_view(out@) =~= before.push(ps@[i as int].script@));
                    }
                    i = i + 1;
                }
                assert(ps@.take(ps@.len() as int) =~= ps@);
            },
            None => {},
        }
        assert(strings_view(out@) =~= run_scripts(*run_file, os@));
        out
    }

    /// What running `run_file` on the system named `os` does: the links
    /// first, then the scripts.
    pub fn plan(&self, run_file: &RunFile, os: &str) -> (res: RunPlan)
        ensures
            strings_view(res.links@) == run_links(*run_file),
            strings_view(res.scripts@) == run_scripts(*run_file, os@),
    {
        RunPlan { links: self.handle_links(run_file), scripts: self.handle_provision(run_file, os) }
    }
}

/// `s` is the script of a provision whose mode is `os`.
pub open spec fn from_provision_for(ps: Seq<Provision>, os: Seq<char>, s: Seq<char>) -> bool {
    exists|j: int| 0 <= j < ps.len() && (#[trigger] ps[j]).mode@ == os && ps[j].script@ == s
}

/// Every script that a run file runs on the system named `os` is the
/// script of one of its provisions whose mode is `os`.
pub proof fn lemma_run_scripts_match_os(ps: Seq<Provision>, os: Seq<char>)
    ensures
        forall|k: int|
            0 <= k < scripts_for_os(ps, os).len() ==> from_provision_for(
                ps,
                os,
                #[trigger] scripts_for_os(ps, os)[k],
            ),
    decreases ps.len(),
{
    if ps.len() > 0 {
        let init = ps.drop_last();
        lemma_run_scripts_match_os(init, os);
        let prev = scripts_for_os(init, os);
        let out = scripts_for_os(ps, os);
        assert forall|k: int| 0 <= k < out.len() implies from_provision_for(ps, os, #[trigger] out[k]) by {
            if k < prev.len() {
                assert(out[k] == prev[k]);
                assert(from_provision_for(init, os, prev[k]));
                let j = choose|j: int|
                    0 <= j < init.len() && (#[trigger] init[j]).mode@ == os && init[j].script@
                        == prev[k];
                assert(ps[j] == init[j]);
            } else {
                assert(ps[ps.len() - 1] == ps.last());
            }
        }
    }
}

/// A run links every location its run file lists, in order, and no other:
/// the k-th planned link is the k-th entry's location.
pub proof fn lemma_run_links_every_location(f: RunFile)
    ensures
        f.link matches Some(ls) ==> (run_links(f).len() == ls@.len() && forall|k: int|
            0 <= k < ls@.len() ==> #[trigger] run_links(f)[k] == ls@[k].location@),
        f.link is None ==> run_links(f).len() == 0,
{
}

/// A run runs the script of every provision whose mode is `os`, and only
/// those, in the order the run file lists them.
pub proof fn lemma_run_scripts_for_every_matching_provision(ps: Seq<Provision>, os: Seq<char>)
    ensures
        scripts_for_os(ps, os) == ps.filter(|p: Provision| p.mode@ == os).map_values(
            |p: Provision| p.script@,
        ),
    decreases ps.len(),
{
    reveal(Seq::filter);
    if ps.len() > 0 {
        let init = ps.drop_last();
        lemma_run_scripts_for_every_matching_provision(init, os);
        let sub = init.filter(|p: Provision| p.mode@ == os);
        let g = |p: Provision| p.script@;
        assert(sub.push(ps.last()).map_values(g) =~= sub.map_values(g).push(g(ps.last())));
    }
}

} // verus!
