//! Reading a run file: the YAML text is loaded into documents, and the
//! first document's `link` and `provision` lists are picked out.
use vstd::prelude::*;
use crate::error::app_error::AppError;
use crate::models::yaml::{Link, Provision, RunFile};
use crate::text::str_eq;
use crate::utils::yaml_loader::{documents_result, load_documents, yaml_documents, YamlNode};

verus! {

/// The value under the string key `key` of a mapping; `BadValue` where the
/// node is no mapping or has no such key.
pub open spec fn lookup(y: YamlNode, key: Seq<char>) -> YamlNode {
    match y {
        YamlNode::Hash(entries) => lookup_entries(entries@, key),
        _ => YamlNode::BadValue,
    }
}

pub open spec fn lookup_entries(entries: Seq<(YamlNode, YamlNode)>, key: Seq<char>) -> YamlNode
    decreases entries.len(),
{
    if entries.len() == 0 {
        YamlNode::BadValue
    } else if entries[0].0 matches YamlNode::String(k) && k@ == key {
        entries[0].1
    } else {
        lookup_entries(entries.skip(1), key)
    }
}

/// The text of a string node.
pub open spec fn node_text(y: YamlNode) -> Option<Seq<char>> {
    match y {
        YamlNode::String(s) => Some(s@),
        _ => None,
    }
}

/// A link entry: its `location` text.
pub open spec fn spec_parse_link(y: YamlNode) -> Option<Seq<char>> {
    node_text(lookup(y, "location"@))
}

/// A provision entry: its `mode` and `script` texts, both needed.
pub open spec fn spec_parse_provision(y: YamlNode) -> Option<(Seq<char>, Seq<char>)> {
    match (node_text(lookup(y, "mode"@)), node_text(lookup(y, "script"@))) {
        (Some(m), Some(s)) => Some((m, s)),
        _ => None,
    }
}

/// The locations of the entries of a list that are links, in order.
pub open spec fn link_locations(items: Seq<YamlNode>) -> Seq<Seq<char>>
    decreases items.len(),
{
    if items.len() == 0 {
        Seq::empty()
    } else {
        let prev = link_locations(items.drop_last());
        match spec_parse_link(items.last()) {
            Some(l) => prev.push(l),
            None => prev,
        }
    }
}

/// The modes and scripts of the entries of a list that are provisions.
pub open spec fn provision_entries(items: Seq<YamlNode>) -> Seq<(Seq<char>, Seq<char>)>
    decreases items.len(),
{
    if items.len() == 0 {
        Seq::empty()
    } else {
        let prev = provision_entries(items.drop_last());
        match spec_parse_provision(items.last()) {
            Some(p) => prev.push(p),
            None => prev,
        }
    }
}

/// The links of a list node; `None` where the node is no list.
pub open spec fn spec_parse_links(y: YamlNode) -> Option<Seq<Seq<char>>> {
    match y {
        YamlNode::Array(items) => Some(link_locations(items@)),
        _ => None,
    }
}

/// The provisions of a list node; `None` where the node is no list.
pub open spec fn spec_parse_provisions(y: YamlNode) -> Option<Seq<(Seq<char>, Seq<char>)>> {
    match y {
        YamlNode::Array(items) => Some(provision_entries(items@)),
        _ => None,
    }
}

pub open spec fn links_view(v: Option<Vec<Link>>) -> Option<Seq<Seq<char>>> {
    match v {
        Some(ls) => Some(ls@.map_values(|l: Link| l.location@)),
        None => None,
    }
}

pub open spec fn provisions_view(v: Option<Vec<Provision>>) -> Option<Seq<(Seq<char>, Seq<char>)>> {
    match v {
        Some(ps) => Some(ps@.map_values(|p: Provision| (p.mode@, p.script@))),
        None => None,
    }
}

/// The run file that a document describes.
pub open spec fn spec_parse_yaml(doc: YamlNode, y: RunFile) -> bool {
    &&& links_view(y.link) == spec_parse_links(lookup(doc, "link"@))
    &&& provisions_view(y.provision) == spec_parse_provisions(lookup(doc, "provision"@))
}

/// What a run file's loaded documents give: the first document's run file,
/// or the loader's error; `None` where there is no document.
pub open spec fn spec_parse_loaded(
    loaded: Result<Seq<YamlNode>, Seq<char>>,
    res: Option<Result<RunFile, AppError>>,
) -> bool {
    match loaded {
        Err(msg) => res matches Some(Err(AppError::YamlParseError(m))) && m@ == msg,
        Ok(docs) => if docs.len() == 0 {
            res is None
        } else {
            res matches Some(Ok(y)) && spec_parse_yaml(docs[0], y)
        },
    }
}

/// What reading a run file's text gives.
pub open spec fn spec_parse_text(text: Seq<char>, res: Option<Result<RunFile, AppError>>) -> bool {
    spec_parse_loaded(yaml_documents(text), res)
}

/// Reads run files.
#[derive(Debug)]
pub struct YamlParser;

impl YamlParser {
    pub fn new() -> (res: Self) {
        YamlParser
    }

    /// The value under the string key `key`, as `yaml[key]` gives it:
    /// `None` stands for `BadValue`.
    pub fn lookup<'a>(&self, y: &'a YamlNode, key: &str) -> (res: Option<&'a YamlNode>)
        ensures
            lookup(*y, key@) == match res {
                Some(n) => *n,
                None => YamlNode::BadValue,
            },
    {
        match y {
            YamlNode::Hash(entries) => {
                let mut i: usize = 0;
                assert(entries@.skip(0) =~= entries@);
                while i < entries.len()
                    invariant
                        i <= entries@.len(),
                        lookup(*y, key@) == lookup_entries(entries@.skip(i as int), key@),
                    decreases entries@.len() - i,
                {
                    assert(entries@.skip(i as int).skip(1) =~= entries@.skip(i + 1));
                    assert(entries@.skip(i as int)[0] == entries@[i as int]);
                    let (k, v) = &entries[i];
                    assert(*k == entries@[i as int].0 && *v == entries@[i as int].1);
                    match k {
                        YamlNode::String(k) => {
                            if str_eq(k.as_str(), key) {
                                return Some(v);
                            }
                        },
                        _ => {},
                    }
                    i = i + 1;
                }
                None
            },
            _ => None,
        }
    }

    /// A link entry: `Some` where it has a string `location`.
    pub fn parse_link(&self, y: &YamlNode) -> (res: Option<Link>)
        ensures
            match res {
                Some(l) => spec_parse_link(*y) == Some(l.location@),
                None => spec_parse_link(*y) is None,
            },
    {
        match self.lookup(y, "location") {
            Some(YamlNode::String(s)) => Some(Link { location: s.clone() }),
            _ => None,
        }
    }

    /// A provision entry: `Some` where it has a string `mode` and `script`.
    pub fn parse_provision(&self, y: &YamlNode) -> (res: Option<Provision>)
        ensures
            match res {
                Some(p) => spec_parse_provision(*y) == Some((p.mode@, p.script@)),
                None => spec_parse_provision(*y) is None,
            },
    {
        let mode = match self.lookup(y, "mode") {
            Some(YamlNode::String(s)) => s.clone(),
            _ => {
                return None;
            },
        };
        let script = match self.lookup(y, "script") {
            Some(YamlNode::String(s)) => s.clone(),
            _ => {
                return None;
            },
        };
        Some(Provision { mode, script })
    }

    /// The link entries of a list, in order, others left out; `None` where
    /// the node is no list.
    pub fn parse_links(&self, y: &YamlNode) -> (res: Option<Vec<Link>>)
        ensures
            links_view(res) == spec_parse_links(*y),
    {
        match y {
            YamlNode::Array(items) => {
                let mut out: Vec<Link> = Vec::new();
                let mut i: usize = 0;
                while i < items.len()
                    invariant
                        i <= items@.len(),
                        out@.map_values(|l: Link| l.location@) == link_locations(items@.take(i as int)),
                    decreases items@.len() - i,
                {
                    assert(items@.take(i + 1).drop_last() =~= items@.take(i as int));
                    assert(items@.take(i + 1).last() == items@[i as int]);
                    let ghost before = out@.map_values(|l: Link| l.location@);
                    match self.parse_link(&items[i]) {
                        Some(l) => {
                            out.push(l);
                            assert(out@.map_values(|l: Link| l.location@) =~= before.push(
                                out@.last().location@,
                            ));
                        },
                        None => {},
                    }
                    i = i + 1;
                }
                assert(items@.take(items@.len() as int) =~= items@);
                Some(out)
            },
            _ => None,
        }
    }

    /// The provision entries of a list, in order, others left out; `None`
    /// where the node is no list.
    pub fn parse_provisions(&self, y: &YamlNode) -> (res: Option<Vec<Provision>>)
        ensures
            provisions_view(res) == spec_parse_provisions(*y),
    {
        match y {
            YamlNode::Array(items) => {
                let mut out: Vec<Provision> = Vec::new();
                let mut i: usize = 0;
                while i < items.len()
                    invariant
                        i <= items@.len(),
                        out@.map_values(|p: Provision| (p.mode@, p.script@)) == provision_entries(
                            items@.take(i as int),
                        ),
                    decreases items@.len() - i,
                {
                    assert(items@.take(i + 1).drop_last() =~= items@.take(i as int));
                    assert(items@.take(i + 1).last() == items@[i as int]);
                    let ghost before = out@.map_values(|p: Provision| (p.mode@, p.script@));
                    match self.parse_provision(&items[i]) {
                        Some(p) => {
                            out.push(p);
                            assert(out@.map_values(|p: Provision| (p.mode@, p.script@)) =~= before.push(
                                (out@.last().mode@, out@.last().script@),
                            ));
                        },
                        None => {},
                    }
                    i = i + 1;
                }
                assert(items@.take(items@.len() as int) =~= items@);
                Some(out)
            },
            _ => None,
        }
    }

    /// The run file a document describes: its `link` and `provision` lists.
    pub fn parse_yaml(&self, doc: &YamlNode) -> (res: RunFile)
        ensures
            spec_parse_yaml(*doc, res),
    {
        let link = match self.lookup(doc, "link") {
            Some(n) => self.parse_links(n),
            None => None,
        };
        let provision = match self.lookup(doc, "provision") {
            Some(n) => self.parse_provisions(n),
            None => None,
        };
        RunFile { link, provision }
    }

    /// The run file of the first loaded document, or the loader's error as
    /// a `YamlParseError`; `None` where no document was loaded.
    pub fn parse_loaded(&self, loaded: Result<Vec<YamlNode>, String>) -> (res: Option<
        Result<RunFile, AppError>,
    >)
        ensures
            spec_parse_loaded(documents_result(loaded), res),
    {
        match loaded {
            Err(msg) => Some(Err(AppError::YamlParseError(msg))),
            Ok(docs) => if docs.len() == 0 {
                None
            } else {
                Some(Ok(self.parse_yaml(&docs[0])))
            },
        }
    }

    /// Reads the text of a run file: the run file of its first document, or
    /// the loader's error as a `YamlParseError`. `None` where the text holds
    /// no document at all.
    pub fn parse_str(&self, text: &str) -> (res: Option<Result<RunFile, AppError>>)
        ensures
            spec_parse_text(text@, res),
    {
        self.parse_loaded(load_documents(text))
    }
}

} // verus!
