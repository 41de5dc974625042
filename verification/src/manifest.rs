//! Manifest data model: a declarative document with up to three mappings
//! (symlink, copy, template) from target path strings to source path strings,
//! plus an optional bootstrap section, and the flat entry list derived from it.

use vstd::prelude::*;

verus! {

/// Which package manager installs a package (bootstrap section).
#[derive(Clone, Copy, Debug, PartialEq, Eq, Hash, Structural)]
pub enum PackageManager {
    Apt,
    Brew,
    Flatpak,
    Pacman,
    Dnf,
}

/// One package to install during bootstrap.
#[derive(Debug)]
pub struct Package {
    pub manager: PackageManager,
    pub name: String,
}

/// One setup script to run during bootstrap.
#[derive(Debug)]
pub struct RunOnce {
    pub script: String,
    pub description: Option<String>,
}

/// The bootstrap section of the manifest: packages and one-time scripts.
#[derive(Debug)]
pub struct BootstrapConfig {
    pub packages: Option<Vec<Package>>,
    pub run_once: Option<Vec<RunOnce>>,
}

/// The manifest document. Each mapping is a list of
/// (target path string, source path string) pairs; target strings may use
/// `~` and environment-variable notation, source strings are taken verbatim.
#[derive(Debug)]
pub struct DotfilesManifest {
    pub symlink: Option<Vec<(String, String)>>,
    pub copy: Option<Vec<(String, String)>>,
    pub template: Option<Vec<(String, String)>>,
    pub bootstrap: Option<BootstrapConfig>,
}

/// The placement strategy of one entry; fixed at creation and fully
/// determining how the sync engine places the entry.
#[derive(Clone, Copy, Debug, PartialEq, Eq, Structural)]
pub enum EntryType {
    Symlink,
    Copy,
    Template,
}

/// One entry of the flat list the parser produces: `target` is fully
/// expanded, `source` is verbatim from the manifest.
#[derive(Debug)]
pub struct DotfileEntry {
    pub source: String,
    pub target: String,
    pub entry_type: EntryType,
}

/// The mathematical content of a `DotfileEntry`.
pub struct EntryModel {
    pub source: Seq<char>,
    pub target: Seq<char>,
    pub entry_type: EntryType,
}

impl View for DotfileEntry {
    type V = EntryModel;

    open spec fn view(&self) -> EntryModel {
        EntryModel { source: self.source@, target: self.target@, entry_type: self.entry_type }
    }
}

/// The models of a sequence of entries.
pub open spec fn entry_models(es: Seq<DotfileEntry>) -> Seq<EntryModel> {
    es.map_values(|e: DotfileEntry| e@)
}

/// A target path string of the manifest failed to expand; parsing stops at
/// the first such failure. Carries the offending target string.
#[derive(Debug)]
pub struct PathExpansionError {
    pub target: String,
}

/// Target keys within one mapping are unique, as the map semantics of the
/// document format enforce.
pub open spec fn spec_mapping_keys_unique(o: Option<Vec<(String, String)>>) -> bool {
    match o {
        None => true,
        Some(v) => forall|i: int, j: int|
            #![trigger v@[i], v@[j]]
            0 <= i < j < v@.len() ==> v@[i].0@ != v@[j].0@,
    }
}

/// A well-formed manifest document: each of its mappings has unique target
/// keys.
pub open spec fn spec_manifest_wf(m: DotfilesManifest) -> bool {
    spec_mapping_keys_unique(m.symlink) && spec_mapping_keys_unique(m.copy)
        && spec_mapping_keys_unique(m.template)
}

/// The (target, source, kind) triples of one optional mapping.
pub open spec fn spec_mapping_models(o: Option<Vec<(String, String)>>, k: EntryType) -> Seq<
    (Seq<char>, Seq<char>, EntryType),
> {
    match o {
        None => Seq::empty(),
        Some(v) => v@.map_values(|p: (String, String)| (p.0@, p.1@, k)),
    }
}

/// All (target, source, kind) triples of a manifest, in sync order:
/// the symlink mapping, then copy, then template.
pub open spec fn spec_manifest_pairs(m: DotfilesManifest) -> Seq<(Seq<char>, Seq<char>, EntryType)> {
    spec_mapping_models(m.symlink, EntryType::Symlink) + spec_mapping_models(
        m.copy,
        EntryType::Copy,
    ) + spec_mapping_models(m.template, EntryType::Template)
}

/// The entry list parsed from `ps`: each target expanded over `home` and
/// `env`, each source verbatim; `Err` carries the first target string whose
/// expansion fails, and nothing is produced past it.
pub open spec fn spec_parse_entries(
    ps: Seq<(Seq<char>, Seq<char>, EntryType)>,
    home: Seq<char>,
    env: Seq<(String, String)>,
) -> Result<Seq<EntryModel>, Seq<char>>
    decreases ps.len(),
{
    if ps.len() == 0 {
        Ok(Seq::empty())
    } else {
        match crate::resolver::spec_expand_path(ps[0].0, home, env) {
            None => Err(ps[0].0),
            Some(t) => match spec_parse_entries(ps.skip(1), home, env) {
                Err(e) => Err(e),
                Ok(rest) => Ok(
                    seq![EntryModel { source: ps[0].1, target: t, entry_type: ps[0].2 }] + rest,
                ),
            },
        }
    }
}

/// Parsing a concatenation parses the left part first and, only when every
/// left target expands, the right part after it.
pub proof fn lemma_parse_entries_append(
    a: Seq<(Seq<char>, Seq<char>, EntryType)>,
    b: Seq<(Seq<char>, Seq<char>, EntryType)>,
    home: Seq<char>,
    env: Seq<(String, String)>,
)
    ensures
        spec_parse_entries(a + b, home, env) == (match spec_parse_entries(a, home, env) {
            Err(t) => Err::<Seq<EntryModel>, Seq<char>>(t),
            Ok(ea) => match spec_parse_entries(b, home, env) {
                Err(t) => Err(t),
                Ok(eb) => Ok(ea + eb),
            },
        }),
    decreases a.len(),
{
    if a.len() == 0 {
        assert(a + b =~= b);
        match spec_parse_entries(b, home, env) {
            Err(_) => {},
            Ok(eb) => {
                assert(Seq::<EntryModel>::empty() + eb =~= eb);
            },
        }
    } else {
        lemma_parse_entries_append(a.skip(1), b, home, env);
        assert((a + b)[0] == a[0]);
        assert((a + b).skip(1) =~= a.skip(1) + b);
        match crate::resolver::spec_expand_path(a[0].0, home, env) {
            None => {},
            Some(t) => {
                let head = seq![
                    EntryModel { source: a[0].1, target: t, entry_type: a[0].2 },
                ];
                match spec_parse_entries(a.skip(1), home, env) {
                    Err(_) => {},
                    Ok(ea1) => {
                        match spec_parse_entries(b, home, env) {
                            Err(_) => {},
                            Ok(eb) => {
                                assert(head + (ea1 + eb) =~= (head + ea1) + eb);
                            },
                        }
                    },
                }
            },
        }
    }
}

/// Builds one entry: the target expanded, the source verbatim; fails, with
/// the target string, exactly when expansion fails.
pub fn parse_entry(
    target: &str,
    source: &str,
    entry_type: EntryType,
    home: &String,
    env: &Vec<(String, String)>,
) -> (r: Result<DotfileEntry, PathExpansionError>)
    ensures
        match r {
            Ok(e) => crate::resolver::spec_expand_path(target@, home@, env@) == Some(e.target@)
                && e.source@ == source@ && e.entry_type == entry_type,
            Err(pe) => crate::resolver::spec_expand_path(target@, home@, env@) is None
                && pe.target@ == target@,
        },
{
    match crate::resolver::expand_path(target, home, env) {
        Ok(t) => Ok(DotfileEntry { source: source.to_owned(), target: t, entry_type }),
        Err(_) => Err(PathExpansionError { target: target.to_owned() }),
    }
}

/// Parses one mapping's pairs in order, stopping at the first target whose
/// expansion fails.
fn parse_group(
    pairs: &Vec<(String, String)>,
    entry_type: EntryType,
    home: &String,
    env: &Vec<(String, String)>,
) -> (r: Result<Vec<DotfileEntry>, PathExpansionError>)
    ensures
        ({
            let ps = spec_mapping_models(Some(*pairs), entry_type);
            match r {
                Ok(es) => spec_parse_entries(ps, home@, env@) == Ok::<Seq<EntryModel>, Seq<char>>(
                    entry_models(es@),
                ),
                Err(pe) => spec_parse_entries(ps, home@, env@) == Err::<
                    Seq<EntryModel>,
                    Seq<char>,
                >(pe.target@) && crate::resolver::spec_expand_path(pe.target@, home@, env@)
                    is None,
            }
        }),
{
    let ghost ps = spec_mapping_models(Some(*pairs), entry_type);
    let mut out: Vec<DotfileEntry> = Vec::new();
    let mut i: usize = 0;
    proof {
        assert(ps.skip(0) =~= ps);
        assert(entry_models(out@) =~= Seq::<EntryModel>::empty());
    }
    while i < pairs.len()
        invariant
            i <= pairs@.len(),
            ps == spec_mapping_models(Some(*pairs), entry_type),
            ps.len() == pairs@.len(),
            ({
                let sp = spec_parse_entries(ps.skip(i as int), home@, env@);
                let spf = spec_parse_entries(ps, home@, env@);
                match sp {
                    Ok(rest) => spf == Ok::<Seq<EntryModel>, Seq<char>>(
                        entry_models(out@) + rest,
                    ),
                    Err(t) => spf == Err::<Seq<EntryModel>, Seq<char>>(t),
                }
            }),
        decreases pairs@.len() - i,
    {
        proof {
            assert(ps.skip(i as int)[0] == ps[i as int]);
            assert(ps.skip(i as int).skip(1) =~= ps.skip(i + 1));
            assert(ps[i as int] == (pairs@[i as int].0@, pairs@[i as int].1@, entry_type));
        }
        let ghost prev = out@;
        match parse_entry(pairs[i].0.as_str(), pairs[i].1.as_str(), entry_type, home, env) {
            Ok(e) => {
                proof {
                    assert(e@ == EntryModel {
                        source: ps[i as int].1,
                        target: e.target@,
                        entry_type: ps[i as int].2,
                    });
                }
                out.push(e);
                proof {
                    assert(entry_models(out@) =~= entry_models(prev).push(out@[out@.len() - 1]@));
                    let sp1 = spec_parse_entries(ps.skip(i + 1), home@, env@);
                    match sp1 {
                        Ok(rest) => {
                            assert(entry_models(prev) + (seq![
                                out@[out@.len() - 1]@,
                            ] + rest) =~= entry_models(out@) + rest);
                        },
                        Err(_) => {},
                    }
                }
            },
            Err(pe) => {
                return Err(pe);
            },
        }
        i = i + 1;
    }
    proof {
        assert(ps.skip(pairs@.len() as int) =~= Seq::<(Seq<char>, Seq<char>, EntryType)>::empty());
        assert(entry_models(out@) + Seq::<EntryModel>::empty() =~= entry_models(out@));
    }
    Ok(out)
}

/// Parses a manifest into its flat entry list: the symlink mapping, then
/// copy, then template, each target expanded over `home` and `env` and each
/// source taken verbatim. Stops at the first target whose expansion fails
/// and returns it; no partial list is produced.
pub fn parse_manifest(manifest: &DotfilesManifest, home: &String, env: &Vec<(String, String)>) -> (r:
    Result<Vec<DotfileEntry>, PathExpansionError>)
    requires
        spec_manifest_wf(*manifest),
    ensures
        ({
            let sp = spec_parse_entries(spec_manifest_pairs(*manifest), home@, env@);
            match r {
                Ok(es) => sp == Ok::<Seq<EntryModel>, Seq<char>>(
                    entry_models(es@),
                ),
                Err(pe) => sp == Err::<Seq<EntryModel>, Seq<char>>(pe.target@)
                    && crate::resolver::spec_expand_path(pe.target@, home@, env@) is None,
            }
        }),
{
    let ghost sym = spec_mapping_models(manifest.symlink, EntryType::Symlink);
    let ghost cop = spec_mapping_models(manifest.copy, EntryType::Copy);
    let ghost tem = spec_mapping_models(manifest.template, EntryType::Template);
    proof {
        lemma_parse_entries_append(sym, cop + tem, home@, env@);
        lemma_parse_entries_append(cop, tem, home@, env@);
        assert(spec_manifest_pairs(*manifest) =~= sym + (cop + tem));
    }
    let mut entries: Vec<DotfileEntry> = Vec::new();
    match &manifest.symlink {
        None => {
            proof {
                assert(sym =~= Seq::<(Seq<char>, Seq<char>, EntryType)>::empty());
                assert(entry_models(Seq::<DotfileEntry>::empty()) =~= Seq::<EntryModel>::empty());
                assert(spec_parse_entries(
                    Seq::<(Seq<char>, Seq<char>, EntryType)>::empty(),
                    home@,
                    env@,
                ) == Ok::<Seq<EntryModel>, Seq<char>>(Seq::<EntryModel>::empty()));
            }
        },
        Some(v) => {
            proof {
                assert(manifest.symlink == Some(*v));
            }
            match parse_group(v, EntryType::Symlink, home, env) {
                Ok(mut es) => {
                    let ghost ges = es@;
                    entries.append(&mut es);
                    proof {
                        assert(entries@ =~= ges);
                    }
                },
                Err(pe) => {
                    return Err(pe);
                },
            }
        },
    }
    let ghost sym_es = entry_models(entries@);
    let mut copy_entries: Vec<DotfileEntry> = Vec::new();
    match &manifest.copy {
        None => {
            proof {
                assert(cop =~= Seq::<(Seq<char>, Seq<char>, EntryType)>::empty());
                assert(entry_models(Seq::<DotfileEntry>::empty()) =~= Seq::<EntryModel>::empty());
                assert(spec_parse_entries(
                    Seq::<(Seq<char>, Seq<char>, EntryType)>::empty(),
                    home@,
                    env@,
                ) == Ok::<Seq<EntryModel>, Seq<char>>(Seq::<EntryModel>::empty()));
            }
        },
        Some(v) => {
            proof {
                assert(manifest.copy == Some(*v));
            }
            match parse_group(v, EntryType::Copy, home, env) {
                Ok(mut es) => {
                    let ghost ges = es@;
                    copy_entries.append(&mut es);
                    proof {
                        assert(copy_entries@ =~= ges);
                    }
                },
                Err(pe) => {
                    return Err(pe);
                },
            }
        },
    }
    let ghost cop_es = entry_models(copy_entries@);
    let mut template_entries: Vec<DotfileEntry> = Vec::new();
    match &manifest.template {
        None => {
            proof {
                assert(tem =~= Seq::<(Seq<char>, Seq<char>, EntryType)>::empty());
                assert(entry_models(Seq::<DotfileEntry>::empty()) =~= Seq::<EntryModel>::empty());
                assert(spec_parse_entries(
                    Seq::<(Seq<char>, Seq<char>, EntryType)>::empty(),
                    home@,
                    env@,
                ) == Ok::<Seq<EntryModel>, Seq<char>>(Seq::<EntryModel>::empty()));
            }
        },
        Some(v) => {
            proof {
                assert(manifest.template == Some(*v));
            }
            match parse_group(v, EntryType::Template, home, env) {
                Ok(mut es) => {
                    let ghost ges = es@;
                    template_entries.append(&mut es);
                    proof {
                        assert(template_entries@ =~= ges);
                    }
                },
                Err(pe) => {
                    return Err(pe);
                },
            }
        },
    }
    let ghost tem_es = entry_models(template_entries@);
    entries.append(&mut copy_entries);
    entries.append(&mut template_entries);
    proof {
        assert(spec_parse_entries(sym, home@, env@) == Ok::<Seq<EntryModel>, Seq<char>>(sym_es));
        assert(spec_parse_entries(cop, home@, env@) == Ok::<Seq<EntryModel>, Seq<char>>(cop_es));
        assert(spec_parse_entries(tem, home@, env@) == Ok::<Seq<EntryModel>, Seq<char>>(tem_es));
        assert(entry_models(entries@) =~= sym_es + (cop_es + tem_es));
    }
    Ok(entries)
}

} // verus!
