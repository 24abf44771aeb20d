//! File discovery: collect every schema source file under a directory tree.
//!
//! The walk itself (reading directories, testing file kinds, extracting
//! extensions) is operating-system work and stays outside the library; it
//! hands discovery a [`FsTree`] of plain values. Discovery then decides,
//! exactly as specified, which paths come back and when the walk fails.
use vstd::prelude::*;

verus! {

/// One file seen during the walk.
///
/// `is_proto` says whether the file's extension is exactly the schema source
/// extension. `path` holds the file's full path when it can be represented
/// as valid text, and `None` otherwise.
pub struct FileNode {
    pub is_proto: bool,
    pub path: Option<String>,
}

/// A directory tree as handed to discovery: a regular file, a directory with
/// its entries, or an entry that is neither (skipped by the walk).
pub enum FsTree {
    File(FileNode),
    Dir(Vec<FsTree>),
    Other,
}

/// Why discovery failed.
#[derive(Clone, Copy, PartialEq, Eq, Structural, Debug)]
pub enum DiscoveryError {
    /// The given root is not a directory.
    InvalidInput,
    /// A discovered schema file's path is not valid text.
    InvalidData,
}

/// The schema files of a tree, in visit order.
pub open spec fn proto_nodes(t: FsTree) -> Seq<FileNode>
    decreases t,
{
    match t {
        FsTree::File(f) => if f.is_proto {
            seq![f]
        } else {
            Seq::empty()
        },
        FsTree::Dir(entries) => proto_nodes_list(entries@),
        FsTree::Other => Seq::empty(),
    }
}

/// The schema files of a sequence of sibling trees, in visit order.
pub open spec fn proto_nodes_list(s: Seq<FsTree>) -> Seq<FileNode>
    decreases s,
{
    if s.len() == 0 {
        Seq::empty()
    } else {
        proto_nodes_list(s.drop_last()) + proto_nodes(s.last())
    }
}

/// Every schema file of the collection has a text-representable path.
pub open spec fn valid_paths(nodes: Seq<FileNode>) -> bool {
    forall|i: int| 0 <= i < nodes.len() ==> (#[trigger] nodes[i]).path is Some
}

/// The paths of the collected schema files.
pub open spec fn path_views(nodes: Seq<FileNode>) -> Seq<Seq<char>> {
    nodes.map_values(|f: FileNode| f.path.unwrap()@)
}

proof fn lemma_proto_nodes_list_concat(a: Seq<FsTree>, b: Seq<FsTree>)
    ensures
        proto_nodes_list(a + b) == proto_nodes_list(a) + proto_nodes_list(b),
    decreases b.len(),
{
    if b.len() == 0 {
        assert(a + b =~= a);
        assert(proto_nodes_list(a) + proto_nodes_list(b) =~= proto_nodes_list(a));
    } else {
        lemma_proto_nodes_list_concat(a, b.drop_last());
        assert((a + b).drop_last() =~= a + b.drop_last());
        assert((a + b).last() == b.last());
        assert(proto_nodes_list(a) + proto_nodes_list(b.drop_last()) + proto_nodes(b.last())
            =~= proto_nodes_list(a) + proto_nodes_list(b));
    }
}

proof fn lemma_valid_paths_concat(a: Seq<FileNode>, b: Seq<FileNode>)
    ensures
        valid_paths(a + b) <==> (valid_paths(a) && valid_paths(b)),
{
    if valid_paths(a + b) {
        assert forall|i: int| 0 <= i < a.len() implies (#[trigger] a[i]).path is Some by {
            assert((a + b)[i] == a[i]);
        }
        assert forall|i: int| 0 <= i < b.len() implies (#[trigger] b[i]).path is Some by {
            assert((a + b)[a.len() + i] == b[i]);
        }
    }
    if valid_paths(a) && valid_paths(b) {
        assert forall|i: int| 0 <= i < (a + b).len() implies (#[trigger] (a + b)[i]).path is Some
            by {
            if i < a.len() {
                assert((a + b)[i] == a[i]);
            } else {
                assert((a + b)[i] == b[i - a.len()]);
            }
        }
    }
}

proof fn lemma_path_views_concat(a: Seq<FileNode>, b: Seq<FileNode>)
    ensures
        path_views(a + b) == path_views(a) + path_views(b),
{
    assert(path_views(a + b) =~= path_views(a) + path_views(b));
}

/// Discovery returns one path per schema file: however deep the tree and
/// whatever non-schema files or empty subdirectories stand between, a
/// successful walk hands back exactly as many paths as the tree holds
/// schema files.
pub proof fn lemma_discovered_path_count(t: FsTree, paths: Seq<String>)
    requires
        crate::str_views(paths) == path_views(proto_nodes(t)),
    ensures
        paths.len() == proto_nodes(t).len(),
{
    assert(crate::str_views(paths).len() == paths.len());
}

/// Collects the schema file paths found anywhere under `base_dir`, recursing
/// into subdirectories at any depth.
///
/// Fails with `InvalidInput` when `base_dir` is not a directory, and with
/// `InvalidData` when some discovered schema file's path is not valid text;
/// otherwise returns exactly the schema files of the tree, one path each, in
/// visit order.
pub fn get_proto_files_recursive(base_dir: &FsTree) -> (r: Result<Vec<String>, DiscoveryError>)
    ensures
        match r {
            Ok(paths) => (*base_dir) is Dir && valid_paths(proto_nodes(*base_dir))
                && crate::str_views(paths@) == path_views(proto_nodes(*base_dir)),
            Err(e) => if e is InvalidInput {
                !((*base_dir) is Dir)
            } else {
                (*base_dir) is Dir && !valid_paths(proto_nodes(*base_dir))
            },
        },
{
    let mut proto_files: Vec<String> = Vec::new();
    if !matches!(base_dir, FsTree::Dir(_)) {
        return Err(DiscoveryError::InvalidInput);
    }
    match collect_proto_files_recursive_helper(base_dir, &mut proto_files) {
        Ok(()) => Ok(proto_files),
        Err(e) => Err(e),
    }
}

/// One step of the walk: visits `current`, appending the path of every
/// schema file under it to `proto_files`.
fn collect_proto_files_recursive_helper(current: &FsTree, proto_files: &mut Vec<String>) -> (r:
    Result<(), DiscoveryError>)
    ensures
        match r {
            Ok(()) => valid_paths(proto_nodes(*current)) && crate::str_views(
                final(proto_files)@,
            ) == crate::str_views(old(proto_files)@) + path_views(proto_nodes(*current)),
            Err(e) => e is InvalidData && !valid_paths(proto_nodes(*current)),
        },
    decreases *current,
{
    match current {
        FsTree::File(f) => {
            if f.is_proto {
                match &f.path {
                    Some(p) => {
                        proto_files.push(p.clone());
                        proof {
                            assert(proto_nodes(*current) =~= seq![*f]);
                            assert(seq![*f][0] == *f);
                            assert(valid_paths(proto_nodes(*current)));
                            assert(crate::str_views(proto_files@) =~= crate::str_views(
                                old(proto_files)@,
                            ) + path_views(proto_nodes(*current)));
                        }
                        Ok(())
                    },
                    None => Err(DiscoveryError::InvalidData),
                }
            } else {
                proof {
                    assert(crate::str_views(proto_files@) =~= crate::str_views(old(proto_files)@)
                        + path_views(proto_nodes(*current)));
                }
                Ok(())
            }
        },
        FsTree::Other => {
            proof {
                assert(crate::str_views(proto_files@) =~= crate::str_views(old(proto_files)@)
                    + path_views(proto_nodes(*current)));
            }
            Ok(())
        },
        FsTree::Dir(entries) => {
            let ghost all = entries@;
            let mut i: usize = 0;
            while i < entries.len()
                invariant
                    i <= entries.len(),
                    all == entries@,
                    *current == FsTree::Dir(*entries),
                    valid_paths(proto_nodes_list(all.take(i as int))),
                    crate::str_views(proto_files@) == crate::str_views(old(proto_files)@)
                        + path_views(proto_nodes_list(all.take(i as int))),
                decreases entries.len() - i,
            {
                proof {
                    assert(decreases_to!(*current => (*current)->Dir_0));
                    assert(decreases_to!((*current)->Dir_0 => (*current)->Dir_0@[i as int]));
                    assert((*current)->Dir_0@[i as int] == all[i as int]);
                    assert(decreases_to!(*current => all[i as int]));
                }
                let ghost prev = proto_files@;
                match collect_proto_files_recursive_helper(&entries[i], proto_files) {
                    Ok(()) => {},
                    Err(e) => {
                        proof {
                            assert(all =~= all.take(i as int + 1) + all.skip(i as int + 1));
                            lemma_proto_nodes_list_concat(
                                all.take(i as int + 1),
                                all.skip(i as int + 1),
                            );
                            assert(all.take(i as int + 1).drop_last() =~= all.take(i as int));
                            lemma_proto_nodes_list_concat(all.take(i as int), seq![all[i as int]]);
                            lemma_valid_paths_concat(
                                proto_nodes_list(all.take(i as int + 1)),
                                proto_nodes_list(all.skip(i as int + 1)),
                            );
                            lemma_valid_paths_concat(
                                proto_nodes_list(all.take(i as int)),
                                proto_nodes(all[i as int]),
                            );
                        }
                        return Err(e);
                    },
                }
                proof {
                    assert(all.take(i as int + 1).drop_last() =~= all.take(i as int));
                    assert(all.take(i as int + 1).last() == all[i as int]);
                    lemma_valid_paths_concat(
                        proto_nodes_list(all.take(i as int)),
                        proto_nodes(all[i as int]),
                    );
                    lemma_path_views_concat(
                        proto_nodes_list(all.take(i as int)),
                        proto_nodes(all[i as int]),
                    );
                    assert(crate::str_views(prev) + path_views(proto_nodes(all[i as int]))
                        =~= crate::str_views(proto_files@));
                    assert(crate::str_views(proto_files@) =~= crate::str_views(old(proto_files)@)
                        + path_views(proto_nodes_list(all.take(i as int + 1))));
                }
                i += 1;
            }
            proof {
                assert(all.take(all.len() as int) =~= all);
            }
            Ok(())
        },
    }
}

} // verus!
