use protocheck_build::discovery::{DiscoveryError, FileNode, FsTree};
use protocheck_build::get_proto_files_recursive;

fn proto(path: &str) -> FsTree {
    FsTree::File(FileNode { is_proto: true, path: Some(path.to_string()) })
}

fn plain(path: &str) -> FsTree {
    FsTree::File(FileNode { is_proto: false, path: Some(path.to_string()) })
}

#[test]
fn collects_every_schema_file_at_any_depth() {
    let tree = FsTree::Dir(vec![
        proto("r/a.proto"),
        plain("r/readme.md"),
        FsTree::Dir(vec![
            FsTree::Dir(vec![]),
            proto("r/sub/deep/b.proto"),
            FsTree::Other,
            plain("r/sub/notes.txt"),
        ]),
        FsTree::Dir(vec![proto("r/other/c.proto")]),
        FsTree::Dir(vec![]),
    ]);
    let paths = get_proto_files_recursive(&tree).unwrap();
    assert_eq!(
        paths,
        vec![
            "r/a.proto".to_string(),
            "r/sub/deep/b.proto".to_string(),
            "r/other/c.proto".to_string(),
        ]
    );
}

#[test]
fn empty_directory_yields_no_paths() {
    let tree = FsTree::Dir(vec![]);
    let paths = get_proto_files_recursive(&tree).unwrap();
    assert!(paths.is_empty());
}

#[test]
fn non_directory_input_is_invalid_input() {
    let file = proto("a.proto");
    assert_eq!(get_proto_files_recursive(&file), Err(DiscoveryError::InvalidInput));
    assert_eq!(get_proto_files_recursive(&FsTree::Other), Err(DiscoveryError::InvalidInput));
}

#[test]
fn schema_file_without_text_path_is_invalid_data() {
    let tree = FsTree::Dir(vec![
        proto("r/a.proto"),
        FsTree::Dir(vec![FsTree::File(FileNode { is_proto: true, path: None })]),
    ]);
    assert_eq!(get_proto_files_recursive(&tree), Err(DiscoveryError::InvalidData));
}

#[test]
fn non_schema_file_without_text_path_is_skipped() {
    let tree = FsTree::Dir(vec![
        FsTree::File(FileNode { is_proto: false, path: None }),
        proto("r/a.proto"),
    ]);
    let paths = get_proto_files_recursive(&tree).unwrap();
    assert_eq!(paths, vec!["r/a.proto".to_string()]);
}
