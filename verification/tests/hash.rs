use famo::hash::gen_biguint;
use famo::hash::hex;
use famo::hash::read;
use famo::hash::read_dir;
use famo::hash::read_file;
use famo::hash::sum;
use famo::hash::unique_contents;
use famo::hash::FilesystemError;
use famo::hash::Node;
use num::bigint::BigUint;

fn file(path: &str, contents: &[u8]) -> Node {
    Node::File { path: path.to_owned(), contents: Some(contents.to_vec()) }
}

fn dir(path: &str, entries: Vec<Node>) -> Node {
    Node::Dir { path: path.to_owned(), entries: Some(entries) }
}

#[test]
fn gen_biguint_success() {
    let string = "famo".to_owned();
    let n = gen_biguint(string.as_bytes());

    assert_eq!(
        "70685181624748995639890562460754138405737812120862994921776424960744339326042"
            .to_owned(),
        format!("{}", n)
    );
}

#[test]
fn unique_contents_of_single_file() {
    let bytes = vec![
        48, 102, 105, 120, 116, 117, 114, 101, 115, 47,
        117, 110, 105, 113, 117, 101, 95, 99, 111, 110,
        116, 101, 110, 116, 115, 95, 111, 102, 95, 115,
        105, 110, 103, 108, 101, 95, 102, 105, 108, 101,
        47, 102, 105, 108, 101
    ];

    let path = "fixtures/unique_contents_of_single_file/file";
    let v = unique_contents(path, &Some(vec![48])).unwrap();

    assert_eq!(v, bytes);
}

#[test]
fn unique_contents_are_not_same_if_paths_are_different() {
    let path0 = "fixtures/unique_contents_are_not_same_if_paths_are_different/file0";
    let path1 = "fixtures/unique_contents_are_not_same_if_paths_are_different/file1";

    let v0 = unique_contents(path0, &Some(vec![48])).unwrap();
    let v1 = unique_contents(path1, &Some(vec![48])).unwrap();

    assert_ne!(v0, v1);
}

#[test]
fn unique_contents_of_unreadable_file_is_an_error() {
    let e = unique_contents("secret/file", &None).unwrap_err();
    assert_eq!(e, FilesystemError { path: "secret/file".to_owned() });
}

#[test]
fn gen_biguint_differs_from_its_input() {
    let n = gen_biguint(&[1, 0]);
    assert_ne!(n, BigUint::from_bytes_be(&[1, 0]));
}

#[test]
fn hex_of_nothing_is_zero() {
    assert_eq!(hex(&vec![]).unwrap(), "0");
    assert_eq!(sum(&vec![]).unwrap(), BigUint::from(0u32));
    assert!(read(&vec![]).unwrap().is_empty());
}

#[test]
fn hex_of_one_file_is_its_digest() {
    let nodes = vec![file("mo", b"fa")];
    assert_eq!(
        hex(&nodes).unwrap(),
        "9c4665207323c7e9c4a8208db4093cc138135b0d697097680ed877d34894c45a"
    );
}

#[test]
fn hex_sums_without_reduction() {
    let nodes = vec![file("a.txt", b"hello"), file("dir/b.txt", b"world")];
    assert_eq!(
        hex(&nodes).unwrap(),
        "1de8fc8688e9d5b8c8b034da09ab3add1b159ab3016b8e8683b64e8fb15f2bc4b"
    );
}

#[test]
fn hex_does_not_depend_on_order() {
    let a = vec![file("a.txt", b"hello"), Node::Other, dir("dir", vec![file("dir/b.txt", b"world")])];
    let b = vec![dir("dir", vec![file("dir/b.txt", b"world")]), file("a.txt", b"hello"), Node::Other];
    assert_eq!(hex(&a).unwrap(), hex(&b).unwrap());
    assert_eq!(
        hex(&a).unwrap(),
        "1de8fc8688e9d5b8c8b034da09ab3add1b159ab3016b8e8683b64e8fb15f2bc4b"
    );
}

#[test]
fn hex_changes_with_one_byte_or_a_new_name() {
    let first = hex(&vec![file("a.txt", b"hello")]).unwrap();
    let changed = hex(&vec![file("a.txt", b"hellp")]).unwrap();
    let renamed = hex(&vec![file("b.txt", b"hello")]).unwrap();
    assert_eq!(first, "e5725f31051d3822b5851fbbd9d3f6d693d11d2b7e80550bd824857871e296f2");
    assert_ne!(first, changed);
    assert_ne!(first, renamed);
}

#[test]
fn absent_paths_are_skipped() {
    let with = vec![Node::Other, file("a.txt", b"hello"), dir("empty", vec![])];
    let without = vec![file("a.txt", b"hello")];
    assert_eq!(hex(&with).unwrap(), hex(&without).unwrap());
}

#[test]
fn read_walks_directories_in_order() {
    let nodes = vec![
        dir("dir", vec![file("dir/b.txt", b"world"), dir("dir/sub", vec![file("mo", b"fa")])]),
        file("a.txt", b"hello"),
    ];
    let v = read(&nodes).unwrap();
    assert_eq!(
        v,
        vec![gen_biguint(b"worlddir/b.txt"), gen_biguint(b"famo"), gen_biguint(b"helloa.txt")]
    );
}

#[test]
fn first_unreadable_path_is_reported() {
    let nodes = vec![
        file("a.txt", b"hello"),
        dir(
            "dir",
            vec![
                Node::File { path: "dir/locked".to_owned(), contents: None },
                Node::Dir { path: "dir/closed".to_owned(), entries: None },
            ],
        ),
    ];
    assert_eq!(hex(&nodes).unwrap_err(), FilesystemError { path: "dir/locked".to_owned() });
    assert_eq!(sum(&nodes).unwrap_err(), FilesystemError { path: "dir/locked".to_owned() });
    assert_eq!(read(&nodes).unwrap_err(), FilesystemError { path: "dir/locked".to_owned() });
}

#[test]
fn read_file_pushes_one_digest() {
    let mut v = vec![BigUint::from(7u32)];
    read_file("mo", &Some(b"fa".to_vec()), &mut v).unwrap();
    assert_eq!(v, vec![BigUint::from(7u32), gen_biguint(b"famo")]);
    let e = read_file("locked", &None, &mut v).unwrap_err();
    assert_eq!(e.path, "locked");
    assert_eq!(v.len(), 2);
}

#[test]
fn read_dir_keeps_what_was_read_before_a_failure() {
    let mut v = Vec::new();
    let entries = Some(vec![
        file("d/a", b"1"),
        Node::Dir { path: "d/closed".to_owned(), entries: None },
        file("d/b", b"2"),
    ]);
    let e = read_dir("d", &entries, &mut v).unwrap_err();
    assert_eq!(e.path, "d/closed");
    assert_eq!(v, vec![gen_biguint(b"1d/a")]);

    let mut w = Vec::new();
    let e = read_dir("gone", &None, &mut w).unwrap_err();
    assert_eq!(e.path, "gone");
    assert!(w.is_empty());
}
