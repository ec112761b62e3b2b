//! The fingerprint engine: one digest per watched file, summed without
//! reduction, rendered as lowercase hexadecimal.

use num::bigint::BigUint;
use num::Zero;
use sha2::Digest;
use sha2::Sha256;
use vstd::prelude::*;
use vstd::utf8::encode_utf8;

verus! {

/// The arbitrary-precision unsigned integer of the `num` crate.
#[verifier::external_type_specification]
#[verifier::external_body]
pub struct ExBigUint(BigUint);

/// The natural number that a `BigUint` holds.
pub uninterp spec fn biguint_value(n: BigUint) -> nat;

/// The SHA-256 digest of a byte string, as `sha2::Sha256` computes it.
pub uninterp spec fn sha256(bytes: Seq<u8>) -> Seq<u8>;

/// What was found at a watched path, as plain values.
#[derive(Debug)]
pub enum Node {
    /// A regular file. `contents` is `None` where the file could not be read.
    File { path: String, contents: Option<Vec<u8>> },
    /// A directory. `entries` is `None` where it could not be listed.
    Dir { path: String, entries: Option<Vec<Node>> },
    /// Nothing, or something that is neither a file nor a directory.
    Other,
}

/// A watched file could not be read, or a watched directory not listed.
#[derive(Debug, Clone, PartialEq, Eq)]
pub struct FilesystemError {
    pub path: String,
}

/// The result of walking watched nodes in order: the digests of the files
/// met before the first failure, and the path that failed, if one did.
pub struct Walk {
    pub digests: Seq<nat>,
    pub failure: Option<Seq<char>>,
}

/// The value of a byte string read as a big-endian number.
pub open spec fn be_value(bytes: Seq<u8>) -> nat
    decreases bytes.len(),
{
    if bytes.len() == 0 {
        0
    } else {
        be_value(bytes.drop_last()) * 256 + bytes.last() as nat
    }
}

/// The bytes that stand for one file: its contents, then its path.
pub open spec fn unique_bytes(path: Seq<char>, contents: Seq<u8>) -> Seq<u8> {
    contents + encode_utf8(path)
}

/// The number that one file contributes to the fingerprint.
pub open spec fn file_digest(path: Seq<char>, contents: Seq<u8>) -> nat {
    be_value(sha256(unique_bytes(path, contents)))
}

/// The walk of one file: its digest, or its path where it could not be read.
pub open spec fn walk_file(path: Seq<char>, contents: Option<Vec<u8>>) -> Walk {
    match contents {
        Some(c) => Walk { digests: seq![file_digest(path, c@)], failure: None },
        None => Walk { digests: Seq::empty(), failure: Some(path) },
    }
}

/// The walk of one node: a file, a directory with all that is under it, or
/// nothing.
pub open spec fn walk_node(node: Node) -> Walk
    decreases node,
{
    match node {
        Node::File { path, contents } => walk_file(path@, contents),
        Node::Dir { path, entries } => walk_dir(path@, entries),
        Node::Other => Walk { digests: Seq::empty(), failure: None },
    }
}

/// The walk of a directory's entries, or its path where it could not be
/// listed.
pub open spec fn walk_dir(path: Seq<char>, entries: Option<Vec<Node>>) -> Walk
    decreases entries,
{
    match entries {
        Some(es) => walk_seq(es@),
        None => Walk { digests: Seq::empty(), failure: Some(path) },
    }
}

/// Walks the nodes from first to last and stops at the first failure.
pub open spec fn walk_seq(nodes: Seq<Node>) -> Walk
    decreases nodes,
{
    if nodes.len() == 0 {
        Walk { digests: Seq::empty(), failure: None }
    } else {
        let init = walk_seq(nodes.drop_last());
        if init.failure is Some {
            init
        } else {
            let last = walk_node(nodes.last());
            Walk { digests: init.digests + last.digests, failure: last.failure }
        }
    }
}

/// The numbers that a vector of big integers holds.
pub open spec fn values(v: Seq<BigUint>) -> Seq<nat> {
    v.map_values(|n: BigUint| biguint_value(n))
}

/// The sum of a sequence of numbers.
pub open spec fn total(s: Seq<nat>) -> nat
    decreases s.len(),
{
    if s.len() == 0 {
        0
    } else {
        total(s.drop_last()) + s.last()
    }
}

/// The lowercase hexadecimal digit of a number below 16.
pub open spec fn hex_digit(d: nat) -> char {
    seq!['0', '1', '2', '3', '4', '5', '6', '7', '8', '9', 'a', 'b', 'c', 'd', 'e', 'f'][d as int]
}

/// A number in lowercase hexadecimal, without leading zeros; zero is `0`.
pub open spec fn hex_digits(n: nat) -> Seq<char>
    decreases n,
{
    if n < 16 {
        seq![hex_digit(n)]
    } else {
        hex_digits(n / 16).push(hex_digit(n % 16))
    }
}

/// `Sha256::new`, `input` and `result` of `sha2`: the digest of `bytes`.
/// It is believed to be the named function of the input; nothing is proved
/// of the hash itself.
#[verifier::external_body]
fn sha256_digest(bytes: &[u8]) -> (digest: Vec<u8>)
    ensures
        digest@ == sha256(bytes@),
{
    let mut hasher = Sha256::new();
    hasher.input(bytes);
    hasher.result().to_vec()
}

/// `BigUint::from_bytes_be` of `num`: the number whose big-endian digits in
/// base 256 are `bytes`; zero for no bytes.
#[verifier::external_body]
fn biguint_from_bytes_be(bytes: &[u8]) -> (n: BigUint)
    ensures
        biguint_value(n) == be_value(bytes@),
{
    BigUint::from_bytes_be(bytes)
}

/// `Zero::zero` of `num` for `BigUint`: the number zero.
#[verifier::external_body]
fn biguint_zero() -> (n: BigUint)
    ensures
        biguint_value(n) == 0,
{
    BigUint::zero()
}

/// `BigUint + &BigUint` of `num`: the exact sum, of unbounded width.
#[verifier::external_body]
fn biguint_add(a: BigUint, b: &BigUint) -> (r: BigUint)
    ensures
        biguint_value(r) == biguint_value(a) + biguint_value(*b),
{
    a + b
}

/// `LowerHex` of `num` for `BigUint`, without flags: the digits in base 16,
/// lowercase, no prefix, no leading zeros.
#[verifier::external_body]
fn biguint_lower_hex(n: &BigUint) -> (s: String)
    ensures
        s@ == hex_digits(biguint_value(*n)),
{
    format!("{:x}", n)
}

/// The bytes that are hashed for one file: its contents followed by the raw
/// bytes of its path. Fails where the contents could not be read.
pub fn unique_contents(path: &str, contents: &Option<Vec<u8>>) -> (r: Result<Vec<u8>, FilesystemError>)
    ensures
        match r {
            Ok(bytes) => contents is Some && bytes@ == unique_bytes(path@, contents->0@),
            Err(e) => contents is None && e.path@ == path@,
        },
{
    match contents {
        Some(c) => {
            let mut bytes = c.clone();
            let mut tail = path.as_bytes_vec();
            bytes.append(&mut tail);
            Ok(bytes)
        },
        None => Err(FilesystemError { path: path.to_owned() }),
    }
}

/// The SHA-256 digest of `bytes`, read as a big-endian number.
pub fn gen_biguint(bytes: &[u8]) -> (n: BigUint)
    ensures
        biguint_value(n) == be_value(sha256(bytes@)),
{
    let digest = sha256_digest(bytes);
    biguint_from_bytes_be(digest.as_slice())
}


/// Pushes the digest of one file onto `v`, or fails where the file could not
/// be read, leaving `v` as it was.
pub fn read_file(path: &str, contents: &Option<Vec<u8>>, v: &mut Vec<BigUint>) -> (r: Result<
    (),
    FilesystemError,
>)
    ensures
        values(final(v)@) == values(old(v)@) + walk_file(path@, *contents).digests,
        match r {
            Ok(_) => walk_file(path@, *contents).failure is None,
            Err(e) => walk_file(path@, *contents).failure == Some(e.path@),
        },
{
    match unique_contents(path, contents) {
        Ok(c) => {
            let n = gen_biguint(c.as_slice());
            v.push(n);
            proof {
                assert(values(v@) =~= values(old(v)@) + walk_file(path@, *contents).digests);
            }
            Ok(())
        },
        Err(e) => {
            proof {
                assert(values(v@) =~= values(old(v)@) + walk_file(path@, *contents).digests);
            }
            Err(e)
        },
    }
}

/// Walks a directory's entries in order, directories within it included, and
/// pushes the digest of each file onto `v`, up to the first failure.
pub fn read_dir(path: &str, entries: &Option<Vec<Node>>, v: &mut Vec<BigUint>) -> (r: Result<
    (),
    FilesystemError,
>)
    ensures
        values(final(v)@) == values(old(v)@) + walk_dir(path@, *entries).digests,
        match r {
            Ok(_) => walk_dir(path@, *entries).failure is None,
            Err(e) => walk_dir(path@, *entries).failure == Some(e.path@),
        },
    decreases *entries,
{
    match entries {
        Some(es) => read_nodes(es, v),
        None => {
            proof {
                assert(values(v@) =~= values(old(v)@) + walk_dir(path@, *entries).digests);
            }
            Err(FilesystemError { path: path.to_owned() })
        },
    }
}

/// A failure met in a prefix of the nodes is the outcome of the whole walk.
proof fn lemma_walk_stops(nodes: Seq<Node>, k: int)
    requires
        0 <= k <= nodes.len(),
        walk_seq(nodes.take(k)).failure is Some,
    ensures
        walk_seq(nodes) == walk_seq(nodes.take(k)),
    decreases nodes.len(),
{
    if k == nodes.len() {
        assert(nodes.take(k) =~= nodes);
    } else {
        assert(nodes.drop_last().take(k) =~= nodes.take(k));
        lemma_walk_stops(nodes.drop_last(), k);
    }
}

/// Walks the nodes in order and pushes the digest of each file onto `v`, up
/// to the first failure.
fn read_nodes(nodes: &Vec<Node>, v: &mut Vec<BigUint>) -> (r: Result<(), FilesystemError>)
    ensures
        values(final(v)@) == values(old(v)@) + walk_seq(nodes@).digests,
        match r {
            Ok(_) => walk_seq(nodes@).failure is None,
            Err(e) => walk_seq(nodes@).failure == Some(e.path@),
        },
    decreases *nodes,
{
    let mut i: usize = 0;
    proof {
        assert(nodes@.take(0) =~= Seq::<Node>::empty());
        assert(values(v@) =~= values(old(v)@) + walk_seq(nodes@.take(0)).digests);
    }
    while i < nodes.len()
        invariant
            i <= nodes.len(),
            values(v@) == values(old(v)@) + walk_seq(nodes@.take(i as int)).digests,
            walk_seq(nodes@.take(i as int)).failure is None,
        decreases nodes.len() - i,
    {
        let ghost before = v@;
        let step = match &nodes[i] {
            Node::File { path, contents } => read_file(path.as_str(), contents, v),
            Node::Dir { path, entries } => read_dir(path.as_str(), entries, v),
            Node::Other => Ok(()),
        };
        proof {
            let prefix = nodes@.take(i + 1);
            assert(prefix.drop_last() =~= nodes@.take(i as int));
            assert(prefix.last() == nodes@[i as int]);
            let one = walk_node(nodes@[i as int]);
            assert(values(v@) =~= values(before) + one.digests);
            assert(values(v@) =~= values(old(v)@) + walk_seq(prefix).digests);
        }
        match step {
            Ok(_) => {},
            Err(e) => {
                proof {
                    lemma_walk_stops(nodes@, i + 1);
                }
                return Err(e);
            },
        }
        i = i + 1;
    }
    proof {
        assert(nodes@.take(i as int) =~= nodes@);
    }
    Ok(())
}

/// The digests of all files under the watched nodes, in the order of the
/// walk; the first path that could not be read, if there is one.
pub fn read(nodes: &Vec<Node>) -> (r: Result<Vec<BigUint>, FilesystemError>)
    ensures
        match r {
            Ok(v) => walk_seq(nodes@).failure is None && values(v@) == walk_seq(nodes@).digests,
            Err(e) => walk_seq(nodes@).failure == Some(e.path@),
        },
{
    let mut v: Vec<BigUint> = Vec::new();
    match read_nodes(nodes, &mut v) {
        Ok(_) => {
            proof {
                assert(values(v@) =~= walk_seq(nodes@).digests);
            }
            Ok(v)
        },
        Err(e) => Err(e),
    }
}

/// The sum, of unbounded width, of the digests of all files under the
/// watched nodes.
pub fn sum(nodes: &Vec<Node>) -> (r: Result<BigUint, FilesystemError>)
    ensures
        match r {
            Ok(s) => walk_seq(nodes@).failure is None && biguint_value(s) == total(
                walk_seq(nodes@).digests,
            ),
            Err(e) => walk_seq(nodes@).failure == Some(e.path@),
        },
{
    match read(nodes) {
        Ok(v) => {
            let mut acc = biguint_zero();
            let mut i: usize = 0;
            proof {
                assert(values(v@).take(0) =~= Seq::<nat>::empty());
            }
            while i < v.len()
                invariant
                    i <= v.len(),
                    biguint_value(acc) == total(values(v@).take(i as int)),
                decreases v.len() - i,
            {
                proof {
                    let prefix = values(v@).take(i + 1);
                    assert(prefix.drop_last() =~= values(v@).take(i as int));
                    assert(prefix.last() == biguint_value(v@[i as int]));
                }
                acc = biguint_add(acc, &v[i]);
                i = i + 1;
            }
            proof {
                assert(values(v@).take(i as int) =~= values(v@));
            }
            Ok(acc)
        },
        Err(e) => Err(e),
    }
}

/// The cache key of the nodes: the sum of their files' digests in lowercase
/// hexadecimal, or the first path that could not be read.
pub open spec fn fingerprint(nodes: Seq<Node>) -> Result<Seq<char>, Seq<char>> {
    let walk = walk_seq(nodes);
    match walk.failure {
        Some(path) => Err(path),
        None => Ok(hex_digits(total(walk.digests))),
    }
}

/// The cache key of the watched nodes.
pub fn hex(nodes: &Vec<Node>) -> (r: Result<String, FilesystemError>)
    ensures
        match r {
            Ok(h) => fingerprint(nodes@) == Ok::<Seq<char>, Seq<char>>(h@),
            Err(e) => fingerprint(nodes@) == Err::<Seq<char>, Seq<char>>(e.path@),
        },
{
    match sum(nodes) {
        Ok(s) => Ok(biguint_lower_hex(&s)),
        Err(e) => Err(e),
    }
}


/// Whether every file and directory under the node could be read.
pub open spec fn node_ok(node: Node) -> bool {
    walk_node(node).failure is None
}

/// The sum of the digests of the files under one node.
pub open spec fn node_total(node: Node) -> nat {
    total(walk_node(node).digests)
}

/// The sum of `node_total` over the nodes.
pub open spec fn nodes_total(nodes: Seq<Node>) -> nat
    decreases nodes.len(),
{
    if nodes.len() == 0 {
        0
    } else {
        nodes_total(nodes.drop_last()) + node_total(nodes.last())
    }
}

/// The sum of a concatenation is the sum of the sums.
proof fn lemma_total_concat(a: Seq<nat>, b: Seq<nat>)
    ensures
        total(a + b) == total(a) + total(b),
    decreases b.len(),
{
    if b.len() == 0 {
        assert(a + b =~= a);
    } else {
        assert((a + b).drop_last() =~= a + b.drop_last());
        lemma_total_concat(a, b.drop_last());
    }
}

/// A walk succeeds exactly when each node does, and then its digests sum to
/// the sum of the nodes' own totals.
proof fn lemma_walk_by_node(nodes: Seq<Node>)
    ensures
        walk_seq(nodes).failure is None <==> forall|i: int|
            0 <= i < nodes.len() ==> node_ok(#[trigger] nodes[i]),
        walk_seq(nodes).failure is None ==> total(walk_seq(nodes).digests) == nodes_total(nodes),
    decreases nodes.len(),
{
    if nodes.len() > 0 {
        let init = nodes.drop_last();
        lemma_walk_by_node(init);
        assert forall|i: int| 0 <= i < init.len() implies init[i] == nodes[i] by {}
        if walk_seq(init).failure is None {
            lemma_total_concat(walk_seq(init).digests, walk_node(nodes.last()).digests);
            if node_ok(nodes.last()) {
                assert forall|i: int| 0 <= i < nodes.len() implies node_ok(
                    #[trigger] nodes[i],
                ) by {
                    if i < init.len() {
                        assert(node_ok(init[i]));
                    }
                }
            }
        } else {
            let j = choose|j: int| 0 <= j < init.len() && !node_ok(#[trigger] init[j]);
            assert(!node_ok(nodes[j]));
        }
    }
}

/// Taking one node out lowers the sum by that node's total.
proof fn lemma_nodes_total_remove(nodes: Seq<Node>, j: int)
    requires
        0 <= j < nodes.len(),
    ensures
        nodes_total(nodes) == nodes_total(nodes.remove(j)) + node_total(nodes[j]),
    decreases nodes.len(),
{
    if j == nodes.len() - 1 {
        assert(nodes.remove(j) =~= nodes.drop_last());
    } else {
        assert(nodes.remove(j).drop_last() =~= nodes.drop_last().remove(j));
        assert(nodes.remove(j).last() == nodes.last());
        lemma_nodes_total_remove(nodes.drop_last(), j);
    }
}

/// Rearranging the nodes leaves the sum of their totals as it was.
proof fn lemma_nodes_total_permutation(a: Seq<Node>, b: Seq<Node>)
    requires
        a.to_multiset() == b.to_multiset(),
    ensures
        nodes_total(a) == nodes_total(b),
    decreases a.len(),
{
    vstd::seq_lib::to_multiset_len(a);
    vstd::seq_lib::to_multiset_len(b);
    if a.len() > 0 {
        let x = a.last();
        assert(a.contains(x));
        vstd::seq_lib::to_multiset_contains(a, x);
        vstd::seq_lib::to_multiset_contains(b, x);
        let j = choose|j: int| 0 <= j < b.len() && b[j] == x;
        assert(a.remove(a.len() - 1) =~= a.drop_last());
        vstd::seq_lib::to_multiset_remove(a, a.len() - 1);
        vstd::seq_lib::to_multiset_remove(b, j);
        lemma_nodes_total_permutation(a.drop_last(), b.remove(j));
        lemma_nodes_total_remove(b, j);
    }
}

/// Where every node of a listing can be read, so can every node of a
/// rearrangement of it.
proof fn lemma_all_ok_permutation(a: Seq<Node>, b: Seq<Node>)
    requires
        a.to_multiset() == b.to_multiset(),
        forall|i: int| 0 <= i < a.len() ==> node_ok(#[trigger] a[i]),
    ensures
        forall|j: int| 0 <= j < b.len() ==> node_ok(#[trigger] b[j]),
{
    assert forall|j: int| 0 <= j < b.len() implies node_ok(#[trigger] b[j]) by {
        assert(b.contains(b[j]));
        vstd::seq_lib::to_multiset_contains(a, b[j]);
        vstd::seq_lib::to_multiset_contains(b, b[j]);
        let i = choose|i: int| 0 <= i < a.len() && a[i] == b[j];
        assert(node_ok(a[i]));
    }
}

/// The fingerprint does not depend on the order in which the watched nodes
/// are listed: where one listing can be read, every rearrangement of it can,
/// and gives the same key.
pub proof fn lemma_fingerprint_commutes(a: Seq<Node>, b: Seq<Node>)
    requires
        a.to_multiset() == b.to_multiset(),
    ensures
        fingerprint(a) is Ok <==> fingerprint(b) is Ok,
        fingerprint(a) is Ok ==> fingerprint(b) == fingerprint(a),
{
    lemma_walk_by_node(a);
    lemma_walk_by_node(b);
    if walk_seq(a).failure is None {
        lemma_all_ok_permutation(a, b);
        lemma_nodes_total_permutation(a, b);
    }
    if walk_seq(b).failure is None {
        lemma_all_ok_permutation(b, a);
    }
}

/// With nothing watched the fingerprint is the empty sum, zero, rendered
/// as `0`; it is never an error.
pub proof fn lemma_fingerprint_empty()
    ensures
        fingerprint(Seq::<Node>::empty()) == Ok::<Seq<char>, Seq<char>>(seq!['0']),
{
    assert(total(Seq::<nat>::empty()) == 0);
    assert(hex_digits(0) =~= seq!['0']);
}

/// Two files of equally many bytes are hashed from different byte strings
/// whenever their paths differ, also where their contents are the same.
pub proof fn lemma_unique_bytes_path_sensitive(
    path_a: Seq<char>,
    contents_a: Seq<u8>,
    path_b: Seq<char>,
    contents_b: Seq<u8>,
)
    requires
        path_a != path_b,
        contents_a.len() == contents_b.len(),
    ensures
        unique_bytes(path_a, contents_a) != unique_bytes(path_b, contents_b),
{
    if unique_bytes(path_a, contents_a) == unique_bytes(path_b, contents_b) {
        let n = contents_a.len() as int;
        let ua = unique_bytes(path_a, contents_a);
        let ub = unique_bytes(path_b, contents_b);
        assert(ua.subrange(n, ua.len() as int) =~= encode_utf8(path_a));
        assert(ub.subrange(n, ub.len() as int) =~= encode_utf8(path_b));
        vstd::utf8::encode_utf8_decode_utf8(path_a);
        vstd::utf8::encode_utf8_decode_utf8(path_b);
        assert(false);
    }
}

/// A change in a file's contents changes the byte string that is hashed for
/// it. Whether the digest changes with it rests on SHA-256.
pub proof fn lemma_unique_bytes_content_sensitive(
    path: Seq<char>,
    contents_a: Seq<u8>,
    contents_b: Seq<u8>,
)
    requires
        contents_a != contents_b,
    ensures
        unique_bytes(path, contents_a) != unique_bytes(path, contents_b),
{
    let ua = unique_bytes(path, contents_a);
    let ub = unique_bytes(path, contents_b);
    if ua == ub {
        assert(ua.len() == contents_a.len() + encode_utf8(path).len());
        assert(ub.len() == contents_b.len() + encode_utf8(path).len());
        let n = contents_a.len() as int;
        assert(ua.subrange(0, n) =~= contents_a);
        assert(ub.subrange(0, n) =~= contents_b);
        assert(false);
    }
}

} // verus!
