//! Where a daemon instance keeps its lock file (one lock per database and
//! node, next to the database), and what the instance knows of its claim
//! on the database.
use vstd::prelude::*;
use vstd::string::*;

use sha2::Digest;

use crate::paths::{file_name_of, path_joined, parent_of, path_file_name, path_join, path_parent};
use crate::text::{owned, push_signed_decimal, signed_decimal_spec, string_push};

verus! {

/// The SHA-256 digest of `data`.
pub uninterp spec fn sha256(data: Seq<u8>) -> Seq<u8>;

/// Calls `sha2::Sha256::digest`. The digest is a function of the data
/// alone, named `sha256`; SHA-256 digests are 32 bytes long.
#[verifier::external_body]
fn sha256_digest(data: &[u8]) -> (res: Vec<u8>)
    ensures
        res@ == sha256(data@),
        res@.len() == 32,
{
    sha2::Sha256::digest(data).as_slice().to_vec()
}

/// The lower-case hexadecimal digit for `d < 16`.
pub open spec fn hex_digit(d: u8) -> char {
    if d < 10 {
        (('0' as u32) + d) as char
    } else {
        (('a' as u32) + d - 10) as char
    }
}

/// The lower-case hexadecimal encoding of `bytes`, two digits per byte.
pub open spec fn hex_spec(bytes: Seq<u8>) -> Seq<char>
    decreases bytes.len(),
{
    if bytes.len() == 0 {
        Seq::empty()
    } else {
        hex_spec(bytes.drop_last()).push(hex_digit(bytes.last() / 16)).push(hex_digit(bytes.last() % 16))
    }
}

fn hex_digit_char(d: u8) -> (res: char)
    requires
        d < 16,
    ensures
        res == hex_digit(d),
{
    match d {
        0 => '0',
        1 => '1',
        2 => '2',
        3 => '3',
        4 => '4',
        5 => '5',
        6 => '6',
        7 => '7',
        8 => '8',
        9 => '9',
        10 => 'a',
        11 => 'b',
        12 => 'c',
        13 => 'd',
        14 => 'e',
        _ => 'f',
    }
}

/// The lower-case hexadecimal encoding of `bytes`.
pub fn to_hex(bytes: &Vec<u8>) -> (res: String)
    ensures
        res@ == hex_spec(bytes@),
{
    let mut out = String::new();
    let mut i: usize = 0;
    proof {
        assert(bytes@.take(0) =~= Seq::<u8>::empty());
    }
    while i < bytes.len()
        invariant
            i <= bytes.len(),
            out@ == hex_spec(bytes@.take(i as int)),
        decreases bytes.len() - i,
    {
        let b = bytes[i];
        string_push(&mut out, hex_digit_char(b / 16));
        string_push(&mut out, hex_digit_char(b % 16));
        proof {
            assert(bytes@.take(i + 1).drop_last() =~= bytes@.take(i as int));
            assert(bytes@.take(i + 1).last() == b);
        }
        i = i + 1;
    }
    proof {
        assert(bytes@.take(bytes.len() as int) =~= bytes@);
    }
    out
}

/// The bytes that identify a lock: the database path, a zero byte, and the
/// node id.
pub open spec fn lock_key_bytes(db_path: &str, node_id: &str) -> Seq<u8> {
    db_path.spec_bytes() + seq![0u8] + node_id.spec_bytes()
}

/// The lock file of the daemon serving `node_id` on the database at the
/// canonical path `db_path`: `.agenthub-daemon-<hex sha256>.lock` beside the
/// database, or an error when the path has no parent directory.
pub fn lock_path_for(db_path: &str, node_id: &str) -> (res: Result<String, String>)
    ensures
        match path_parent(db_path@) {
            None => res is Err && res->Err_0@ == "canonical database path must include a parent directory"@,
            Some(parent) => res is Ok && res->Ok_0@ == path_joined(
                parent,
                ".agenthub-daemon-"@ + hex_spec(sha256(lock_key_bytes(db_path, node_id))) + ".lock"@,
            ),
        },
{
    let parent = match parent_of(db_path) {
        Some(p) => p,
        None => return Err(owned("canonical database path must include a parent directory")),
    };
    let mut data: Vec<u8> = Vec::new();
    data.extend_from_slice(db_path.as_bytes());
    data.push(0u8);
    data.extend_from_slice(node_id.as_bytes());
    assert(data@ =~= lock_key_bytes(db_path, node_id));
    let digest = sha256_digest(data.as_slice());
    let mut name = owned(".agenthub-daemon-");
    name.append(to_hex(&digest).as_str());
    name.append(".lock");
    Ok(path_join(parent.as_str(), name.as_str()))
}

/// Only the character U+0000 is encoded with a zero byte.
proof fn lemma_scalar_bytes_nonzero(v: u32)
    requires
        0 < v <= 0x10FFFF,
    ensures
        forall|j: int| 0 <= j < vstd::utf8::encode_scalar(v).len() ==> vstd::utf8::encode_scalar(v)[j] != 0,
{
    assert(v <= 0x7F ==> (v & 0x7F) as u8 != 0) by (bit_vector)
        requires 0 < v;
    assert((0xC0u8 | ((v >> 6) & 0x1F) as u8) != 0) by (bit_vector);
    assert((0xE0u8 | ((v >> 12) & 0x0F) as u8) != 0) by (bit_vector);
    assert((0xF0u8 | ((v >> 18) & 0x7) as u8) != 0) by (bit_vector);
    assert((0x80u8 | (v & 0x3F) as u8) != 0) by (bit_vector);
    assert((0x80u8 | ((v >> 6) & 0x3F) as u8) != 0) by (bit_vector);
    assert((0x80u8 | ((v >> 12) & 0x3F) as u8) != 0) by (bit_vector);
}

/// The UTF-8 encoding of text without U+0000 holds no zero byte.
proof fn lemma_encoding_has_no_zero(chars: Seq<char>)
    requires
        forall|i: int| 0 <= i < chars.len() ==> chars[i] != '\0',
    ensures
        forall|j: int| 0 <= j < vstd::utf8::encode_utf8(chars).len() ==> vstd::utf8::encode_utf8(chars)[j] != 0,
    decreases chars.len(),
{
    if chars.len() > 0 {
        let head = vstd::utf8::encode_scalar(chars[0] as u32);
        let tail = vstd::utf8::encode_utf8(chars.drop_first());
        lemma_encoding_has_no_zero(chars.drop_first());
        let c = chars[0];
        vstd::utf8::char_is_scalar(c);
        if c as u32 == 0 {
            vstd::utf8::char_u32_cast(c, 0u32);
            vstd::utf8::char_u32_cast('\0', 0u32);
        }
        lemma_scalar_bytes_nonzero(c as u32);
        assert(vstd::utf8::encode_utf8(chars) == head + tail);
        assert forall|j: int| 0 <= j < (head + tail).len() implies (head + tail)[j] != 0 by {
            if j >= head.len() {
                assert((head + tail)[j] == tail[j - head.len()]);
            }
        }
    }
}

/// Two texts with the same UTF-8 encoding are the same text.
proof fn lemma_encoding_injective(a: Seq<char>, b: Seq<char>)
    requires
        vstd::utf8::encode_utf8(a) == vstd::utf8::encode_utf8(b),
    ensures
        a == b,
{
    vstd::utf8::encode_utf8_decode_utf8(a);
    vstd::utf8::encode_utf8_decode_utf8(b);
}

/// Joining two byte strings around a zero byte can be undone when the
/// first holds no zero byte.
proof fn lemma_zero_separated_split(a1: Seq<u8>, b1: Seq<u8>, a2: Seq<u8>, b2: Seq<u8>)
    requires
        forall|j: int| 0 <= j < a1.len() ==> a1[j] != 0,
        forall|j: int| 0 <= j < a2.len() ==> a2[j] != 0,
        a1 + seq![0u8] + b1 == a2 + seq![0u8] + b2,
    ensures
        a1 == a2,
        b1 == b2,
{
    let x = a1 + seq![0u8] + b1;
    let y = a2 + seq![0u8] + b2;
    if a1.len() < a2.len() {
        assert(x[a1.len() as int] == 0);
        assert(y[a1.len() as int] == a2[a1.len() as int]);
    } else if a2.len() < a1.len() {
        assert(y[a2.len() as int] == 0);
        assert(x[a2.len() as int] == a1[a2.len() as int]);
    }
    assert(a1 =~= x.subrange(0, a1.len() as int));
    assert(a2 =~= y.subrange(0, a2.len() as int));
    assert(b1 =~= x.subrange(a1.len() as int + 1, x.len() as int));
    assert(b2 =~= y.subrange(a2.len() as int + 1, y.len() as int));
}

/// A lock is named after its database and node: two instances derive the
/// same lock key exactly when they name the same database path and the
/// same node (paths holding U+0000 aside, which no file system accepts).
pub proof fn law_lock_key_identifies_database_and_node(db1: &str, node1: &str, db2: &str, node2: &str)
    requires
        forall|i: int| 0 <= i < db1@.len() ==> db1@[i] != '\0',
        forall|i: int| 0 <= i < db2@.len() ==> db2@[i] != '\0',
    ensures
        lock_key_bytes(db1, node1) == lock_key_bytes(db2, node2) <==> (db1@ == db2@ && node1@ == node2@),
{
    if lock_key_bytes(db1, node1) == lock_key_bytes(db2, node2) {
        lemma_encoding_has_no_zero(db1@);
        lemma_encoding_has_no_zero(db2@);
        lemma_zero_separated_split(db1.spec_bytes(), node1.spec_bytes(), db2.spec_bytes(), node2.spec_bytes());
        lemma_encoding_injective(db1@, db2@);
        lemma_encoding_injective(node1@, node2@);
    }
}

/// A string as `{:?}` formats it: quoted, with escapes.
pub uninterp spec fn debug_quoted_spec(s: Seq<char>) -> Seq<char>;

/// Formats `s` with `<str as Debug>::fmt`. The text is a function of `s`
/// alone, named `debug_quoted_spec`.
#[verifier::external_body]
fn debug_quoted(s: &str) -> (res: String)
    ensures
        res@ == debug_quoted_spec(s@),
{
    format!("{:?}", s)
}

/// The directory and file name under which a database that does not exist
/// yet is resolved: the path's parent (`.` when it has none) and its last
/// component.
pub open spec fn new_db_path_parts_spec(db_path: Seq<char>) -> Result<(Seq<char>, Seq<char>), Seq<char>> {
    match path_file_name(db_path) {
        None => Err("database path must include a file name"@),
        Some(name) => Ok((
            match path_parent(db_path) {
                Some(p) => p,
                None => "."@,
            },
            name,
        )),
    }
}

/// Splits the path of a database that does not exist yet into the
/// directory to create and resolve, and the file name to join to it.
pub fn new_db_path_parts(db_path: &str) -> (res: Result<(String, String), String>)
    ensures
        match (res, new_db_path_parts_spec(db_path@)) {
            (Ok((d, n)), Ok((sd, sn))) => d@ == sd && n@ == sn,
            (Err(e), Err(se)) => e@ == se,
            _ => false,
        },
{
    let name = match file_name_of(db_path) {
        Some(n) => n,
        None => return Err(owned("database path must include a file name")),
    };
    let dir = match parent_of(db_path) {
        Some(p) => p,
        None => owned("."),
    };
    Ok((dir, name))
}

/// The refusal of a second daemon for the same database and node.
pub open spec fn lock_busy_spec(node_id: Seq<char>, db_path: Seq<char>, lock_path: Seq<char>) -> Seq<char> {
    "daemon instance already owns node "@ + debug_quoted_spec(node_id) + " for database "@ + db_path
        + "; lock: "@ + lock_path
}

/// The error given when the lock of `node_id` on the database is held by
/// another process.
pub fn lock_busy_message(node_id: &str, db_path: &str, lock_path: &str) -> (res: String)
    ensures
        res@ == lock_busy_spec(node_id@, db_path@, lock_path@),
{
    let mut s = owned("daemon instance already owns node ");
    s.append(debug_quoted(node_id).as_str());
    s.append(" for database ");
    s.append(db_path);
    s.append("; lock: ");
    s.append(lock_path);
    s
}

/// The message of a claimed generation that the database no longer holds
/// current.
pub open spec fn stale_generation_spec(generation: i64, node_id: Seq<char>) -> Seq<char> {
    "daemon generation "@ + signed_decimal_spec(generation as int) + " for node "@
        + debug_quoted_spec(node_id) + " is no longer current"@
}

/// What a daemon instance knows of its claim on the database: the node it
/// serves and, once claimed, the generation the database gave it.
pub struct DaemonClaim {
    node_id: String,
    generation: Option<i64>,
}

impl DaemonClaim {
    /// The claimed generation, if any.
    pub closed spec fn claimed(&self) -> Option<i64> {
        self.generation
    }

    /// The node the instance serves.
    pub closed spec fn node(&self) -> Seq<char> {
        self.node_id@
    }

    /// The node the instance serves.
    pub fn node_id(&self) -> (res: &str)
        ensures
            res@ == self.node(),
    {
        self.node_id.as_str()
    }

    /// A claim that has not been made yet.
    pub fn new(node_id: String) -> (res: Self)
        ensures
            res.node() == node_id@,
            res.claimed() is None,
    {
        DaemonClaim { node_id, generation: None }
    }

    /// The claimed generation, if any.
    pub fn generation(&self) -> (res: Option<i64>)
        ensures
            res == self.claimed(),
    {
        self.generation
    }

    /// Refuses a second claim: a generation may be claimed only once.
    pub fn check_unclaimed(&self) -> (res: Result<(), String>)
        ensures
            match (res, unclaimed_check_spec(self.claimed())) {
                (Ok(()), Ok(())) => true,
                (Err(e), Err(se)) => e@ == se,
                _ => false,
            },
    {
        match self.generation {
            None => Ok(()),
            Some(_) => Err(owned("daemon generation has already been claimed")),
        }
    }

    /// Records the generation the database gave this instance.
    pub fn record_claim(&mut self, generation: i64)
        requires
            old(self).claimed() is None,
        ensures
            final(self).claimed() == Some(generation),
            final(self).node() == old(self).node(),
    {
        self.generation = Some(generation);
    }

    /// The generation to check against the database; an instance that has
    /// not claimed one cannot be verified.
    pub fn claimed_generation(&self) -> (res: Result<i64, String>)
        ensures
            match (res, claimed_generation_spec(self.claimed())) {
                (Ok(g), Ok(sg)) => g == sg,
                (Err(e), Err(se)) => e@ == se,
                _ => false,
            },
    {
        match self.generation {
            Some(g) => Ok(g),
            None => Err(owned("daemon generation has not been claimed")),
        }
    }

    /// The outcome of checking the claimed `generation` against the
    /// database: an error naming it and the node unless it is still current.
    pub fn current_outcome(&self, generation: i64, is_current: bool) -> (res: Result<(), String>)
        ensures
            match res {
                Ok(()) => is_current,
                Err(e) => !is_current && e@ == stale_generation_spec(generation, self.node()),
            },
    {
        if is_current {
            return Ok(());
        }
        let mut s = owned("daemon generation ");
        push_signed_decimal(&mut s, generation);
        s.append(" for node ");
        s.append(debug_quoted(self.node_id.as_str()).as_str());
        s.append(" is no longer current");
        Err(s)
    }
}

/// Whether a claim may be made on a claim state: only when none was made.
pub open spec fn unclaimed_check_spec(claimed: Option<i64>) -> Result<(), Seq<char>> {
    match claimed {
        None => Ok(()),
        Some(_) => Err("daemon generation has already been claimed"@),
    }
}

/// The generation verification checks against the database.
pub open spec fn claimed_generation_spec(claimed: Option<i64>) -> Result<i64, Seq<char>> {
    match claimed {
        Some(g) => Ok(g),
        None => Err("daemon generation has not been claimed"@),
    }
}

/// A generation is claimed once: before the claim is recorded a claim is
/// allowed and nothing can be verified; after it, a second claim is refused
/// and verification checks the recorded generation.
pub proof fn law_generation_claimed_once(before: DaemonClaim, after: DaemonClaim, generation: i64)
    requires
        before.claimed() is None,
        after.claimed() == Some(generation),
    ensures
        unclaimed_check_spec(before.claimed()) is Ok,
        claimed_generation_spec(before.claimed()) is Err,
        unclaimed_check_spec(after.claimed()) is Err,
        claimed_generation_spec(after.claimed()) == Ok::<i64, Seq<char>>(generation),
{
}

} // verus!
