//! Relative storage paths and path sharding.

use std::path::{Path, PathBuf};
use vstd::prelude::*;
use vstd::utf8::encode_utf8;
use crate::fs::result::StorageError;
use crate::text::push_char;
use vstd::string::StringExecFns;

verus! {

/// Declares the borrowed file system path of the standard library, carried through opaquely.
#[verifier::external_type_specification]
#[verifier::external_body]
pub struct ExPath(Path);

/// Declares the owned file system path of the standard library, carried through opaquely.
#[verifier::external_type_specification]
#[verifier::external_body]
pub struct ExPathBuf(PathBuf);

/// The owned file system path whose text is `s`.
pub uninterp spec fn path_of(s: Seq<char>) -> PathBuf;

/// The borrowed file system path whose text is `s`.
pub uninterp spec fn borrowed_path_of(s: Seq<char>) -> &'static Path;

/// Converts a string into an owned file system path (`PathBuf::from`).
///
/// The path takes over the string's text unchanged, so the same text gives the
/// same path; that path is named [`path_of`]. Nothing else is claimed of it.
#[verifier::external_body]
pub(crate) fn path_buf_from(s: String) -> (r: PathBuf)
    ensures
        r == path_of(s@),
{
    PathBuf::from(s)
}

/// Borrows a string as a file system path (`Path::new`).
///
/// The path is the string's text seen as a path, named [`borrowed_path_of`];
/// nothing else is claimed of it.
#[verifier::external_body]
fn path_new(s: &str) -> (r: &Path)
    ensures
        r == borrowed_path_of(s@),
{
    Path::new(s)
}

/// Clones an owned file system path (`PathBuf::clone`).
///
/// Nothing is claimed of the copy: a `PathBuf` has no view here.
pub assume_specification[ <PathBuf as Clone>::clone ](p: &PathBuf) -> PathBuf;

/// Copies a string slice into an owned string (`String::from`).
pub assume_specification<'a>[ <String as From<&'a str>>::from ](s: &str) -> (r: String)
    ensures
        r@ == s@,
;

/// Converts a value into its own type (`From::from` on `T` itself): the
/// standard library documents this conversion as returning the argument unchanged.
pub assume_specification<X>[ <X as From<X>>::from ](t: X) -> (r: X)
    ensures
        r == t,
;

/// The separator between the components of a storage path.
pub const SEP_CHAR: char = '/';

/// `st` converts into a string whose text is `s`.
pub open spec fn converts_to<S: Into<String>>(st: S, s: Seq<char>) -> bool {
    exists|x: String| #[trigger] call_ensures(S::into, (st,), x) && x@ == s
}

/// Relative path to the file from the storage root
#[derive(Debug, Clone)]
pub struct StoragePath {
    buf: String,
}

impl View for StoragePath {
    type V = Seq<char>;

    closed spec fn view(&self) -> Seq<char> {
        self.buf@
    }
}

/// The UTF-8 encoding of a concatenation is the concatenation of the encodings.
pub proof fn lemma_encode_utf8_concat(a: Seq<char>, b: Seq<char>)
    ensures
        encode_utf8(a + b) == encode_utf8(a) + encode_utf8(b),
    decreases a.len(),
{
    if a.len() == 0 {
        assert(a + b =~= b);
        assert(encode_utf8(a) =~= Seq::<u8>::empty());
        assert(encode_utf8(a) + encode_utf8(b) =~= encode_utf8(b));
    } else {
        assert((a + b).drop_first() =~= a.drop_first() + b);
        assert((a + b)[0] == a[0]);
        lemma_encode_utf8_concat(a.drop_first(), b);
        assert(encode_utf8(a + b) =~= encode_utf8(a) + encode_utf8(b));
    }
}

impl StoragePath {
    /// Creates a new [`StoragePath`]
    pub fn new<S: Into<String>>(st: S) -> (r: Self)
        ensures
            converts_to(st, r@),
    {
        let st = st.into();
        Self { buf: st }
    }

    /// Returns [`StoragePath`] as a string slice
    pub fn as_str(&self) -> (r: &str)
        ensures
            r@ == self@,
    {
        self.buf.as_str()
    }

    /// Returns [`StoragePath`] as a [`Path`]
    pub fn as_path(&self) -> (r: &Path)
        ensures
            r == borrowed_path_of(self@),
    {
        path_new(self.buf.as_str())
    }

    /// Converts this [`StoragePath`] into a [PathBuf], consuming ownership
    pub fn into_path(self) -> (r: PathBuf)
        ensures
            r == path_of(self@),
    {
        path_buf_from(self.buf)
    }

    /// Returns the length of this [`StoragePath`] in bytes
    pub fn len(&self) -> (r: usize)
        ensures
            r == encode_utf8(self@).len(),
    {
        self.buf.as_str().as_bytes().len()
    }

    /// Returns `true` if the [`StoragePath`] is empty. Otherwise, returns `false`
    pub fn is_empty(&self) -> (r: bool)
        ensures
            r == (encode_utf8(self@).len() == 0),
            r == (self@.len() == 0),
    {
        proof {
            lemma_encode_utf8_empty(self@);
        }
        self.len() == 0
    }

    /// Extends `self` with `path`
    pub fn join<S: Into<String>>(self, path: S) -> (r: Self)
        ensures
            exists|p: Seq<char>|
                converts_to(path, p) && r@ == self@.push(SEP_CHAR) + p && encode_utf8(r@).len()
                    == encode_utf8(self@).len() + 1 + encode_utf8(p).len(),
    {
        let mut buf = self.buf;
        push_char(&mut buf, SEP_CHAR);
        let p: String = path.into();
        buf.append(p.as_str());
        assert(converts_to(path, p@));
        proof {
            lemma_join_byte_len(self@, p@);
        }
        Self { buf }
    }

    /// Returns the text of this [`StoragePath`]
    pub fn to_string(&self) -> (r: String)
        ensures
            r@ == self@,
    {
        self.buf.clone()
    }
}

impl AsRef<str> for StoragePath {
    fn as_ref(&self) -> &str {
        self.as_str()
    }
}

impl AsRef<Path> for StoragePath {
    fn as_ref(&self) -> &Path {
        self.as_path()
    }
}

impl From<StoragePath> for PathBuf {
    fn from(value: StoragePath) -> (r: PathBuf)
        ensures
            r == path_of(value@),
    {
        value.into_path()
    }
}

/// A storage path converts into the file system path with the same text.
impl vstd::std_specs::convert::FromSpecImpl<StoragePath> for PathBuf {
    open spec fn obeys_from_spec() -> bool {
        true
    }

    open spec fn from_spec(v: StoragePath) -> PathBuf {
        path_of(v@)
    }
}

/// `c` may appear in a sharded path: an ASCII letter or digit, `_` or `-`.
pub open spec fn is_shard_char(c: char) -> bool {
    ||| 'a' <= c <= 'z'
    ||| 'A' <= c <= 'Z'
    ||| '0' <= c <= '9'
    ||| c == '_'
    ||| c == '-'
}

/// Every character of `p` may appear in a sharded path.
pub open spec fn is_shardable(p: Seq<char>) -> bool {
    forall|i: int| 0 <= i < p.len() ==> is_shard_char(#[trigger] p[i])
}

/// The first `k` two-character chunks of `p`, each followed by a separator.
pub open spec fn shard_prefix(p: Seq<char>, k: nat) -> Seq<char>
    decreases k,
{
    if k == 0 {
        Seq::empty()
    } else {
        let i = 2 * (k - 1);
        shard_prefix(p, (k - 1) as nat) + seq![p[i], p[i + 1], SEP_CHAR]
    }
}

/// The number of chunks that sharding with `steps` takes from `p`.
pub open spec fn shard_chunks(p: Seq<char>, steps: nat) -> nat {
    if steps <= p.len() / 2 {
        steps
    } else {
        p.len() / 2
    }
}

/// The sharded form of `p`: `abcdef` with two steps becomes `ab/cd/abcdef`.
pub open spec fn sharded(p: Seq<char>, steps: nat) -> Seq<char> {
    shard_prefix(p, shard_chunks(p, steps)) + p
}

/// Tests whether `c` may appear in a sharded path.
pub fn is_shard_char_exec(c: char) -> (r: bool)
    ensures
        r == is_shard_char(c),
{
    ('a' <= c && c <= 'z') || ('A' <= c && c <= 'Z') || ('0' <= c && c <= '9') || c == '_' || c
        == '-'
}

/// Applies path sharding, transforming: `abcdef` into `ab/cd/abcdef`
pub fn shard(path: &str, steps: usize) -> (r: Result<String, StorageError>)
    ensures
        is_shardable(path@) ==> (r matches Ok(s) && s@ == sharded(path@, steps as nat)),
        !is_shardable(path@) ==> r matches Err(StorageError::InvalidPath),
{
    let ghost p = path@;
    let mut chars: Vec<char> = Vec::new();
    let mut valid = true;
    for c in it: path.chars()
        invariant
            it.seq() == p,
            chars@ == p.take(it.index() as int),
            valid == (forall|i: int| 0 <= i < it.index() ==> is_shard_char(#[trigger] p[i])),
    {
        if !is_shard_char_exec(c) {
            valid = false;
        }
        chars.push(c);
        proof {
            assert(chars@ =~= p.take(it.index() + 1));
        }
    }
    proof {
        assert(chars@ =~= p);
    }
    if !valid {
        return Err(StorageError::InvalidPath);
    }
    let n = chars.len();
    let mut res = String::new();
    let mut i: usize = 0;
    while i < steps && i < n / 2
        invariant
            chars@ == p,
            n == p.len(),
            i <= steps,
            2 * i <= n,
            res@ == shard_prefix(p, i as nat),
        decreases steps - i,
    {
        let idx = 2 * i;
        push_char(&mut res, chars[idx]);
        push_char(&mut res, chars[idx + 1]);
        push_char(&mut res, SEP_CHAR);
        i = i + 1;
        proof {
            assert(res@ =~= shard_prefix(p, i as nat));
        }
    }
    assert(i == shard_chunks(p, steps as nat));
    res.append(path);
    Ok(res)
}

/// A text encodes to no bytes exactly when it has no characters.
pub proof fn lemma_encode_utf8_empty(s: Seq<char>)
    ensures
        (encode_utf8(s).len() == 0) == (s.len() == 0),
{
    if s.len() > 0 {
        assert(encode_utf8(s) == vstd::utf8::encode_scalar(s[0] as u32) + encode_utf8(
            s.drop_first(),
        ));
        assert(vstd::utf8::encode_scalar(s[0] as u32).len() >= 1);
    } else {
        assert(encode_utf8(s) =~= Seq::<u8>::empty());
    }
}

/// Byte length law of joining: the UTF-8 length of `a` joined with `b` is the length of
/// `a`, plus one for the separator, plus the length of `b`.
pub proof fn lemma_join_byte_len(a: Seq<char>, b: Seq<char>)
    ensures
        encode_utf8(a.push(SEP_CHAR) + b).len() == encode_utf8(a).len() + 1 + encode_utf8(b).len(),
{
    lemma_encode_utf8_concat(a.push(SEP_CHAR), b);
    assert(a.push(SEP_CHAR) =~= a + seq![SEP_CHAR]);
    lemma_encode_utf8_concat(a, seq![SEP_CHAR]);
    assert(seq![SEP_CHAR].drop_first() =~= Seq::<char>::empty());
    assert(encode_utf8(seq![SEP_CHAR]).len() == 1) by {
        assert(vstd::utf8::encode_scalar(SEP_CHAR as u32).len() == 1);
        assert(encode_utf8(Seq::<char>::empty()) =~= Seq::<u8>::empty());
    }
}

/// Shard character law: a path can be sharded exactly when each of its characters is
/// an ASCII letter (U+0041..U+005A, U+0061..U+007A), an ASCII digit (U+0030..U+0039),
/// `_` (U+005F) or `-` (U+002D); [`shard`] returns `Ok` on exactly those paths.
pub proof fn lemma_shardable_characters(p: Seq<char>)
    ensures
        is_shardable(p) <==> forall|i: int|
            0 <= i < p.len() ==> {
                let u = #[trigger] p[i] as int;
                ||| 0x30 <= u <= 0x39
                ||| 0x41 <= u <= 0x5a
                ||| 0x61 <= u <= 0x7a
                ||| u == 0x5f
                ||| u == 0x2d
            },
{
    assert forall|i: int| 0 <= i < p.len() implies is_shard_char(#[trigger] p[i]) <==> {
        let u = p[i] as int;
        ||| 0x30 <= u <= 0x39
        ||| 0x41 <= u <= 0x5a
        ||| 0x61 <= u <= 0x7a
        ||| u == 0x5f
        ||| u == 0x2d
    } by {}
}

/// Shard step law: sharding takes as many two-character chunks as it is asked for,
/// stopping early only when the path has no two characters left: with `k` chunks,
/// `k <= steps`, `2 * k <= p.len()`, and `k == steps` or fewer than two characters
/// remain. Chunk `j` holds characters `2 * j` and `2 * j + 1` of the path and a
/// separator, and the whole path follows the chunks.
pub proof fn lemma_shard_takes_every_step_it_can(p: Seq<char>, steps: nat)
    ensures
        ({
            let r = sharded(p, steps);
            let k = (r.len() - p.len()) / 3;
            &&& r.len() >= p.len()
            &&& (r.len() - p.len()) % 3 == 0
            &&& k <= steps
            &&& 2 * k <= p.len()
            &&& (k == steps || p.len() < 2 * k + 2)
            &&& r.subrange(r.len() - p.len(), r.len() as int) == p
            &&& forall|j: int|
                0 <= j < k ==> {
                    &&& #[trigger] r[3 * j] == p[2 * j]
                    &&& r[3 * j + 1] == p[2 * j + 1]
                    &&& r[3 * j + 2] == SEP_CHAR
                }
        }),
{
    lemma_sharded_shape(p, steps);
    let r = sharded(p, steps);
    let k = shard_chunks(p, steps);
    assert((r.len() - p.len()) / 3 == k);
}

proof fn lemma_shard_prefix(p: Seq<char>, k: nat)
    requires
        2 * k <= p.len(),
    ensures
        shard_prefix(p, k).len() == 3 * k,
        forall|j: int|
            0 <= j < k ==> {
                &&& #[trigger] shard_prefix(p, k)[3 * j] == p[2 * j]
                &&& shard_prefix(p, k)[3 * j + 1] == p[2 * j + 1]
                &&& shard_prefix(p, k)[3 * j + 2] == SEP_CHAR
            },
    decreases k,
{
    if k > 0 {
        lemma_shard_prefix(p, (k - 1) as nat);
        let prev = shard_prefix(p, (k - 1) as nat);
        assert forall|j: int| 0 <= j < k implies {
            &&& #[trigger] shard_prefix(p, k)[3 * j] == p[2 * j]
            &&& shard_prefix(p, k)[3 * j + 1] == p[2 * j + 1]
            &&& shard_prefix(p, k)[3 * j + 2] == SEP_CHAR
        } by {
            if j < k - 1 {
                assert(shard_prefix(p, k)[3 * j] == prev[3 * j]);
                assert(shard_prefix(p, k)[3 * j + 1] == prev[3 * j + 1]);
                assert(shard_prefix(p, k)[3 * j + 2] == prev[3 * j + 2]);
            }
        }
    }
}

/// Sharding law: the sharded path consists of one chunk of three characters
/// (two characters of the path and a separator) per sharding step that the path
/// can supply, followed by the whole path; with no steps it is the path itself.
pub proof fn lemma_sharded_shape(p: Seq<char>, steps: nat)
    ensures
        ({
            let k = shard_chunks(p, steps);
            &&& sharded(p, steps).len() == p.len() + 3 * k
            &&& sharded(p, steps).subrange((3 * k) as int, sharded(p, steps).len() as int) == p
            &&& forall|j: int|
                0 <= j < k ==> {
                    &&& #[trigger] sharded(p, steps)[3 * j] == p[2 * j]
                    &&& sharded(p, steps)[3 * j + 1] == p[2 * j + 1]
                    &&& sharded(p, steps)[3 * j + 2] == SEP_CHAR
                }
        }),
        sharded(p, 0) == p,
{
    let k = shard_chunks(p, steps);
    lemma_shard_prefix(p, k);
    let r = sharded(p, steps);
    assert(r.subrange((3 * k) as int, r.len() as int) =~= p);
    assert forall|j: int| 0 <= j < k implies {
        &&& #[trigger] r[3 * j] == p[2 * j]
        &&& r[3 * j + 1] == p[2 * j + 1]
        &&& r[3 * j + 2] == SEP_CHAR
    } by {
        assert(r[3 * j] == shard_prefix(p, k)[3 * j]);
        assert(r[3 * j + 1] == shard_prefix(p, k)[3 * j + 1]);
        assert(r[3 * j + 2] == shard_prefix(p, k)[3 * j + 2]);
    }
    assert(shard_prefix(p, 0) + p =~= p);
}

} // verus!
