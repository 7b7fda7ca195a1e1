//! Where the reservations that persist through power loss are kept: a directory per pool, and
//! within it a file per replica.
use vstd::prelude::*;
use crate::text::chars::{chars_of, str_eq, string_of};
use crate::text::split::{last_piece, last_piece_text, rsplit_once, rsplit_once_text};

verus! {

/// The path with one more part: an absolute part replaces the path, and a separator is added where
/// the path does not end in one.
pub open spec fn join_path(path: Seq<char>, part: Seq<char>) -> Seq<char> {
    if part.len() > 0 && part[0] == '/' {
        part
    } else if path.len() > 0 && path.last() != '/' {
        path + "/"@ + part
    } else {
        path + part
    }
}

/// The path without the separators at its end, and without parts that stand for the directory they
/// are in.
pub open spec fn trim_path(path: Seq<char>) -> Seq<char>
    decreases path.len(),
{
    let n = path.len() as int;
    if n > 1 && path[n - 1] == '/' {
        trim_path(path.drop_last())
    } else if n > 1 && path[n - 1] == '.' && path[n - 2] == '/' {
        trim_path(path.drop_last())
    } else {
        path
    }
}

/// The file name without its extension: what stands before its last dot, unless it is the first
/// character.
pub open spec fn file_stem(name: Seq<char>) -> Seq<char> {
    match rsplit_once(name, '.') {
        Some((stem, _)) => if stem.len() == 0 {
            name
        } else {
            stem
        },
        None => name,
    }
}

/// The path with the extension of its file name replaced; a path without a file name as it is.
pub open spec fn with_extension(path: Seq<char>, extension: Seq<char>) -> Seq<char> {
    let trimmed = trim_path(path);
    let name = last_piece(trimmed, '/');
    if name.len() == 0 || name == ".."@ {
        path
    } else {
        trimmed.take(trimmed.len() - name.len()) + file_stem(name) + "."@ + extension
    }
}

/// The path with one more part, see `join_path`.
fn joined(path: String, part: &str) -> (res: String)
    ensures
        res@ == join_path(path@, part@),
{
    let chars = chars_of(part);
    if chars.len() > 0 && chars[0] == '/' {
        return part.to_owned();
    }
    let base = chars_of(path.as_str());
    let n = base.len();
    if n > 0 && base[n - 1] != '/' {
        path.concat("/").concat(part)
    } else {
        path.concat(part)
    }
}

/// The last piece is a suffix of the text.
proof fn lemma_last_piece(s: Seq<char>, sep: char)
    ensures
        last_piece(s, sep).len() <= s.len(),
        s.take(s.len() - last_piece(s, sep).len()) + last_piece(s, sep) == s,
{
    s.index_of_last_ensures(sep);
    let last = last_piece(s, sep);
    assert(s.take(s.len() - last.len()) + last =~= s);
}

/// The path with the extension of its file name replaced, see `with_extension`.
fn replace_extension(path: String, extension: &str) -> (res: String)
    ensures
        res@ == with_extension(path@, extension@),
{
    let chars = chars_of(path.as_str());
    let mut n: usize = chars.len();
    assert(path@.take(n as int) =~= path@);
    while n > 1 && (chars[n - 1] == '/' || (chars[n - 1] == '.' && chars[n - 2] == '/'))
        invariant
            chars@ == path@,
            n <= path@.len(),
            trim_path(path@.take(n as int)) == trim_path(path@),
        decreases n,
    {
        assert(path@.take(n as int).drop_last() =~= path@.take(n - 1));
        n = n - 1;
    }
    let trimmed = string_of(&chars, 0, n);
    assert(trimmed@ =~= path@.take(n as int));
    let name = last_piece_text(trimmed.as_str(), '/');
    if name.as_str().is_empty() || str_eq(name.as_str(), "..") {
        return path;
    }
    let stem = match rsplit_once_text(name.as_str(), '.') {
        Some((stem, _)) => {
            if stem.as_str().is_empty() {
                name.clone()
            } else {
                stem
            }
        },
        None => name.clone(),
    };
    proof {
        lemma_last_piece(trimmed@, '/');
    }
    let keep = n - name.as_str().unicode_len();
    let head = string_of(&chars, 0, keep);
    assert(head@ =~= trimmed@.take(trimmed@.len() - name@.len()));
    head.concat(stem.as_str()).concat(".").concat(extension)
}

/// Persist through power loss files of a ZFS pool.
#[derive(Debug, Clone)]
pub struct ZfsPoolPtpl {
    name: String,
}

/// The directory of the pool with the given name.
pub open spec fn pool_subpath(name: Seq<char>) -> Seq<char> {
    join_path("pool/zfs/"@, name)
}

/// The file of a replica of the pool with the given name.
pub open spec fn vol_subpath(pool: Seq<char>, uuid: Seq<char>) -> Seq<char> {
    with_extension(join_path(join_path(pool_subpath(pool), "vol/"@), uuid), "json"@)
}

impl ZfsPoolPtpl {
    /// The name of the pool.
    pub closed spec fn pool_name(self) -> Seq<char> {
        self.name@
    }

    /// The files of the pool with the given name.
    pub fn new(pool: &str) -> (res: Self)
        ensures
            res.pool_name() == pool@,
    {
        ZfsPoolPtpl { name: pool.to_owned() }
    }

    /// The path of the directory of the pool.
    pub fn subpath(&self) -> (res: String)
        ensures
            res@ == pool_subpath(self.pool_name()),
    {
        joined("pool/zfs/".to_owned(), self.name.as_str())
    }
}

/// Persist through power loss file of a zvol (replica).
#[derive(Debug, Clone)]
pub struct ZvolPtpl {
    pool: ZfsPoolPtpl,
    uuid: String,
}

impl ZvolPtpl {
    /// The name of the pool of the replica.
    pub closed spec fn pool_name(self) -> Seq<char> {
        self.pool.pool_name()
    }

    /// The uuid of the replica.
    pub closed spec fn replica(self) -> Seq<char> {
        self.uuid@
    }

    /// The file of the replica with the given uuid, of the pool with the given name.
    pub fn new(pool: &str, uuid: &str) -> (res: Self)
        ensures
            res.pool_name() == pool@,
            res.replica() == uuid@,
    {
        ZvolPtpl { pool: ZfsPoolPtpl::new(pool), uuid: uuid.to_owned() }
    }

    /// A copy of the file.
    pub fn copy(&self) -> (res: Self)
        ensures
            res == *self,
    {
        ZvolPtpl { pool: ZfsPoolPtpl { name: self.pool.name.clone() }, uuid: self.uuid.clone() }
    }

    /// The files of the pool.
    pub fn pool(&self) -> (res: &ZfsPoolPtpl)
        ensures
            res.pool_name() == self.pool_name(),
    {
        &self.pool
    }

    /// The uuid of the replica.
    pub fn uuid(&self) -> (res: &str)
        ensures
            res@ == self.replica(),
    {
        self.uuid.as_str()
    }

    /// The path of the file of the replica.
    pub fn subpath(&self) -> (res: String)
        ensures
            res@ == vol_subpath(self.pool_name(), self.replica()),
    {
        replace_extension(
            joined(joined(self.pool().subpath(), "vol/"), self.uuid()),
            "json",
        )
    }
}

} // verus!
