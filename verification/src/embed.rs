//! Asset index and server: an immutable mapping from logical path to
//! embedded file contents, with content-derived cache-validation tokens
//! and conditional-GET semantics.

use vstd::prelude::*;
use vstd::slice::slice_to_vec;
use sha2::Digest;

verus! {

/// The digest that the index derives every cache-validation token from:
/// a function of the content bytes alone, identical across processes,
/// machines and indexing strategies.
pub uninterp spec fn sha256_of(data: Seq<u8>) -> Seq<u8>;

/// The lowercase hexadecimal digit for a value below sixteen.
pub open spec fn hex_digit(n: u8) -> char
    recommends
        n < 16,
{
    seq!['0', '1', '2', '3', '4', '5', '6', '7', '8', '9', 'a', 'b', 'c', 'd', 'e', 'f'][n as int]
}

/// Lowercase hexadecimal encoding of a byte sequence: two digits per
/// byte, most significant digit first, in byte order.
pub open spec fn hex_of(bytes: Seq<u8>) -> Seq<char>
    decreases bytes.len(),
{
    if bytes.len() == 0 {
        Seq::empty()
    } else {
        hex_of(bytes.drop_last()) + seq![hex_digit(bytes.last() / 16), hex_digit(bytes.last() % 16)]
    }
}

/// The cache-validation token served for an asset with the given content
/// bytes: the lowercase hexadecimal encoding of its content digest.
pub open spec fn validation_token(data: Seq<u8>) -> Seq<char> {
    hex_of(sha256_of(data))
}

/// Relies on sha2::Sha256: the digest depends on the input bytes alone
/// and is always 32 bytes long.
#[verifier::external_body]
fn sha256(data: &Vec<u8>) -> (r: Vec<u8>)
    ensures
        r@ == sha256_of(data@),
        r@.len() == 32,
{
    sha2::Sha256::digest(data).to_vec()
}

/// Relies on hex::encode: lowercase hexadecimal, two digits per byte,
/// most significant digit first, in byte order.
#[verifier::external_body]
fn hex_lower(bytes: &Vec<u8>) -> (r: String)
    ensures
        r@ == hex_of(bytes@),
{
    hex::encode(bytes)
}

/// Character-by-character string equality.
pub fn str_eq(a: &str, b: &str) -> (r: bool)
    ensures
        r == (a@ == b@),
{
    let alen = a.unicode_len();
    let blen = b.unicode_len();
    if alen != blen {
        return false;
    }
    let mut i: usize = 0;
    while i < alen
        invariant
            alen == a@.len(),
            alen == b@.len(),
            i <= alen,
            forall|j: int| 0 <= j < i ==> a@[j] == b@[j],
        decreases alen - i,
    {
        if a.get_char(i) != b.get_char(i) {
            return false;
        }
        i = i + 1;
    }
    proof {
        assert(a@ =~= b@);
    }
    true
}

/// Whether the sequence ends with the given suffix.
pub open spec fn suffix_of(s: Seq<char>, suffix: Seq<char>) -> bool {
    s.len() >= suffix.len() && s.subrange(s.len() - suffix.len(), s.len() as int) == suffix
}

/// Whether the string ends with the given suffix.
pub fn ends_with(s: &str, suffix: &str) -> (r: bool)
    ensures
        r == suffix_of(s@, suffix@),
{
    let n = s.unicode_len();
    let m = suffix.unicode_len();
    if n < m {
        return false;
    }
    let tail = s.substring_char(n - m, n);
    str_eq(tail, suffix)
}

/// The content type under which a file with the given path is served, by
/// its extension; anything unrecognized is served as opaque bytes.
pub open spec fn content_type_spec(path: Seq<char>) -> Seq<char> {
    if suffix_of(path, ".html"@) {
        "text/html"@
    } else if suffix_of(path, ".css"@) {
        "text/css"@
    } else if suffix_of(path, ".js"@) {
        "text/javascript"@
    } else if suffix_of(path, ".wasm"@) {
        "application/wasm"@
    } else if suffix_of(path, ".json"@) {
        "application/json"@
    } else if suffix_of(path, ".webmanifest"@) {
        "application/manifest+json"@
    } else if suffix_of(path, ".png"@) {
        "image/png"@
    } else if suffix_of(path, ".svg"@) {
        "image/svg+xml"@
    } else {
        "application/octet-stream"@
    }
}

/// The content type for a file indexed under the given path, from its
/// extension.
pub fn content_type_for(path: &str) -> (r: String)
    ensures
        r@ == content_type_spec(path@),
{
    if ends_with(path, ".html") {
        "text/html".to_owned()
    } else if ends_with(path, ".css") {
        "text/css".to_owned()
    } else if ends_with(path, ".js") {
        "text/javascript".to_owned()
    } else if ends_with(path, ".wasm") {
        "application/wasm".to_owned()
    } else if ends_with(path, ".json") {
        "application/json".to_owned()
    } else if ends_with(path, ".webmanifest") {
        "application/manifest+json".to_owned()
    } else if ends_with(path, ".png") {
        "image/png".to_owned()
    } else if ends_with(path, ".svg") {
        "image/svg+xml".to_owned()
    } else {
        "application/octet-stream".to_owned()
    }
}

/// One indexed file: a logical route key, the content bytes, the content
/// digest computed once at index-build time, and a content type.
pub struct EmbeddedAsset {
    pub path: String,
    pub data: Vec<u8>,
    pub hash: Vec<u8>,
    pub content_type: String,
}

impl EmbeddedAsset {
    /// The stored digest is the digest of the stored bytes.
    pub open spec fn wf(self) -> bool {
        self.hash@ == sha256_of(self.data@)
    }
}

/// The first asset of the sequence whose path is the given one, if any.
pub open spec fn lookup(assets: Seq<EmbeddedAsset>, path: Seq<char>) -> Option<EmbeddedAsset>
    decreases assets.len(),
{
    if assets.len() == 0 {
        None
    } else if assets[0].path@ == path {
        Some(assets[0])
    } else {
        lookup(assets.drop_first(), path)
    }
}

/// Whether some asset of the sequence carries the given path.
pub open spec fn has_path(assets: Seq<EmbeddedAsset>, path: Seq<char>) -> bool {
    lookup(assets, path) is Some
}

/// An immutable mapping from logical path to embedded asset, built once
/// and then only read.
pub struct AssetIndex {
    assets: Vec<EmbeddedAsset>,
}

impl View for AssetIndex {
    type V = Seq<EmbeddedAsset>;

    closed spec fn view(&self) -> Seq<EmbeddedAsset> {
        self.assets@
    }
}

impl AssetIndex {
    /// Every stored digest belongs to the stored bytes, and no two
    /// entries share a path.
    pub closed spec fn wf(self) -> bool {
        &&& forall|i: int| 0 <= i < self@.len() ==> (#[trigger] self@[i]).wf()
        &&& forall|i: int, j: int|
            0 <= i < j < self@.len() ==> (#[trigger] self@[i]).path@ != (#[trigger] self@[j]).path@
    }

    /// An empty index.
    pub fn new() -> (r: AssetIndex)
        ensures
            r@ =~= Seq::<EmbeddedAsset>::empty(),
            r.wf(),
    {
        AssetIndex { assets: Vec::new() }
    }

    /// Adds one file under its logical path, computing its digest from the
    /// bytes; a path that is already indexed is refused, and the index is
    /// then unchanged.
    pub fn add(&mut self, path: String, data: Vec<u8>, content_type: String) -> (added: bool)
        requires
            old(self).wf(),
        ensures
            final(self).wf(),
            added == !has_path(old(self)@, path@),
            added ==> ({
                let a = final(self)@.last();
                &&& final(self)@ == old(self)@.push(a)
                &&& a.path@ == path@
                &&& a.data@ == data@
                &&& a.content_type@ == content_type@
                &&& a.wf()
            }),
            !added ==> *final(self) == *old(self),
    {
        if self.contains_path(path.as_str()) {
            return false;
        }
        let hash = sha256(&data);
        let asset = EmbeddedAsset { path, data, hash, content_type };
        proof {
            lemma_lookup_misses(self@, asset.path@);
        }
        self.assets.push(asset);
        true
    }

    /// Whether the given path is indexed.
    pub fn contains_path(&self, file_path: &str) -> (r: bool)
        ensures
            r == has_path(self@, file_path@),
    {
        match self.get(file_path) {
            Some(_) => true,
            None => false,
        }
    }

    /// Exact lookup of a logical path; no normalization of any kind is
    /// applied to the path before the comparison.
    pub fn get(&self, file_path: &str) -> (r: Option<&EmbeddedAsset>)
        ensures
            match r {
                Some(a) => lookup(self@, file_path@) == Some(*a) && self@.contains(*a),
                None => !has_path(self@, file_path@),
            },
    {
        let n = self.assets.len();
        let mut i: usize = 0;
        while i < n
            invariant
                n == self@.len(),
                i <= n,
                forall|j: int| 0 <= j < i ==> (#[trigger] self@[j]).path@ != file_path@,
            decreases n - i,
        {
            if str_eq(self.assets[i].path.as_str(), file_path) {
                proof {
                    lemma_lookup_finds(self@, file_path@, i as int);
                }
                return Some(&self.assets[i]);
            }
            i = i + 1;
        }
        proof {
            lemma_lookup_complete(self@, file_path@);
        }
        None
    }

    /// A restartable enumeration of all indexed logical paths, in index
    /// order, one route key per indexed asset.
    pub fn iter(&self) -> (r: Filenames)
        ensures
            r.remaining() =~= self@.map_values(|a: EmbeddedAsset| a.path@),
    {
        let n = self.assets.len();
        let mut names: Vec<String> = Vec::new();
        let mut i: usize = 0;
        while i < n
            invariant
                n == self@.len(),
                i <= n,
                names@.len() == i,
                forall|j: int| 0 <= j < i ==> (#[trigger] names@[j])@ == self@[j].path@,
            decreases n - i,
        {
            names.push(self.assets[i].path.clone());
            i = i + 1;
        }
        let r = Filenames::Embedded { names, pos: 0 };
        proof {
            assert(r.remaining() =~= self@.map_values(|a: EmbeddedAsset| a.path@));
        }
        r
    }
}

/// Walks the path under which an asset of the sequence stands to the
/// lookup result for that path.
pub proof fn lemma_lookup_finds(assets: Seq<EmbeddedAsset>, path: Seq<char>, i: int)
    requires
        0 <= i < assets.len(),
        assets[i].path@ == path,
        forall|j: int| 0 <= j < i ==> (#[trigger] assets[j]).path@ != path,
    ensures
        lookup(assets, path) == Some(assets[i]),
    decreases assets.len(),
{
    if i == 0 {
    } else {
        lemma_lookup_finds(assets.drop_first(), path, i - 1);
    }
}

/// If no asset of the sequence carries the path, the lookup misses.
pub proof fn lemma_lookup_complete(assets: Seq<EmbeddedAsset>, path: Seq<char>)
    requires
        forall|j: int| 0 <= j < assets.len() ==> (#[trigger] assets[j]).path@ != path,
    ensures
        lookup(assets, path) is None,
    decreases assets.len(),
{
    if assets.len() > 0 {
        lemma_lookup_complete(assets.drop_first(), path);
    }
}

/// If the lookup misses, no asset of the sequence carries the path.
pub proof fn lemma_lookup_misses(assets: Seq<EmbeddedAsset>, path: Seq<char>)
    requires
        lookup(assets, path) is None,
    ensures
        forall|j: int| 0 <= j < assets.len() ==> (#[trigger] assets[j]).path@ != path,
    decreases assets.len(),
{
    if assets.len() > 0 {
        lemma_lookup_misses(assets.drop_first(), path);
        assert forall|j: int| 0 <= j < assets.len() implies (#[trigger] assets[j]).path@
            != path by {
            if j > 0 {
                assert(assets[j] == assets.drop_first()[j - 1]);
            }
        }
    }
}

/// A lazy, finite, restartable enumeration of indexed logical paths.
pub enum Filenames {
    /// Paths captured from the index, walked front to back.
    Embedded { names: Vec<String>, pos: usize },
}

impl Filenames {
    /// The paths not yet handed out, in order.
    pub open spec fn remaining(self) -> Seq<Seq<char>> {
        match self {
            Filenames::Embedded { names, pos } => if pos <= names@.len() {
                names@.map_values(|s: String| s@).skip(pos as int)
            } else {
                Seq::empty()
            },
        }
    }

    /// Hands out the next path, front to back, and `None` once all paths
    /// are spent.
    pub fn next(&mut self) -> (r: Option<String>)
        ensures
            match r {
                Some(name) => {
                    &&& old(self).remaining().len() > 0
                    &&& name@ == old(self).remaining()[0]
                    &&& final(self).remaining() =~= old(self).remaining().drop_first()
                },
                None => {
                    &&& old(self).remaining().len() == 0
                    &&& final(self).remaining().len() == 0
                },
            },
    {
        match self {
            Filenames::Embedded { names, pos } => {
                if *pos < names.len() {
                    let name = names[*pos].clone();
                    *pos = *pos + 1;
                    Some(name)
                } else {
                    None
                }
            },
        }
    }
}

/// Implemented by embedding backends: a store of files fixed at compile
/// time, or one re-read from disk on each enumeration; either way the
/// serving semantics are those of `file_handler`.
pub trait Embed {
    /// The asset stored under exactly this logical path, if any.
    fn get(file_path: &str) -> Option<EmbeddedAsset>;

    /// An enumeration of every stored logical path.
    fn iter() -> Filenames;
}

/// Implemented by routers that register one route per embedded file.
pub trait EmbedRoutes {
    /// Registers a route for every path that the backend enumerates.
    fn embed<T: Embed>(self) -> Self;
}

/// What the server answers for one request: an HTTP-like status, the
/// cache-validation header, the content type, and the body bytes.
pub struct AssetResponse {
    pub status: u16,
    pub etag: Option<String>,
    pub content_type: Option<String>,
    pub body: Vec<u8>,
}

/// Serves one request against the index: a miss answers 404 with no body;
/// a conditional header equal to the asset's current validation token
/// answers 304 with no body; anything else answers 200 with the asset's
/// bytes, its validation token and its content type.
pub fn file_handler(index: &AssetIndex, path: &str, if_none_match: Option<&str>) -> (r:
    AssetResponse)
    requires
        index.wf(),
    ensures
        match lookup(index@, path@) {
            None => {
                &&& r.status == 404
                &&& r.body@.len() == 0
                &&& r.etag is None
                &&& r.content_type is None
            },
            Some(a) => ({
                let token = validation_token(a.data@);
                let token_matches = match if_none_match {
                    Some(inm) => inm@ == token,
                    None => false,
                };
                if token_matches {
                    &&& r.status == 304
                    &&& r.body@.len() == 0
                    &&& r.etag matches Some(t) && t@ == token
                    &&& r.content_type is None
                } else {
                    &&& r.status == 200
                    &&& r.body@ == a.data@
                    &&& r.etag matches Some(t) && t@ == token
                    &&& r.content_type matches Some(c) && c@ == a.content_type@
                }
            }),
        },
{
    let asset = match index.get(path) {
        None => {
            return AssetResponse { status: 404, etag: None, content_type: None, body: Vec::new() };
        },
        Some(a) => a,
    };
    let asset_etag = hex_lower(&asset.hash);
    let token_matches = match if_none_match {
        Some(inm) => str_eq(inm, asset_etag.as_str()),
        None => false,
    };
    if token_matches {
        AssetResponse { status: 304, etag: Some(asset_etag), content_type: None, body: Vec::new() }
    } else {
        AssetResponse {
            status: 200,
            etag: Some(asset_etag),
            content_type: Some(asset.content_type.clone()),
            body: slice_to_vec(asset.data.as_slice()),
        }
    }
}

/// The validation token is derived from the content bytes alone: two
/// well-formed assets holding byte-identical contents carry the same
/// token, whichever index they stand in and however it was built.
pub proof fn lemma_token_deterministic(a: EmbeddedAsset, b: EmbeddedAsset)
    requires
        a.wf(),
        b.wf(),
        a.data@ == b.data@,
    ensures
        hex_of(a.hash@) == hex_of(b.hash@),
        hex_of(a.hash@) == validation_token(a.data@),
{
}

} // verus!
