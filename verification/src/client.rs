use vstd::prelude::*;
use crate::encoding::percent_encode;
use crate::encoding::percent_encode_bytes;

verus! {

/// A base URL with every trailing `/` (47) removed, so that joining path
/// segments never doubles a slash.
pub open spec fn trim_trailing_slashes(s: Seq<u8>) -> Seq<u8>
    decreases s.len(),
{
    if s.len() > 0 && s[s.len() - 1] == 47 {
        trim_trailing_slashes(s.drop_last())
    } else {
        s
    }
}

/// The bytes of `"/collections"`.
pub open spec fn collections_segment() -> Seq<u8> {
    seq![47u8, 99, 111, 108, 108, 101, 99, 116, 105, 111, 110, 115]
}

/// The bytes of `"/snapshots"`.
pub open spec fn snapshots_segment() -> Seq<u8> {
    seq![47u8, 115, 110, 97, 112, 115, 104, 111, 116, 115]
}

/// The bytes of `"api-key"`, the fixed header that carries the credential.
pub open spec fn api_key_header() -> Seq<u8> {
    seq![97u8, 112, 105, 45, 107, 101, 121]
}

/// Appends every byte of `src` to `dst`, in order.
pub fn append_bytes(dst: &mut Vec<u8>, src: &[u8])
    ensures
        final(dst)@ == old(dst)@ + src@,
{
    let mut i: usize = 0;
    while i < src.len()
        invariant
            i <= src.len(),
            dst@ == old(dst)@ + src@.take(i as int),
        decreases src.len() - i,
    {
        let b = src[i];
        dst.push(b);
        proof {
            assert(old(dst)@ + src@.take(i + 1) =~= (old(dst)@ + src@.take(i as int)).push(src@[i as int]));
        }
        i = i + 1;
    }
    proof {
        assert(src@.take(src@.len() as int) =~= src@);
    }
}

/// Copies a byte slice into a fresh vector.
pub fn copy_bytes(src: &[u8]) -> (r: Vec<u8>)
    ensures
        r@ == src@,
{
    let mut r: Vec<u8> = Vec::new();
    append_bytes(&mut r, src);
    r
}

/// The configuration every request is built from: where the server lives and
/// which credential, if any, to present.  The handle that carries the HTTP
/// traffic lives with the caller; this type owns only what the request
/// contents are computed from.
pub struct QdrantClient {
    /// The server's base address, with no trailing slash.
    pub base_url: Vec<u8>,
    /// The pre-shared credential; empty means requests carry no auth header.
    pub api_key: Vec<u8>,
}

impl QdrantClient {
    /// The invariant `new` establishes and every method keeps: the stored
    /// base URL does not end in a slash.
    pub open spec fn wf(self) -> bool {
        self.base_url@ == trim_trailing_slashes(self.base_url@)
    }

    /// Builds a client configuration, stripping trailing slashes from the
    /// base URL and storing the API key as given.
    pub fn new(base_url: Vec<u8>, api_key: Vec<u8>) -> (c: Self)
        ensures
            c.base_url@ == trim_trailing_slashes(base_url@),
            c.api_key@ == api_key@,
            c.wf(),
    {
        let mut url = base_url;
        while url.len() > 0 && url[url.len() - 1] == 47
            invariant
                trim_trailing_slashes(url@) == trim_trailing_slashes(base_url@),
            decreases url.len(),
        {
            url.pop();
        }
        let c = QdrantClient { base_url: url, api_key };
        proof {
            lemma_trim_fixpoint(c.base_url@);
        }
        c
    }

    /// The request path of the list-collections call:
    /// `{base}/collections`.
    pub open spec fn spec_collections_url(self) -> Seq<u8> {
        self.base_url@ + collections_segment()
    }

    /// The request path of the create-snapshot call for `collection`:
    /// `{base}/collections/{percent-encoded collection}/snapshots`.
    pub open spec fn spec_create_snapshot_url(self, collection: Seq<u8>) -> Seq<u8> {
        self.base_url@ + collections_segment() + seq![47u8] + percent_encode(collection)
            + snapshots_segment()
    }

    /// The request path of the download call for `collection` / `snapshot`:
    /// `{base}/collections/{enc collection}/snapshots/{enc snapshot}`.
    pub open spec fn spec_download_snapshot_url(self, collection: Seq<u8>, snapshot: Seq<u8>) -> Seq<u8> {
        self.base_url@ + collections_segment() + seq![47u8] + percent_encode(collection)
            + snapshots_segment() + seq![47u8] + percent_encode(snapshot)
    }

    /// Builds the list-collections URL.
    pub fn collections_url(&self) -> (r: Vec<u8>)
        ensures
            r@ == self.spec_collections_url(),
    {
        let mut r = copy_bytes(self.base_url.as_slice());
        push_collections_segment(&mut r);
        r
    }

    /// Builds the create-snapshot URL for `collection`, percent-encoding the
    /// name so that URL-unsafe characters survive the trip.
    pub fn create_snapshot_url(&self, collection: &[u8]) -> (r: Vec<u8>)
        ensures
            r@ == self.spec_create_snapshot_url(collection@),
    {
        let mut r = copy_bytes(self.base_url.as_slice());
        push_collections_segment(&mut r);
        r.push(47);
        let enc = percent_encode_bytes(collection);
        append_bytes(&mut r, enc.as_slice());
        push_snapshots_segment(&mut r);
        proof {
            assert(r@ =~= self.spec_create_snapshot_url(collection@));
        }
        r
    }

    /// Builds the download URL for `collection` / `snapshot`, percent-encoding
    /// both names.
    pub fn download_snapshot_url(&self, collection: &[u8], snapshot: &[u8]) -> (r: Vec<u8>)
        ensures
            r@ == self.spec_download_snapshot_url(collection@, snapshot@),
    {
        let mut r = copy_bytes(self.base_url.as_slice());
        push_collections_segment(&mut r);
        r.push(47);
        let enc_c = percent_encode_bytes(collection);
        append_bytes(&mut r, enc_c.as_slice());
        push_snapshots_segment(&mut r);
        r.push(47);
        let enc_s = percent_encode_bytes(snapshot);
        append_bytes(&mut r, enc_s.as_slice());
        proof {
            assert(r@ =~= self.spec_download_snapshot_url(collection@, snapshot@));
        }
        r
    }

    /// The fixed name of the authentication header.
    pub fn auth_header_name(&self) -> (r: Vec<u8>)
        ensures
            r@ == api_key_header(),
    {
        let mut r: Vec<u8> = Vec::new();
        r.push(97);
        r.push(112);
        r.push(105);
        r.push(45);
        r.push(107);
        r.push(101);
        r.push(121);
        proof {
            assert(r@ =~= api_key_header());
        }
        r
    }

    /// The value of the authentication header, if one is to be sent: the
    /// configured key when it is non-empty, and nothing otherwise.
    pub fn auth_header_value(&self) -> (r: Option<Vec<u8>>)
        ensures
            self.api_key@.len() == 0 <==> r is None,
            r matches Some(v) ==> v@ == self.api_key@,
    {
        if self.api_key.len() == 0 {
            None
        } else {
            Some(copy_bytes(self.api_key.as_slice()))
        }
    }
}

/// Appends the bytes of `"/collections"`.
fn push_collections_segment(v: &mut Vec<u8>)
    ensures
        final(v)@ == old(v)@ + collections_segment(),
{
    v.push(47);
    v.push(99);
    v.push(111);
    v.push(108);
    v.push(108);
    v.push(101);
    v.push(99);
    v.push(116);
    v.push(105);
    v.push(111);
    v.push(110);
    v.push(115);
    proof {
        assert(v@ =~= old(v)@ + collections_segment());
    }
}

/// Appends the bytes of `"/snapshots"`.
fn push_snapshots_segment(v: &mut Vec<u8>)
    ensures
        final(v)@ == old(v)@ + snapshots_segment(),
{
    v.push(47);
    v.push(115);
    v.push(110);
    v.push(97);
    v.push(112);
    v.push(115);
    v.push(104);
    v.push(111);
    v.push(116);
    v.push(115);
    proof {
        assert(v@ =~= old(v)@ + snapshots_segment());
    }
}

/// Trimming is idempotent: a string that trimming has produced does not end
/// in a slash, so trimming it again changes nothing.
pub proof fn lemma_trim_fixpoint(s: Seq<u8>)
    ensures
        trim_trailing_slashes(trim_trailing_slashes(s)) == trim_trailing_slashes(s),
    decreases s.len(),
{
    if s.len() > 0 && s[s.len() - 1] == 47 {
        lemma_trim_fixpoint(s.drop_last());
    }
}

} // verus!
