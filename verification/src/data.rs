//! Shared data model: content keys, supplier records, peer identities and
//! listen addresses. Everything here is plain data; identities and addresses
//! that the transport layer mints are carried as opaque byte strings and
//! never interpreted by this crate.

use vstd::prelude::*;

verus! {

/// Canonical content address of a file: an opaque byte string. Equality is
/// equality of the raw bytes. Used as the record key of the routing engine
/// and as the wire-protocol request body.
#[derive(Debug, PartialEq, Eq, Hash)]
pub struct FileHash(pub Vec<u8>);

impl View for FileHash {
    type V = Seq<u8>;

    open spec fn view(&self) -> Seq<u8> {
        self.0@
    }
}

/// Copies the bytes of a vector into a fresh vector.
fn copy_bytes(v: &Vec<u8>) -> (r: Vec<u8>)
    ensures
        r@ == v@,
{
    let mut out: Vec<u8> = Vec::new();
    let mut i: usize = 0;
    while i < v.len()
        invariant
            i <= v.len(),
            out@ == v@.subrange(0, i as int),
        decreases v.len() - i,
    {
        out.push(v[i]);
        i = i + 1;
        proof {
            assert(out@ =~= v@.subrange(0, i as int));
        }
    }
    proof {
        assert(v@.subrange(0, v@.len() as int) =~= v@);
    }
    out
}

impl Clone for FileHash {
    fn clone(&self) -> (r: Self)
        ensures
            r@ == self@,
    {
        FileHash(copy_bytes(&self.0))
    }
}

/// A version-4 internet address as its four plain octets, most significant
/// first. The transport crate's own address type stays outside this library;
/// the octets are all the logic here ever reads.
#[derive(Debug, Clone, Copy, PartialEq, Eq, Hash, Structural)]
pub struct Ipv4 {
    pub a: u8,
    pub b: u8,
    pub c: u8,
    pub d: u8,
}

/// The value stored and transmitted for a given content key: where and on
/// what terms a peer supplies the file. Immutable once constructed; compared
/// by full structural equality.
#[derive(Debug, PartialEq, Eq, Hash)]
pub struct SupplierInfo {
    pub ip: Ipv4,
    pub port: u16,
    /// Price per megabyte, in signed units.
    pub price: i64,
    pub username: String,
}

impl Clone for SupplierInfo {
    fn clone(&self) -> (r: Self)
        ensures
            r == self,
    {
        SupplierInfo {
            ip: self.ip,
            port: self.port,
            price: self.price,
            username: self.username.clone(),
        }
    }
}

/// The unit registered into the routing engine and the local market map.
#[derive(Debug, PartialEq, Eq, Hash)]
pub struct FileMetadata {
    pub file_hash: FileHash,
    pub supplier_info: SupplierInfo,
}

/// Identity of a peer, as the opaque byte string the transport layer mints
/// for it. The logic only stores and compares these bytes.
#[derive(Debug, PartialEq, Eq, Hash)]
pub struct PeerId(pub Vec<u8>);

impl View for PeerId {
    type V = Seq<u8>;

    open spec fn view(&self) -> Seq<u8> {
        self.0@
    }
}

impl DeepView for PeerId {
    type V = Seq<u8>;

    open spec fn deep_view(&self) -> Seq<u8> {
        self@
    }
}

impl Clone for PeerId {
    fn clone(&self) -> (r: Self)
        ensures
            r@ == self@,
    {
        PeerId(copy_bytes(&self.0))
    }
}

/// A listen or dial address in its textual form. The logic never parses
/// these; they are carried between the configuration, the transport and the
/// caller unchanged.
#[derive(Debug, PartialEq, Eq, Hash)]
pub struct Multiaddr(pub String);

impl View for Multiaddr {
    type V = Seq<char>;

    open spec fn view(&self) -> Seq<char> {
        self.0@
    }
}

impl DeepView for Multiaddr {
    type V = Seq<char>;

    open spec fn deep_view(&self) -> Seq<char> {
        self@
    }
}

impl Clone for Multiaddr {
    fn clone(&self) -> (r: Self)
        ensures
            r == self,
    {
        Multiaddr(self.0.clone())
    }
}

} // verus!
