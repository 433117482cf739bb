//! The binary identifiers of the overlay: opaque byte strings that differ
//! only in what they name.

use vstd::prelude::*;

verus! {

/// An identifier that is made of bytes and gives them back unchanged.
pub trait KitsuneBinType: Sized {
    /// The bytes of the identifier.
    spec fn bytes(&self) -> Seq<u8>;

    /// Wraps `bytes` as an identifier.
    fn new(bytes: Vec<u8>) -> (id: Self)
        ensures
            id.bytes() == bytes@,
    ;

    /// The bytes of the identifier.
    fn get_bytes(&self) -> (bytes: &[u8])
        ensures
            bytes@ == self.bytes(),
    ;
}

/// The identifier of a space, the network of one application.
#[derive(Clone, Debug)]
pub struct KitsuneSpace(pub Vec<u8>);

/// The identifier of an agent.
#[derive(Clone, Debug)]
pub struct KitsuneAgent(pub Vec<u8>);

/// The location that a piece of data is stored under.
#[derive(Clone, Debug)]
pub struct KitsuneBasis(pub Vec<u8>);

/// The hash of an operation.
#[derive(Clone, Debug)]
pub struct KitsuneOpHash(pub Vec<u8>);

impl KitsuneBinType for KitsuneSpace {
    open spec fn bytes(&self) -> Seq<u8> {
        self.0@
    }

    fn new(bytes: Vec<u8>) -> (id: Self) {
        KitsuneSpace(bytes)
    }

    fn get_bytes(&self) -> (bytes: &[u8]) {
        self.0.as_slice()
    }
}

impl KitsuneBinType for KitsuneAgent {
    open spec fn bytes(&self) -> Seq<u8> {
        self.0@
    }

    fn new(bytes: Vec<u8>) -> (id: Self) {
        KitsuneAgent(bytes)
    }

    fn get_bytes(&self) -> (bytes: &[u8]) {
        self.0.as_slice()
    }
}

impl KitsuneBinType for KitsuneBasis {
    open spec fn bytes(&self) -> Seq<u8> {
        self.0@
    }

    fn new(bytes: Vec<u8>) -> (id: Self) {
        KitsuneBasis(bytes)
    }

    fn get_bytes(&self) -> (bytes: &[u8]) {
        self.0.as_slice()
    }
}

impl KitsuneBinType for KitsuneOpHash {
    open spec fn bytes(&self) -> Seq<u8> {
        self.0@
    }

    fn new(bytes: Vec<u8>) -> (id: Self) {
        KitsuneOpHash(bytes)
    }

    fn get_bytes(&self) -> (bytes: &[u8]) {
        self.0.as_slice()
    }
}

} // verus!
