//! A cell is a pair of DNA and agent: a space where one agent tracks its
//! source chain under one DNA and serves network requests.

use vstd::prelude::*;
use vstd::std_specs::convert::FromSpecImpl;
use vstd::string::StringExecFns;

verus! {

/// The text of a cell identifier: the word `cell`, the text of the DNA
/// hash and the text of the agent key, joined by hyphens.
pub open spec fn cell_id_text(dna: Seq<char>, agent: Seq<char>) -> Seq<char> {
    "cell-"@ + dna + "-"@ + agent
}

/// Renders a cell identifier from the texts of its two parts.
pub fn format_cell_id(dna: &str, agent: &str) -> (text: String)
    ensures
        text@ == cell_id_text(dna@, agent@),
{
    let mut text = String::from_str("cell-");
    text.append(dna);
    text.append("-");
    text.append(agent);
    text
}

/// The unique identifier for a cell: the pair of a DNA hash `D` and an
/// agent key `A` is necessary and sufficient to refer to a cell in a
/// conductor.
#[derive(Clone, Debug, Hash, PartialEq, Eq)]
pub struct CellId<D, A>(D, A);

impl<D, A> CellId<D, A> {
    /// The DNA of the cell, as a value.
    pub closed spec fn spec_dna_hash(&self) -> D {
        self.0
    }

    /// The agent of the cell, as a value.
    pub closed spec fn spec_agent_pubkey(&self) -> A {
        self.1
    }

    /// The dna hash/address for this cell.
    pub fn dna_hash(&self) -> (hash: &D)
        ensures
            *hash == self.spec_dna_hash(),
    {
        &self.0
    }

    /// The agent id / public key for this cell.
    pub fn agent_pubkey(&self) -> (key: &A)
        ensures
            *key == self.spec_agent_pubkey(),
    {
        &self.1
    }
}

impl<D, A> From<(D, A)> for CellId<D, A> {
    fn from(pair: (D, A)) -> (id: Self)
        ensures
            id.spec_dna_hash() == pair.0,
            id.spec_agent_pubkey() == pair.1,
    {
        CellId(pair.0, pair.1)
    }
}

impl<D, A> FromSpecImpl<(D, A)> for CellId<D, A> {
    open spec fn obeys_from_spec() -> bool {
        true
    }

    closed spec fn from_spec(pair: (D, A)) -> Self {
        CellId(pair.0, pair.1)
    }
}

/// A conductor-specific name for a cell.
#[derive(Clone, Debug, Hash, PartialEq, Eq)]
pub struct CellHandle(String);

impl View for CellHandle {
    type V = Seq<char>;

    closed spec fn view(&self) -> Seq<char> {
        self.0@
    }
}

impl CellHandle {
    /// Renders the handle: the name itself.
    pub fn to_text(&self) -> (text: String)
        ensures
            text@ == self@,
    {
        self.0.clone()
    }

    /// Gives the name back.
    pub fn into_string(self) -> (name: String)
        ensures
            name@ == self@,
    {
        self.0
    }
}

impl From<String> for CellHandle {
    fn from(name: String) -> (handle: Self)
        ensures
            handle@ == name@,
    {
        CellHandle(name)
    }
}

impl FromSpecImpl<String> for CellHandle {
    open spec fn obeys_from_spec() -> bool {
        true
    }

    closed spec fn from_spec(name: String) -> Self {
        CellHandle(name)
    }
}

impl From<&str> for CellHandle {
    fn from(name: &str) -> (handle: Self)
        ensures
            handle@ == name@,
    {
        CellHandle(name.to_owned())
    }
}

impl FromSpecImpl<&str> for CellHandle {
    /// A text has many owned copies, so the result is fixed by the
    /// `ensures` of `from` and not by a value.
    open spec fn obeys_from_spec() -> bool {
        false
    }

    open spec fn from_spec(name: &str) -> Self {
        arbitrary()
    }
}

} // verus!
