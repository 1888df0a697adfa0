//! The persisted set of post identifiers that were already handled.
//!
//! The set lives in memory as an ordered vector of identifiers and is written
//! out as one JSON array of strings after every loop iteration, so that a
//! restart never replies to a post a second time. Encoding and decoding are
//! done by serde_json behind trusted wrappers; everything else is verified.

use vstd::prelude::*;

verus! {

/// The views of a sequence of strings, element by element.
pub open spec fn string_views(v: Seq<String>) -> Seq<Seq<char>> {
    Seq::new(v.len(), |i: int| v[i]@)
}

/// The JSON text serde_json produces for a vector of strings with these views.
pub uninterp spec fn ids_json(ids: Seq<Seq<char>>) -> Seq<char>;

/// Relies on serde_json::to_string: the JSON text written for a vector of
/// strings is a function of the strings alone, and serializing a vector of
/// strings cannot fail (only maps with non-string keys or failing Serialize
/// impls can).
#[verifier::external_body]
fn encode_ids(ids: &Vec<String>) -> (r: String)
    ensures
        r@ == ids_json(string_views(ids@)),
{
    serde_json::to_string(ids).unwrap()
}

/// Relies on serde_json::from_str: parsing the JSON text that
/// serde_json::to_string produced for a vector of strings yields that vector
/// back; any other input at worst fails to parse.
#[verifier::external_body]
fn decode_ids(data: &str) -> (r: Option<Vec<String>>)
    ensures
        match r {
            Some(v) => forall|w: Seq<Seq<char>>| data@ == #[trigger] ids_json(w)
                ==> string_views(v@) == w,
            None => forall|w: Seq<Seq<char>>| data@ != #[trigger] ids_json(w),
        },
{
    serde_json::from_str::<Vec<String>>(data).ok()
}

/// The membership of `ids` after recording `id`: unchanged when `id` is
/// already present, appended otherwise.
pub open spec fn with_id(ids: Seq<Seq<char>>, id: Seq<char>) -> Seq<Seq<char>> {
    if ids.contains(id) {
        ids
    } else {
        ids.push(id)
    }
}

/// Recording an identifier twice is the same as recording it once, so both
/// the membership and the persisted size of the set stay unchanged on the
/// second call.
pub proof fn lemma_with_id_idempotent(ids: Seq<Seq<char>>, id: Seq<char>)
    ensures
        with_id(with_id(ids, id), id) == with_id(ids, id),
{
    if !ids.contains(id) {
        assert(ids.push(id)[ids.len() as int] == id);
        assert(ids.push(id).contains(id));
    }
}

/// The ordered set of post identifiers already handled.
pub struct ProcessedSet {
    ids: Vec<String>,
}

impl View for ProcessedSet {
    type V = Seq<Seq<char>>;

    closed spec fn view(&self) -> Seq<Seq<char>> {
        string_views(self.ids@)
    }
}

impl ProcessedSet {
    /// The empty set, used when no persisted file exists yet.
    pub fn new() -> (r: Self)
        ensures
            r@ == Seq::<Seq<char>>::empty(),
    {
        let r = ProcessedSet { ids: Vec::new() };
        proof {
            assert(r@ =~= Seq::<Seq<char>>::empty());
        }
        r
    }

    /// Rebuild the set from persisted text. Text that is not the encoding of
    /// an identifier vector yields the empty set rather than an error.
    pub fn restore(data: &str) -> (r: Self)
        ensures
            forall|w: Seq<Seq<char>>| data@ == #[trigger] ids_json(w) ==> r@ == w,
    {
        match decode_ids(data) {
            Some(ids) => ProcessedSet { ids },
            None => ProcessedSet { ids: Vec::new() },
        }
    }

    /// How many identifiers the set holds.
    pub fn len(&self) -> (n: usize)
        ensures
            n == self@.len(),
    {
        self.ids.len()
    }

    /// Whether `id` was already handled.
    pub fn contains(&self, id: &String) -> (b: bool)
        ensures
            b == self@.contains(id@),
    {
        let n = self.ids.len();
        let mut k: usize = 0;
        while k < n
            invariant
                n == self.ids@.len(),
                k <= n,
                forall|j: int| 0 <= j < k ==> self@[j] != id@,
            decreases n - k,
        {
            if self.ids[k] == *id {
                proof {
                    assert(self@[k as int] == self.ids@[k as int]@);
                    assert(self@.contains(id@));
                }
                return true;
            }
            proof {
                assert(self@[k as int] == self.ids@[k as int]@);
            }
            k += 1;
        }
        false
    }

    /// Record an identifier; a second call with the same identifier leaves
    /// the set unchanged.
    pub fn add(&mut self, id: &String)
        ensures
            final(self)@ == with_id(old(self)@, id@),
    {
        if !self.contains(id) {
            self.ids.push(id.clone());
            proof {
                assert(self@ =~= old(self)@.push(id@));
            }
        }
    }

    /// The persisted form of the set: one JSON array of identifier strings.
    pub fn encode(&self) -> (r: String)
        ensures
            r@ == ids_json(self@),
    {
        encode_ids(&self.ids)
    }
}

/// Durability law: rebuilding a processed set from its own persisted form
/// yields the identifiers back exactly, so a restart from the flushed file
/// sees every identifier the previous run recorded.
pub fn reload(set: &ProcessedSet) -> (r: ProcessedSet)
    ensures
        r@ == set@,
{
    let data = set.encode();
    ProcessedSet::restore(data.as_str())
}

} // verus!
