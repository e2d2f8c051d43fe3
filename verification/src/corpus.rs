//! The corpus: the inputs that the session has kept, each with the coverage
//! signature that made it worth keeping.

use vstd::prelude::*;
use libafl::corpus::Corpus;
use libafl::corpus::InMemoryCorpus;
use libafl::corpus::Testcase;
use libafl::inputs::ValueInput;

verus! {

/// libafl's `ValueInput`: an input that wraps one value; around a byte
/// vector it is libafl's `BytesInput`.
#[verifier::external_type_specification]
#[verifier::external_body]
#[verifier::reject_recursive_types(T)]
pub struct ExValueInput<T>(ValueInput<T>);

/// libafl's `InMemoryCorpus`: a corpus that keeps every test case in memory.
#[verifier::external_type_specification]
#[verifier::external_body]
#[verifier::reject_recursive_types(I)]
pub struct ExInMemoryCorpus<I>(InMemoryCorpus<I>);

/// The bytes of the inputs of the enabled test cases of an in-memory corpus,
/// in the order of their ids, which is the order in which they were added.
/// A corpus of this library is filled through `corpus_add` alone, so every
/// test case in it is enabled and holds its input.
pub uninterp spec fn corpus_inputs(corpus: InMemoryCorpus<ValueInput<Vec<u8>>>) -> Seq<Seq<u8>>;

/// `InMemoryCorpus::new` makes a corpus without test cases.
#[verifier::external_body]
fn corpus_new() -> (corpus: InMemoryCorpus<ValueInput<Vec<u8>>>)
    ensures
        corpus_inputs(corpus) == Seq::<Seq<u8>>::empty(),
{
    InMemoryCorpus::new()
}

/// `Corpus::count` of an `InMemoryCorpus` is the number of its enabled test
/// cases.
#[verifier::external_body]
fn corpus_count(corpus: &InMemoryCorpus<ValueInput<Vec<u8>>>) -> (count: usize)
    ensures
        count == corpus_inputs(*corpus).len(),
{
    corpus.count()
}

/// `Corpus::add` of an `InMemoryCorpus` gives the test case the next free
/// id, which is above every id in use, and stores it as enabled: the new
/// input comes last and the others stay. The call never fails.
#[verifier::external_body]
fn corpus_add(corpus: &mut InMemoryCorpus<ValueInput<Vec<u8>>>, input: Vec<u8>)
    ensures
        corpus_inputs(*final(corpus)) == corpus_inputs(*old(corpus)).push(input@),
{
    let _ = corpus.add(Testcase::new(ValueInput::new(input)));
}

/// `Corpus::nth` of an `InMemoryCorpus` is the id of the enabled test case
/// at that place, and `Corpus::cloned_input_for_id` a copy of the input
/// stored under an id. For a place below the count neither fails.
#[verifier::external_body]
fn corpus_input(corpus: &InMemoryCorpus<ValueInput<Vec<u8>>>, index: usize) -> (input: Vec<u8>)
    requires
        index < corpus_inputs(*corpus).len(),
    ensures
        input@ == corpus_inputs(*corpus)[index as int],
{
    corpus.cloned_input_for_id(corpus.nth(index)).map(Vec::from).unwrap_or_default()
}

/// One corpus entry as the contracts see it: an input and the coverage
/// snapshot of the run that made it interesting.
pub struct EntryView {
    /// The bytes of the input.
    pub input: Seq<u8>,
    /// The coverage snapshot of the run that had the input kept.
    pub signature: Seq<u8>,
}

/// The corpus of one session. Entries are added and never changed or
/// removed.
pub struct CorpusStore {
    inputs: InMemoryCorpus<ValueInput<Vec<u8>>>,
    signatures: Vec<Vec<u8>>,
}

impl CorpusStore {
    /// The entries, oldest first.
    pub closed spec fn view(&self) -> Seq<EntryView> {
        Seq::new(
            self.signatures@.len(),
            |i: int|
                EntryView {
                    input: corpus_inputs(self.inputs)[i],
                    signature: self.signatures@[i]@,
                },
        )
    }

    /// Every input has its signature.
    pub closed spec fn well_formed(&self) -> bool {
        corpus_inputs(self.inputs).len() == self.signatures@.len()
    }

    /// Makes an empty corpus.
    pub fn new() -> (store: CorpusStore)
        ensures
            store@ == Seq::<EntryView>::empty(),
            store.well_formed(),
    {
        let store = CorpusStore { inputs: corpus_new(), signatures: Vec::new() };
        assert(store@ =~= Seq::<EntryView>::empty());
        store
    }

    /// The number of entries.
    pub fn len(&self) -> (count: usize)
        requires
            self.well_formed(),
        ensures
            count == self@.len(),
    {
        corpus_count(&self.inputs)
    }

    /// Whether the corpus has no entry.
    pub fn is_empty(&self) -> (empty: bool)
        requires
            self.well_formed(),
        ensures
            empty == (self@.len() == 0),
    {
        corpus_count(&self.inputs) == 0
    }

    /// Adds an entry at the end and returns its place. The entries that
    /// were there stay as they are.
    pub fn add(&mut self, input: Vec<u8>, signature: Vec<u8>) -> (place: usize)
        requires
            old(self).well_formed(),
        ensures
            final(self)@ == old(self)@.push(EntryView { input: input@, signature: signature@ }),
            place == old(self)@.len(),
            final(self).well_formed(),
    {
        let place: usize = corpus_count(&self.inputs);
        let ghost entry = EntryView { input: input@, signature: signature@ };
        corpus_add(&mut self.inputs, input);
        self.signatures.push(signature);
        assert(self@ =~= old(self)@.push(entry));
        place
    }

    /// A copy of the input of the entry at `index`, if there is one.
    pub fn input(&self, index: usize) -> (input: Option<Vec<u8>>)
        requires
            self.well_formed(),
        ensures
            index < self@.len() ==> input is Some && input->Some_0@ == self@[index as int].input,
            index >= self@.len() ==> input is None,
    {
        if index < corpus_count(&self.inputs) {
            Some(corpus_input(&self.inputs, index))
        } else {
            None
        }
    }

    /// A copy of the signature of the entry at `index`, if there is one.
    pub fn signature(&self, index: usize) -> (signature: Option<Vec<u8>>)
        requires
            self.well_formed(),
        ensures
            index < self@.len() ==> signature is Some && signature->Some_0@
                == self@[index as int].signature,
            index >= self@.len() ==> signature is None,
    {
        if index < self.signatures.len() {
            Some(self.signatures[index].clone())
        } else {
            None
        }
    }
}

} // verus!
