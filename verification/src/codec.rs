//! The boundary between structured payloads and message bodies: the two
//! ways a conversion can fail, and the rule that a batch is published whole
//! or not at all.

use vstd::prelude::*;

verus! {

/// A message body that is not a well-formed encoding of the expected
/// record. It carries the parser's diagnostic.
#[derive(Debug, PartialEq, Eq)]
pub struct DecodeError {
    pub diagnostic: String,
}

impl View for DecodeError {
    type V = Seq<char>;

    open spec fn view(&self) -> Seq<char> {
        self.diagnostic@
    }
}

/// A record for which no encoding could be produced. It carries the
/// encoder's diagnostic.
#[derive(Debug, PartialEq, Eq)]
pub struct EncodeError {
    pub diagnostic: String,
}

impl View for EncodeError {
    type V = Seq<char>;

    open spec fn view(&self) -> Seq<char> {
        self.diagnostic@
    }
}

/// The outcome of encoding one record: its body or a diagnostic.
pub type Encoded = Result<Vec<u8>, EncodeError>;

/// The view of an [`Encoded`].
pub type EncodedView = Result<Seq<u8>, Seq<char>>;

/// The view of one encoding outcome.
pub open spec fn encoded_view(outcome: Encoded) -> EncodedView {
    match outcome {
        Ok(body) => Ok(body@),
        Err(e) => Err(e@),
    }
}

/// The views of a list of encoding outcomes, in order.
pub open spec fn encoded_views(outcomes: Seq<Encoded>) -> Seq<EncodedView> {
    outcomes.map_values(|o: Encoded| encoded_view(o))
}

/// The views of a list of bodies, in order.
pub open spec fn body_views(bodies: Seq<Vec<u8>>) -> Seq<Seq<u8>> {
    bodies.map_values(|b: Vec<u8>| b@)
}

/// Whether every record of the batch was encoded.
pub open spec fn all_encoded(outcomes: Seq<EncodedView>) -> bool {
    forall|i: int| 0 <= i < outcomes.len() ==> (#[trigger] outcomes[i]) is Ok
}

/// The bodies of a batch in which every record was encoded.
pub open spec fn bodies_of(outcomes: Seq<EncodedView>) -> Seq<Seq<u8>> {
    outcomes.map_values(|o: EncodedView| o->Ok_0)
}

/// The diagnostic of the first record of the batch that was not encoded.
pub open spec fn first_failure(outcomes: Seq<EncodedView>) -> Seq<char>
    decreases outcomes.len(),
{
    if outcomes.len() == 0 {
        Seq::empty()
    } else if outcomes[0] is Err {
        outcomes[0]->Err_0
    } else {
        first_failure(outcomes.skip(1))
    }
}

/// What becomes of an encoded batch.
pub open spec fn collected(outcomes: Seq<EncodedView>) -> Result<Seq<Seq<u8>>, Seq<char>> {
    if all_encoded(outcomes) {
        Ok(bodies_of(outcomes))
    } else {
        Err(first_failure(outcomes))
    }
}

/// The view of what [`collect_bodies`] returns.
pub open spec fn collected_view(out: Result<Vec<Vec<u8>>, EncodeError>) -> Result<
    Seq<Seq<u8>>,
    Seq<char>,
> {
    match out {
        Ok(bodies) => Ok(body_views(bodies@)),
        Err(e) => Err(e@),
    }
}

/// Where the first `k` records were encoded, the first failure of the batch
/// is that of the rest.
proof fn lemma_first_failure_skips(outcomes: Seq<EncodedView>, k: int)
    requires
        0 <= k <= outcomes.len(),
        forall|i: int| 0 <= i < k ==> (#[trigger] outcomes[i]) is Ok,
    ensures
        first_failure(outcomes) == first_failure(outcomes.skip(k)),
    decreases k,
{
    if k == 0 {
        assert(outcomes.skip(0) =~= outcomes);
    } else {
        lemma_first_failure_skips(outcomes.skip(1), k - 1);
        assert(outcomes.skip(1).skip(k - 1) =~= outcomes.skip(k));
    }
}

/// Gathers the bodies of an encoded batch. The batch counts only as a
/// whole: one record that was not encoded withholds them all, and its
/// diagnostic (the first, where there are several) is returned instead.
pub fn collect_bodies(outcomes: Vec<Encoded>) -> (out: Result<Vec<Vec<u8>>, EncodeError>)
    ensures
        collected_view(out) == collected(encoded_views(outcomes@)),
{
    let ghost views = encoded_views(outcomes@);
    let mut bodies: Vec<Vec<u8>> = Vec::new();
    for outcome in it: outcomes
        invariant
            views == encoded_views(it.seq()),
            bodies.len() == it.index(),
            forall|i: int| 0 <= i < it.index() ==> (#[trigger] views[i]) is Ok,
            forall|i: int| 0 <= i < it.index() ==> (#[trigger] bodies[i])@ == views[i]->Ok_0,
    {
        let ghost k = it.index() as int;
        match outcome {
            Ok(body) => {
                bodies.push(body);
            },
            Err(e) => {
                proof {
                    lemma_first_failure_skips(views, k);
                }
                return Err(e);
            },
        }
    }
    proof {
        assert(body_views(bodies@) =~= bodies_of(views));
    }
    Ok(bodies)
}

} // verus!
