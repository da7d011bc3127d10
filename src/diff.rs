use vstd::prelude::*;
use crate::object::ObjectContents;

verus! {

/// A source object and a destination object are the same object when their
/// keys and their etags are equal, as strings.
pub open spec fn equivalent(s: ObjectContents, d: ObjectContents) -> bool {
    s.key@ == d.key@ && s.etag@ == d.etag@
}

/// A source object must be transferred unless the destination holds an
/// equivalent object.
pub open spec fn needs_transfer(s: ObjectContents, destination: Seq<ObjectContents>) -> bool {
    !exists|j: int| 0 <= j < destination.len() && equivalent(s, #[trigger] destination[j])
}

/// The source objects, in listing order, that the destination lacks.
pub open spec fn retained(
    source: Seq<ObjectContents>,
    destination: Seq<ObjectContents>,
) -> Seq<ObjectContents> {
    source.filter(|s: ObjectContents| needs_transfer(s, destination))
}

pub fn is_equivalent(s: &ObjectContents, d: &ObjectContents) -> (r: bool)
    ensures
        r == equivalent(*s, *d),
{
    s.key == d.key && s.etag == d.etag
}

/// Whether `destination` holds an object equivalent to `s`.
pub fn has_equivalent(s: &ObjectContents, destination: &Vec<ObjectContents>) -> (r: bool)
    ensures
        r == !needs_transfer(*s, destination@),
{
    let mut j: usize = 0;
    while j < destination.len()
        invariant
            j <= destination.len(),
            forall|k: int| 0 <= k < j ==> !equivalent(*s, #[trigger] destination@[k]),
        decreases destination.len() - j,
    {
        if is_equivalent(s, &destination[j]) {
            return true;
        }
        j = j + 1;
    }
    false
}

/// The diff of one bucket run: the source objects, in listing order, with no
/// equivalent object on the destination. Objects present only on the
/// destination are ignored.
pub fn objects_to_transfer(
    source: &Vec<ObjectContents>,
    destination: &Vec<ObjectContents>,
) -> (r: Vec<ObjectContents>)
    ensures
        r@ == retained(source@, destination@),
{
    let ghost pred = |s: ObjectContents| needs_transfer(s, destination@);
    let mut r: Vec<ObjectContents> = Vec::new();
    let mut i: usize = 0;
    while i < source.len()
        invariant
            i <= source.len(),
            pred == (|s: ObjectContents| needs_transfer(s, destination@)),
            r@ == source@.subrange(0, i as int).filter(pred),
        decreases source.len() - i,
    {
        proof {
            reveal(Seq::filter);
            assert(source@.subrange(0, i + 1).drop_last() =~= source@.subrange(0, i as int));
        }
        if !has_equivalent(&source[i], destination) {
            r.push(source[i].duplicate());
        }
        i = i + 1;
    }
    proof {
        assert(source@.subrange(0, source.len() as int) =~= source@);
    }
    r
}

} // verus!
