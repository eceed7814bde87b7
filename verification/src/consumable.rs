//! A value that is handed out once.
use vstd::prelude::*;

verus! {

/// A value that the first to ask for it takes; whoever asks later gets nothing.
#[derive(Debug)]
pub struct Consumable<T> {
    pub value: Option<T>,
}

/// What the next to ask gets, and what is left for those after.
pub open spec fn asked<T>(consumable: Consumable<T>) -> (Option<T>, Consumable<T>) {
    (consumable.value, Consumable { value: None })
}

/// What requests get, one after another, and what is left. Each request names the
/// consumable that it reaches.
pub open spec fn served<T>(consumables: Seq<Consumable<T>>, requests: Seq<int>) -> (
    Seq<Consumable<T>>,
    Seq<Option<T>>,
)
    decreases requests.len(),
{
    if requests.len() == 0 {
        (consumables, seq![])
    } else {
        let (between, answers) = served(consumables, requests.drop_last());
        let (taken, left) = asked(between[requests.last()]);
        (between.update(requests.last(), left), answers.push(taken))
    }
}

/// Whether one of the requests before the given one reaches the same consumable.
pub open spec fn is_late(requests: Seq<int>, index: int) -> bool {
    exists|i: int| 0 <= i < index && #[trigger] requests[i] == requests[index]
}

impl<T> Consumable<T> {
    /// A value that nobody has taken yet.
    pub fn new(value: T) -> (consumable: Self)
        ensures
            consumable.value == Some(value),
    {
        Consumable { value: Some(value) }
    }

    /// Takes the value, where it is still there.
    pub fn consume(&mut self) -> (taken: Option<T>)
        ensures
            (taken, *final(self)) == asked(*old(self)),
    {
        self.value.take()
    }
}

/// However many ask, and in whatever order: of those that reach one consumable the
/// first gets the value and no other gets anything, and no other consumable is
/// affected.
pub proof fn values_are_handed_out_once<T>(consumables: Seq<Consumable<T>>, requests: Seq<int>)
    requires
        forall|i: int|
            0 <= i < requests.len() ==> 0 <= #[trigger] requests[i] < consumables.len(),
    ensures
        ({
            let (left, answers) = served(consumables, requests);
            &&& left.len() == consumables.len()
            &&& answers.len() == requests.len()
            &&& forall|i: int|
                0 <= i < requests.len() ==> #[trigger] answers[i] == if is_late(requests, i) {
                    None
                } else {
                    consumables[requests[i]].value
                }
            &&& forall|c: int|
                0 <= c < consumables.len() ==> (#[trigger] left[c]).value == if requests.contains(
                    c,
                ) {
                    None
                } else {
                    consumables[c].value
                }
        }),
    decreases requests.len(),
{
    if requests.len() > 0 {
        let earlier = requests.drop_last();
        let last = requests.len() - 1;
        assert forall|i: int| 0 <= i < earlier.len() implies 0 <= #[trigger] earlier[i]
            < consumables.len() by {
            assert(earlier[i] == requests[i]);
        }
        values_are_handed_out_once(consumables, earlier);
        let (left, answers) = served(consumables, requests);
        assert forall|i: int| 0 <= i < requests.len() implies #[trigger] answers[i] == if is_late(
            requests,
            i,
        ) {
            None
        } else {
            consumables[requests[i]].value
        } by {
            if i < last {
                assert(earlier[i] == requests[i]);
                if is_late(requests, i) {
                    let j = choose|j: int| 0 <= j < i && #[trigger] requests[j] == requests[i];
                    assert(earlier[j] == requests[j]);
                }
                if is_late(earlier, i) {
                    let j = choose|j: int| 0 <= j < i && #[trigger] earlier[j] == earlier[i];
                    assert(requests[j] == earlier[j]);
                }
                assert(is_late(requests, i) == is_late(earlier, i));
            } else {
                if is_late(requests, i) {
                    let j = choose|j: int| 0 <= j < i && #[trigger] requests[j] == requests[i];
                    assert(earlier[j] == requests[j]);
                }
                if earlier.contains(requests[i]) {
                    let j = choose|j: int| 0 <= j < earlier.len() && earlier[j] == requests[i];
                    assert(requests[j] == earlier[j]);
                }
                assert(is_late(requests, i) == earlier.contains(requests[i]));
            }
        }
        assert forall|c: int| 0 <= c < consumables.len() implies (#[trigger] left[c]).value
            == if requests.contains(c) {
            None
        } else {
            consumables[c].value
        } by {
            if requests.contains(c) && c != requests[last] {
                let j = choose|j: int| 0 <= j < requests.len() && requests[j] == c;
                assert(earlier[j] == c);
            }
            if earlier.contains(c) {
                let j = choose|j: int| 0 <= j < earlier.len() && earlier[j] == c;
                assert(requests[j] == c);
            }
            assert(c == requests[last] ==> requests.contains(c));
        }
    }
}

/// A request gets what is there, and leaves nothing.
pub proof fn requests_take_the_value<T>(value: Option<T>)
    ensures
        asked(Consumable { value }).0 == value,
        asked(Consumable { value }).1.value is None,
{
}

} // verus!
