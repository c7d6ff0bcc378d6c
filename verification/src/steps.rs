//! The steps of a preparation as a form submits them: keyed by the number in
//! the field name, listed in ascending order, renumbered from one.

use vstd::prelude::*;

verus! {

/// An image submitted for a step.
#[derive(Debug)]
pub struct StepImage {
    pub data: Vec<u8>,
    pub filename: String,
}

/// One step as submitted.
#[derive(Debug)]
pub struct StepDraft {
    /// The number taken from the field name.
    pub number: usize,
    pub description: String,
    pub image: Option<StepImage>,
}

/// One step as it will be recorded.
#[derive(Debug)]
pub struct NumberedStep {
    /// Position in the preparation, counted from one.
    pub step_number: usize,
    pub description: String,
    pub image: Option<StepImage>,
}

/// What a step holds.
pub struct StepView {
    pub description: Seq<char>,
    pub image: Option<(Seq<u8>, Seq<char>)>,
}

/// Bytes and file name of an optional image.
pub open spec fn image_view(image: Option<StepImage>) -> Option<(Seq<u8>, Seq<char>)> {
    match image {
        Some(i) => Some((i.data@, i.filename@)),
        None => None,
    }
}

impl View for StepDraft {
    type V = StepView;

    open spec fn view(&self) -> StepView {
        StepView { description: self.description@, image: image_view(self.image) }
    }
}

/// Steps in strictly ascending order of their numbers.
pub open spec fn ascending(steps: Seq<StepDraft>) -> bool {
    forall|i: int, j: int| 0 <= i < j < steps.len() ==> steps[i].number < steps[j].number
}

/// The steps as a map from number to content.
pub open spec fn as_map(steps: Seq<StepDraft>) -> Map<usize, StepView> {
    Map::new(
        |n: usize| exists|i: int| 0 <= i < steps.len() && #[trigger] steps[i].number == n,
        |n: usize|
            steps[choose|i: int| 0 <= i < steps.len() && #[trigger] steps[i].number == n]@,
    )
}

/// In an ascending list each number stands once, so the map holds each step
/// under its number.
pub proof fn lemma_lookup(steps: Seq<StepDraft>, i: int)
    requires
        ascending(steps),
        0 <= i < steps.len(),
    ensures
        as_map(steps).contains_key(steps[i].number),
        as_map(steps)[steps[i].number] == steps[i]@,
{
    let n = steps[i].number;
    let k = choose|k: int| 0 <= k < steps.len() && #[trigger] steps[k].number == n;
    assert(k == i) by {
        if k < i {
            assert(steps[k].number < steps[i].number);
        } else if i < k {
            assert(steps[i].number < steps[k].number);
        }
    }
}

/// The steps of one submission, at most one for each number, kept in
/// ascending order of their numbers.
#[derive(Debug)]
pub struct StepTable {
    steps: Vec<StepDraft>,
}

impl View for StepTable {
    type V = Map<usize, StepView>;

    open spec fn view(&self) -> Map<usize, StepView> {
        as_map(self.listing())
    }
}

/// The content of step `number` after a description arrived for it: an image
/// received earlier stays.
pub open spec fn described(table: Map<usize, StepView>, number: usize, text: Seq<char>) -> StepView {
    StepView {
        description: text,
        image: if table.contains_key(number) {
            table[number].image
        } else {
            None
        },
    }
}

/// The content of step `number` after an image arrived for it: a description
/// received earlier stays, else it is empty.
pub open spec fn illustrated(
    table: Map<usize, StepView>,
    number: usize,
    data: Seq<u8>,
    filename: Seq<char>,
) -> StepView {
    StepView {
        description: if table.contains_key(number) {
            table[number].description
        } else {
            Seq::empty()
        },
        image: Some((data, filename)),
    }
}

/// Index of the first step whose number is not below `number`.
fn position(steps: &Vec<StepDraft>, number: usize) -> (r: usize)
    requires
        ascending(steps@),
    ensures
        r <= steps@.len(),
        forall|k: int| 0 <= k < r ==> steps@[k].number < number,
        forall|k: int| r <= k < steps@.len() ==> steps@[k].number >= number,
        as_map(steps@).contains_key(number) <==> (r < steps@.len() && steps@[r as int].number
            == number),
{
    let mut i: usize = 0;
    while i < steps.len() && steps[i].number < number
        invariant
            i <= steps@.len(),
            forall|k: int| 0 <= k < i ==> steps@[k].number < number,
        decreases steps@.len() - i,
    {
        i = i + 1;
    }
    proof {
        assert forall|k: int| i <= k < steps@.len() implies steps@[k].number >= number by {
            if i < k {
                assert(steps@[i as int].number < steps@[k].number);
            }
        }
        if as_map(steps@).contains_key(number) {
            let k = choose|k: int| 0 <= k < steps@.len() && #[trigger] steps@[k].number == number;
            assert(k >= i);
            if k > i {
                assert(steps@[i as int].number < steps@[k].number);
            }
        }
        if i < steps@.len() && steps@[i as int].number == number {
            lemma_lookup(steps@, i as int);
        }
    }
    i
}

/// The steps with the step at `at` taken out.
proof fn lemma_without(before: Seq<StepDraft>, at: int)
    requires
        ascending(before),
        0 <= at < before.len(),
    ensures
        ascending(before.remove(at)),
        as_map(before.remove(at)) =~= as_map(before).remove(before[at].number),
{
    let after = before.remove(at);
    assert forall|i: int, j: int| 0 <= i < j < after.len() implies after[i].number
        < after[j].number by {
        let bi = if i < at {
            i
        } else {
            i + 1
        };
        let bj = if j < at {
            j
        } else {
            j + 1
        };
        assert(before[bi].number < before[bj].number);
    }
    let target = as_map(before).remove(before[at].number);
    assert forall|n: usize| as_map(after).contains_key(n) implies #[trigger] target.contains_key(
        n,
    ) by {
        let i = choose|i: int| 0 <= i < after.len() && #[trigger] after[i].number == n;
        let b = if i < at {
            i
        } else {
            i + 1
        };
        assert(before[b].number == n);
        if b < at {
            assert(before[b].number < before[at].number);
        } else {
            assert(before[at].number < before[b].number);
        }
    }
    assert forall|n: usize| #[trigger] target.contains_key(n) implies as_map(after).contains_key(
        n,
    ) by {
        let k = choose|k: int| 0 <= k < before.len() && #[trigger] before[k].number == n;
        let i = if k < at {
            k
        } else {
            k - 1
        };
        assert(after[i].number == n);
    }
    assert forall|n: usize| as_map(after).contains_key(n) implies #[trigger] as_map(after)[n]
        == target[n] by {
        let i = choose|i: int| 0 <= i < after.len() && #[trigger] after[i].number == n;
        lemma_lookup(after, i);
        let b = if i < at {
            i
        } else {
            i + 1
        };
        assert(before[b] == after[i]);
        lemma_lookup(before, b);
    }
}

/// The steps with `step` put in at `at`, where every step before has a lower
/// number and every step from there on a higher one.
proof fn lemma_with(before: Seq<StepDraft>, at: int, step: StepDraft)
    requires
        ascending(before),
        0 <= at <= before.len(),
        forall|k: int| 0 <= k < at ==> before[k].number < step.number,
        forall|k: int| at <= k < before.len() ==> before[k].number > step.number,
    ensures
        ascending(before.insert(at, step)),
        as_map(before.insert(at, step)) =~= as_map(before).insert(step.number, step@),
{
    let after = before.insert(at, step);
    assert forall|i: int, j: int| 0 <= i < j < after.len() implies after[i].number
        < after[j].number by {
        if i < at && j > at {
            assert(before[i].number < before[j - 1].number);
        } else if i > at {
            assert(before[i - 1].number < before[j - 1].number);
        } else if j < at {
            assert(before[i].number < before[j].number);
        }
    }
    let target = as_map(before).insert(step.number, step@);
    assert forall|n: usize| as_map(after).contains_key(n) implies #[trigger] target.contains_key(
        n,
    ) by {
        let i = choose|i: int| 0 <= i < after.len() && #[trigger] after[i].number == n;
        if i != at {
            let k = if i < at {
                i
            } else {
                i - 1
            };
            assert(before[k].number == n);
        }
    }
    assert forall|n: usize| #[trigger] target.contains_key(n) implies as_map(after).contains_key(
        n,
    ) by {
        if n == step.number {
            assert(after[at].number == n);
        } else {
            let k = choose|k: int| 0 <= k < before.len() && #[trigger] before[k].number == n;
            let i = if k < at {
                k
            } else {
                k + 1
            };
            assert(after[i].number == n);
        }
    }
    assert forall|n: usize| as_map(after).contains_key(n) implies #[trigger] as_map(after)[n]
        == target[n] by {
        let i = choose|i: int| 0 <= i < after.len() && #[trigger] after[i].number == n;
        lemma_lookup(after, i);
        if i != at {
            let k = if i < at {
                i
            } else {
                i - 1
            };
            assert(before[k] == after[i]);
            lemma_lookup(before, k);
        }
    }
}

/// Takes the step with the given number out of the list, if it is there.
fn take_step(steps: &mut Vec<StepDraft>, number: usize) -> (r: (usize, Option<StepDraft>))
    requires
        ascending(old(steps)@),
    ensures
        ascending(final(steps)@),
        as_map(final(steps)@) == as_map(old(steps)@).remove(number),
        r.0 <= final(steps)@.len(),
        forall|k: int| 0 <= k < r.0 ==> final(steps)@[k].number < number,
        forall|k: int| r.0 <= k < final(steps)@.len() ==> final(steps)@[k].number > number,
        match r.1 {
            Some(step) => as_map(old(steps)@).contains_key(number) && step.number == number
                && step@ == as_map(old(steps)@)[number],
            None => !as_map(old(steps)@).contains_key(number),
        },
{
    let at = position(steps, number);
    if at < steps.len() && steps[at].number == number {
        proof {
            lemma_without(steps@, at as int);
            lemma_lookup(steps@, at as int);
            assert forall|k: int| at <= k < steps@.remove(at as int).len() implies steps@.remove(
                at as int,
            )[k].number > number by {
                assert(steps@[at as int].number < steps@[k + 1].number);
            }
        }
        let step = steps.remove(at);
        (at, Some(step))
    } else {
        proof {
            assert(as_map(steps@).remove(number) =~= as_map(steps@));
        }
        (at, None)
    }
}

impl StepTable {
    #[verifier::type_invariant]
    spec fn in_order(&self) -> bool {
        ascending(self.steps@)
    }

    /// The steps in ascending order of their numbers.
    pub closed spec fn listing(&self) -> Seq<StepDraft> {
        self.steps@
    }

    /// A table without steps.
    pub fn new() -> (r: StepTable)
        ensures
            r@ == Map::<usize, StepView>::empty(),
            r.listing().len() == 0,
    {
        let r = StepTable { steps: Vec::new() };
        assert(r@ =~= Map::<usize, StepView>::empty());
        r
    }

    /// Number of steps.
    pub fn len(&self) -> (r: usize)
        ensures
            r == self.listing().len(),
    {
        self.steps.len()
    }

    /// Records the description of step `number`, keeping the image that the
    /// step may already have.
    pub fn set_description(&mut self, number: usize, text: String)
        ensures
            final(self)@ == old(self)@.insert(number, described(old(self)@, number, text@)),
    {
        proof {
            use_type_invariant(&*self);
        }
        let mut steps: Vec<StepDraft> = Vec::new();
        std::mem::swap(&mut self.steps, &mut steps);
        let (at, found) = take_step(&mut steps, number);
        let image = match found {
            Some(step) => step.image,
            None => None,
        };
        let step = StepDraft { number, description: text, image };
        proof {
            lemma_with(steps@, at as int, step);
            assert(step@ == described(old(self)@, number, text@));
            assert(as_map(old(self).steps@).remove(number).insert(number, step@) =~= as_map(
                old(self).steps@,
            ).insert(number, step@));
        }
        steps.insert(at, step);
        self.steps = steps;
    }

    /// Records the image of step `number`, keeping the description that the
    /// step may already have.
    pub fn set_image(&mut self, number: usize, image: StepImage)
        ensures
            final(self)@ == old(self)@.insert(
                number,
                illustrated(old(self)@, number, image.data@, image.filename@),
            ),
    {
        proof {
            use_type_invariant(&*self);
        }
        let mut steps: Vec<StepDraft> = Vec::new();
        std::mem::swap(&mut self.steps, &mut steps);
        let (at, found) = take_step(&mut steps, number);
        let description = match found {
            Some(step) => step.description,
            None => String::new(),
        };
        let step = StepDraft { number, description, image: Some(image) };
        proof {
            lemma_with(steps@, at as int, step);
            assert(step@ == illustrated(old(self)@, number, image.data@, image.filename@));
            assert(as_map(old(self).steps@).remove(number).insert(number, step@) =~= as_map(
                old(self).steps@,
            ).insert(number, step@));
        }
        steps.insert(at, step);
        self.steps = steps;
    }

    /// Hands the steps out in ascending order of their submitted numbers,
    /// renumbered 1, 2, 3 and so on.
    pub fn into_numbered(self) -> (r: Vec<NumberedStep>)
        ensures
            ascending(self.listing()),
            r@.len() == self.listing().len(),
            forall|i: int|
                0 <= i < r@.len() ==> {
                    &&& (#[trigger] r@[i]).step_number == i + 1
                    &&& r@[i].description@ == self.listing()[i].description@
                    &&& image_view(r@[i].image) == image_view(self.listing()[i].image)
                },
    {
        proof {
            use_type_invariant(&self);
        }
        let mut steps = self.steps;
        let mut out: Vec<NumberedStep> = Vec::new();
        while steps.len() > 0
            invariant
                steps@.len() + out@.len() == self.steps@.len(),
                steps@ == self.steps@.take(steps@.len() as int),
                forall|i: int|
                    0 <= i < out@.len() ==> {
                        &&& (#[trigger] out@[i]).step_number == steps@.len() + i + 1
                        &&& out@[i].description@ == self.steps@[steps@.len() + i].description@
                        &&& image_view(out@[i].image) == image_view(
                            self.steps@[steps@.len() + i].image,
                        )
                    },
            decreases steps@.len(),
        {
            let step_number = steps.len();
            let step = steps.pop().unwrap();
            assert(step == self.steps@[step_number - 1]);
            assert(steps@ =~= self.steps@.take(steps@.len() as int));
            out.insert(
                0,
                NumberedStep { step_number, description: step.description, image: step.image },
            );
        }
        out
    }
}

} // verus!
