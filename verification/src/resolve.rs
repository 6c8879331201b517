//! Finding the device that backs a filesystem: from the filesystem's own
//! source device up through its parents until a device has none.

use vstd::prelude::*;
use crate::error::{ErrorKind, InstallError, InstallErrorView};

verus! {

broadcast use vstd::string::group_string_axioms;

/// Where a walk up the parents stands.
#[derive(Debug)]
pub enum Resolution {
    /// The device has no parent: it is the backing device.
    Top { device: String },
    /// The parents of this device are not known yet and have to be looked
    /// up next.
    Ask { device: String },
}

/// The mathematical value of a walk up the parents.
pub enum Walk {
    Top { device: Seq<char> },
    Ask { device: Seq<char> },
    /// A device on the way has more than one parent.
    Ambiguous { first: Seq<char>, second: Seq<char> },
}

/// The walk that starts at `device` and has the lookups from position `i`
/// on at its disposal: `answers[i]` lists the parents of `device`, the
/// next answer those of its only parent, and so on. A device without
/// parents ends the walk, one with several makes it ambiguous, and when
/// the answers run out the device reached is the one to ask about.
pub open spec fn walk(device: Seq<char>, answers: Seq<Seq<Seq<char>>>, i: int) -> Walk
    decreases answers.len() - i,
{
    if i < 0 || i >= answers.len() {
        Walk::Ask { device }
    } else if answers[i].len() == 0 {
        Walk::Top { device }
    } else if answers[i].len() == 1 {
        walk(answers[i][0], answers, i + 1)
    } else {
        Walk::Ambiguous { first: answers[i][0], second: answers[i][1] }
    }
}

/// The result of a walk as the installer sees it: a device with several
/// parents is not supported.
pub open spec fn walk_result(w: Walk) -> Result<Walk, InstallErrorView> {
    match w {
        Walk::Ambiguous { first, second } => Err(
            InstallErrorView::MultipleParents { first, second },
        ),
        _ => Ok(w),
    }
}

impl View for Resolution {
    type V = Walk;

    open spec fn view(&self) -> Walk {
        match self {
            Resolution::Top { device } => Walk::Top { device: device@ },
            Resolution::Ask { device } => Walk::Ask { device: device@ },
        }
    }
}

/// Walks from `start` up the parents as far as the lookups made so far
/// reach. `answers[0]` holds the parents of `start`; each further answer
/// holds the parents of the device that the one before named.
pub fn backing_device(start: &str, answers: &Vec<Vec<String>>) -> (r: Result<
    Resolution,
    InstallError,
>)
    ensures
        match r {
            Ok(found) => walk_result(walk(start@, answers.deep_view(), 0)) == Ok::<
                Walk,
                InstallErrorView,
            >(found@),
            Err(e) => walk_result(walk(start@, answers.deep_view(), 0)) == Err::<
                Walk,
                InstallErrorView,
            >(e@),
        },
{
    let ghost all = answers.deep_view();
    let mut device = start.to_owned();
    let mut i: usize = 0;
    while i < answers.len()
        invariant
            i <= answers.len(),
            all == answers.deep_view(),
            walk(device@, all, i as int) == walk(start@, all, 0),
        decreases answers.len() - i,
    {
        let parents = &answers[i];
        assert(all[i as int] == parents.deep_view());
        assert(all[i as int].len() == parents.len());
        if parents.len() == 0 {
            return Ok(Resolution::Top { device });
        } else if parents.len() == 1 {
            assert(all[i as int][0] == parents@[0]@);
            device = parents[0].clone();
        } else {
            assert(all[i as int][0] == parents@[0]@);
            assert(all[i as int][1] == parents@[1]@);
            return Err(
                InstallError::MultipleParents {
                    first: parents[0].clone(),
                    second: parents[1].clone(),
                },
            );
        }
        i += 1;
    }
    Ok(Resolution::Ask { device })
}

/// The lookups along a chain of devices in which each but the last has the
/// next as its only parent, and the last has none.
pub open spec fn chain_answers(chain: Seq<Seq<char>>) -> Seq<Seq<Seq<char>>> {
    Seq::new(
        chain.len(),
        |i: int|
            if i + 1 < chain.len() {
                seq![chain[i + 1]]
            } else {
                Seq::empty()
            },
    )
}

proof fn lemma_walk_chain(chain: Seq<Seq<char>>, known: int, i: int)
    requires
        0 <= i <= known <= chain.len(),
        i < chain.len(),
    ensures
        walk(chain[i], chain_answers(chain).take(known), i) == if known == chain.len() {
            Walk::Top { device: chain.last() }
        } else {
            Walk::Ask { device: chain[known] }
        },
    decreases known - i,
{
    let answers = chain_answers(chain).take(known);
    if i < known {
        assert(answers[i] == chain_answers(chain)[i]);
        if i + 1 < chain.len() {
            assert(answers[i] =~= seq![chain[i + 1]]);
            lemma_walk_chain(chain, known, i + 1);
        }
    }
}

/// Along a chain of `n` devices, each the only parent of the one before
/// and the last without parent, the walk asks about the `k`-th device once
/// `k` lookups are in, and after `n` lookups it ends at the last device of
/// the chain.
pub proof fn lemma_linear_chain_resolves(chain: Seq<Seq<char>>)
    requires
        chain.len() > 0,
    ensures
        forall|k: int|
            0 <= k < chain.len() ==> #[trigger] walk(chain[0], chain_answers(chain).take(k), 0)
                == (Walk::Ask { device: chain[k] }),
        walk(chain[0], chain_answers(chain), 0) == (Walk::Top { device: chain.last() }),
{
    assert forall|k: int| 0 <= k < chain.len() implies #[trigger] walk(
        chain[0],
        chain_answers(chain).take(k),
        0,
    ) == (Walk::Ask { device: chain[k] }) by {
        lemma_walk_chain(chain, k, 0);
    }
    lemma_walk_chain(chain, chain.len() as int, 0);
    assert(chain_answers(chain).take(chain.len() as int) =~= chain_answers(chain));
}

/// A device that reports two or more parents makes the walk fail with a
/// topology error that names the first two of them.
pub proof fn lemma_multiple_parents_refused(device: Seq<char>, parents: Seq<Seq<char>>)
    requires
        parents.len() >= 2,
    ensures
        walk_result(walk(device, seq![parents], 0)) == Err::<Walk, InstallErrorView>(
            InstallErrorView::MultipleParents { first: parents[0], second: parents[1] },
        ),
        walk_result(walk(device, seq![parents], 0))->Err_0.kind() == ErrorKind::Topology,
{
}

proof fn lemma_walk_push(
    device: Seq<char>,
    answers: Seq<Seq<Seq<char>>>,
    parents: Seq<Seq<char>>,
    i: int,
)
    requires
        0 <= i <= answers.len(),
        walk(device, answers, i) is Ask,
    ensures
        walk(device, answers.push(parents), i) == walk(
            walk(device, answers, i)->Ask_device,
            seq![parents],
            0,
        ),
    decreases answers.len() - i,
{
    reveal_with_fuel(walk, 2);
    let longer = answers.push(parents);
    if i < answers.len() {
        assert(longer[i] == answers[i]);
        assert(answers[i].len() == 1);
        lemma_walk_push(answers[i][0], answers, parents, i + 1);
    } else {
        assert(longer[i] == parents);
        assert(seq![parents][0] == parents);
        assert(walk(device, answers, i) == (Walk::Ask { device }));
        if parents.len() == 1 {
            assert(walk(parents[0], longer, i + 1) == (Walk::Ask { device: parents[0] }));
            assert(walk(parents[0], seq![parents], 1) == (Walk::Ask { device: parents[0] }));
        }
    }
}

/// Each lookup carries the walk on by one device: where the walk asks
/// about a device and the parents of that device come in, the walk ends
/// there if it has none, asks about the parent if it has one, and is
/// ambiguous if it has several.
pub proof fn lemma_lookup_advances(
    start: Seq<char>,
    answers: Seq<Seq<Seq<char>>>,
    parents: Seq<Seq<char>>,
)
    requires
        walk(start, answers, 0) is Ask,
    ensures
        ({
            let device = walk(start, answers, 0)->Ask_device;
            walk(start, answers.push(parents), 0) == if parents.len() == 0 {
                Walk::Top { device }
            } else if parents.len() == 1 {
                Walk::Ask { device: parents[0] }
            } else {
                Walk::Ambiguous { first: parents[0], second: parents[1] }
            }
        }),
{
    reveal_with_fuel(walk, 2);
    lemma_walk_push(start, answers, parents, 0);
    assert(seq![parents][0] == parents);
}

} // verus!
