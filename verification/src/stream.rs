//! Stream candidates and the choice of the one to download.

use crate::quality::QualityLabel;
use vstd::prelude::*;

verus! {

/// One downloadable rendition of a video, as far as the choice depends on it.
#[derive(Clone, Copy, Debug, PartialEq, Eq, Structural)]
pub struct StreamCandidate {
    /// The quality tier, where the source names one.
    pub quality_label: Option<QualityLabel>,
    /// Whether the rendition has a video track.
    pub includes_video_track: bool,
    /// Whether the rendition has an audio track.
    pub includes_audio_track: bool,
}

impl StreamCandidate {
    /// Whether the candidate may be downloaded: it has both tracks and a
    /// label, and the label is an acceptable one.
    pub open spec fn eligible(self) -> bool {
        &&& self.includes_video_track
        &&& self.includes_audio_track
        &&& self.quality_label matches Some(label)
        &&& label.acceptable()
    }

    /// The rank of the candidate's label; 0 where it has none.
    pub open spec fn ordinal(self) -> nat {
        match self.quality_label {
            Some(label) => label.ordinal(),
            None => 0,
        }
    }

    /// Computes `eligible`.
    pub fn is_eligible(&self) -> (r: bool)
        ensures
            r == self.eligible(),
    {
        match self.quality_label {
            Some(label) => self.includes_video_track && self.includes_audio_track
                && label.is_acceptable(),
            None => false,
        }
    }
}

/// Whether position `i` holds the candidate to download: an eligible one that
/// no eligible candidate outranks, and the last of those that rank equal to it.
pub open spec fn is_best(candidates: Seq<StreamCandidate>, i: int) -> bool {
    &&& 0 <= i < candidates.len()
    &&& candidates[i].eligible()
    &&& forall|j: int|
        0 <= j < candidates.len() && (#[trigger] candidates[j]).eligible() ==> {
            ||| candidates[j].ordinal() < candidates[i].ordinal()
            ||| candidates[j].ordinal() == candidates[i].ordinal() && j <= i
        }
}

/// Whether any candidate may be downloaded.
pub open spec fn has_eligible(candidates: Seq<StreamCandidate>) -> bool {
    exists|j: int| 0 <= j < candidates.len() && (#[trigger] candidates[j]).eligible()
}

/// The position of the candidate to download, or `None` where no candidate is
/// eligible.
pub open spec fn best_stream(candidates: Seq<StreamCandidate>) -> Option<int> {
    if exists|i: int| is_best(candidates, i) {
        Some(choose|i: int| is_best(candidates, i))
    } else {
        None
    }
}

/// At most one position is the best one.
pub proof fn best_is_unique(candidates: Seq<StreamCandidate>, i: int, k: int)
    requires
        is_best(candidates, i),
        is_best(candidates, k),
    ensures
        i == k,
{
    assert(candidates[i].eligible());
    assert(candidates[k].eligible());
}

/// The best position after one more candidate: the new, last position where
/// its candidate is eligible and ranks no lower than the best one before it,
/// and the best position before it otherwise.
spec fn extended_best(candidates: Seq<StreamCandidate>, earlier: Option<int>) -> Option<int> {
    let last = candidates.len() - 1;
    if candidates[last].eligible() && (earlier matches Some(i) ==> candidates[last].ordinal()
        >= candidates[i].ordinal()) {
        Some(last)
    } else {
        earlier
    }
}

/// `extended_best` is the best position of a list, given the best position
/// of the list without its last candidate.
proof fn best_extends(candidates: Seq<StreamCandidate>, earlier: Option<int>)
    requires
        candidates.len() > 0,
        earlier matches Some(i) ==> is_best(candidates.drop_last(), i),
        earlier is None ==> !has_eligible(candidates.drop_last()),
    ensures
        extended_best(candidates, earlier) matches Some(i) ==> is_best(candidates, i),
        extended_best(candidates, earlier) is None ==> !has_eligible(candidates),
{
    let front = candidates.drop_last();
    let last = candidates.len() - 1;
    assert forall|j: int| 0 <= j < last implies front[j] == #[trigger] candidates[j] by {}
    match extended_best(candidates, earlier) {
        Some(i) => {
            assert forall|j: int|
                0 <= j < candidates.len() && (#[trigger] candidates[j]).eligible() implies {
                ||| candidates[j].ordinal() < candidates[i].ordinal()
                ||| candidates[j].ordinal() == candidates[i].ordinal() && j <= i
            } by {
                if j < last {
                    assert(front[j].eligible());
                }
            }
        },
        None => {
            assert forall|j: int| 0 <= j < candidates.len() implies !(#[trigger] candidates[j])
                .eligible() by {
                if j < last {
                    assert(!front[j].eligible());
                }
            }
        },
    }
}

/// Finds the best position of a list of candidates, if it has one.
proof fn find_best(candidates: Seq<StreamCandidate>) -> (found: Option<int>)
    ensures
        found matches Some(i) ==> is_best(candidates, i),
        found is None ==> !has_eligible(candidates),
    decreases candidates.len(),
{
    if candidates.len() == 0 {
        None
    } else {
        let earlier = find_best(candidates.drop_last());
        best_extends(candidates, earlier);
        extended_best(candidates, earlier)
    }
}

/// A stream is chosen exactly where some candidate is eligible, and the
/// chosen position is the best one.
pub proof fn best_stream_is_best(candidates: Seq<StreamCandidate>)
    ensures
        best_stream(candidates) is Some <==> has_eligible(candidates),
        best_stream(candidates) matches Some(i) ==> is_best(candidates, i),
{
    match find_best(candidates) {
        Some(i) => {
            assert(candidates[i].eligible());
        },
        None => {
            assert forall|k: int| !is_best(candidates, k) by {
                if is_best(candidates, k) {
                    assert(candidates[k].eligible());
                }
            }
        },
    }
}

/// The chosen stream is eligible, and no eligible candidate ranks above it.
pub proof fn selection_is_maximal(candidates: Seq<StreamCandidate>, j: int)
    requires
        0 <= j < candidates.len(),
        candidates[j].eligible(),
    ensures
        best_stream(candidates) matches Some(i) && 0 <= i < candidates.len()
            && candidates[i].eligible() && candidates[j].ordinal() <= candidates[i].ordinal(),
{
    best_stream_is_best(candidates);
}

/// Candidates are filtered before they are ranked: where one candidate alone
/// is eligible it is chosen, whatever the ranks of the others.
pub proof fn sole_eligible_is_selected(candidates: Seq<StreamCandidate>, i: int)
    requires
        0 <= i < candidates.len(),
        candidates[i].eligible(),
        forall|j: int| 0 <= j < candidates.len() && j != i ==> !(#[trigger] candidates[j]).eligible(),
    ensures
        best_stream(candidates) == Some(i),
{
    best_stream_is_best(candidates);
    let k = best_stream(candidates)->0;
    assert(candidates[k].eligible());
}

/// Picks the stream to download: among the candidates with both tracks and an
/// acceptable label, the one of the highest rank; where several share that
/// rank, the last of them.  `None` exactly where no candidate is eligible.
pub fn select_stream(candidates: &Vec<StreamCandidate>) -> (choice: Option<usize>)
    ensures
        choice is Some <==> has_eligible(candidates@),
        choice matches Some(i) ==> is_best(candidates@, i as int),
        match choice {
            Some(i) => best_stream(candidates@) == Some(i as int),
            None => best_stream(candidates@) is None,
        },
{
    let mut choice: Option<usize> = None;
    let mut best_rank: u8 = 0;
    let mut n: usize = 0;
    while n < candidates.len()
        invariant
            n <= candidates.len(),
            choice matches Some(i) ==> i < n && best_rank == candidates@[i as int].ordinal()
                && is_best(candidates@.take(n as int), i as int),
            choice is None ==> !has_eligible(candidates@.take(n as int)),
        decreases candidates.len() - n,
    {
        let candidate = &candidates[n];
        let ghost earlier = match choice {
            Some(i) => Some(i as int),
            None => None,
        };
        proof {
            let seen = candidates@.take(n + 1);
            assert(seen.drop_last() =~= candidates@.take(n as int));
            best_extends(seen, earlier);
        }
        if candidate.is_eligible() {
            let rank = match candidate.quality_label {
                Some(label) => label.rank(),
                None => 0,
            };
            let replace = match choice {
                Some(_) => rank >= best_rank,
                None => true,
            };
            if replace {
                choice = Some(n);
                best_rank = rank;
            }
        }
        n += 1;
    }
    proof {
        assert(candidates@.take(n as int) =~= candidates@);
        best_stream_is_best(candidates@);
        if let Some(i) = choice {
            best_is_unique(candidates@, i as int, best_stream(candidates@)->0);
        }
    }
    choice
}

} // verus!
