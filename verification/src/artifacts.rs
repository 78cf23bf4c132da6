//! Artifact validation after a session stops: of the files the encoders
//! were expected to write, which are usable inputs for the compositor.
//!
//! The embedding application probes the filesystem (existence and byte
//! size) for each expected path and hands the results in; the decisions are
//! made here. Display indices must be contiguous: a missing index ends the
//! display set, while a zero-byte file is a recording failure for that one
//! source and is excluded without ending the probe.

use vstd::prelude::*;

use crate::combiner::views_of;

verus! {

/// The probe result for one expected artifact path: `size` is `None` when
/// the file does not exist.
#[derive(Debug, Clone)]
pub struct ArtifactProbe {
    pub path: String,
    pub size: Option<u64>,
}

/// A usable media artifact: it exists with a nonzero byte size.
#[derive(Debug, Clone)]
pub struct MediaArtifact {
    pub path: String,
    pub byte_size: u64,
}

impl ArtifactProbe {
    /// A probe is usable when the file exists and holds data.
    pub open spec fn spec_usable(self) -> bool {
        self.size matches Some(sz) && sz > 0
    }

    /// See [`ArtifactProbe::spec_usable`].
    pub fn usable(&self) -> (r: bool)
        ensures
            r == self.spec_usable(),
    {
        match self.size {
            Some(sz) => sz > 0,
            None => false,
        }
    }
}

/// The usable paths among the display probes, in index order, stopping at
/// the first missing index and skipping zero-byte files.
pub open spec fn spec_usable_displays(probes: Seq<ArtifactProbe>) -> Seq<Seq<char>>
    decreases probes.len(),
{
    if probes.len() == 0 {
        Seq::empty()
    } else {
        match probes[0].size {
            None => Seq::empty(),
            Some(sz) => (if sz > 0 {
                seq![probes[0].path@]
            } else {
                Seq::empty()
            }) + spec_usable_displays(probes.drop_first()),
        }
    }
}

/// The usable input set of one stop cycle: the usable display prefix, then
/// the webcam artifact if it probed usable. The webcam probe is independent
/// of the display gap rule.
pub open spec fn spec_usable_artifacts(
    displays: Seq<ArtifactProbe>,
    webcam: Option<ArtifactProbe>,
) -> Seq<Seq<char>> {
    spec_usable_displays(displays) + (match webcam {
        Some(p) => if p.spec_usable() {
            seq![p.path@]
        } else {
            Seq::empty()
        },
        None => Seq::empty(),
    })
}

/// Decides the usable input set from the probes of one stop cycle.
pub fn usable_artifacts(displays: &Vec<ArtifactProbe>, webcam: &Option<ArtifactProbe>) -> (r: Vec<
    String,
>)
    ensures
        views_of(r@) == spec_usable_artifacts(displays@, *webcam),
{
    let mut found: Vec<String> = Vec::new();
    let mut gap = false;
    let mut i: usize = 0;
    proof {
        assert(displays@.skip(0) =~= displays@);
        assert(spec_usable_displays(displays@) =~= views_of(found@) + spec_usable_displays(
            displays@.skip(0),
        ));
    }
    while i < displays.len() && !gap
        invariant
            i <= displays@.len(),
            !gap ==> spec_usable_displays(displays@) =~= views_of(found@) + spec_usable_displays(
                displays@.skip(i as int),
            ),
            gap ==> views_of(found@) =~= spec_usable_displays(displays@),
        decreases displays@.len() - i + (if gap {
            0int
        } else {
            1int
        }),
    {
        proof {
            assert(displays@.skip(i as int)[0] == displays@[i as int]);
            assert(displays@.skip(i as int).drop_first() =~= displays@.skip(i as int + 1));
        }
        match displays[i].size {
            None => {
                gap = true;
            },
            Some(sz) => {
                if sz > 0 {
                    found.push(displays[i].path.clone());
                }
                proof {
                    assert(spec_usable_displays(displays@) =~= views_of(found@)
                        + spec_usable_displays(displays@.skip(i as int + 1)));
                }
                i = i + 1;
            },
        }
    }
    proof {
        if !gap {
            assert(displays@.skip(displays@.len() as int) =~= Seq::<ArtifactProbe>::empty());
            assert(views_of(found@) =~= spec_usable_displays(displays@));
        }
    }
    if let Some(p) = webcam {
        if p.usable() {
            found.push(p.path.clone());
        }
    }
    proof {
        assert(views_of(found@) =~= spec_usable_artifacts(displays@, *webcam));
    }
    found
}

} // verus!
