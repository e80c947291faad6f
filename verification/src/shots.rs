//! The content of a content-mapping description: the mastering display and
//! the shots of the asset, each with its per-frame metadata.

use vstd::prelude::*;
use crate::metadata::{Level1Metadata, Level2Metadata, Level3Metadata, Level6Metadata};

verus! {

/// A run of frames that share one set of content-mapping parameters. Each
/// list is indexed by the frame's position in the shot; a list that is
/// absent or too short leaves the frame without that level.
#[derive(Clone, Debug, PartialEq, Eq)]
pub struct Shot {
    /// The number of frames of the shot.
    pub duration: usize,
    pub level1: Option<Vec<Level1Metadata>>,
    pub level2: Option<Vec<Vec<Level2Metadata>>>,
    pub level3: Option<Vec<Level3Metadata>>,
}

/// The mathematical content of a `Shot`.
pub struct ShotView {
    pub duration: nat,
    pub level1: Option<Seq<Level1Metadata>>,
    pub level2: Option<Seq<Seq<Level2Metadata>>>,
    pub level3: Option<Seq<Level3Metadata>>,
}

impl ShotView {
    /// The level 1 sample of a frame of the shot, where it has one.
    pub open spec fn level1_at(self, frame: int) -> Option<Level1Metadata> {
        match self.level1 {
            Some(list) => if 0 <= frame < list.len() {
                Some(list[frame])
            } else {
                None
            },
            None => None,
        }
    }

    /// The trims of a frame of the shot, where it has any.
    pub open spec fn level2_at(self, frame: int) -> Option<Seq<Level2Metadata>> {
        match self.level2 {
            Some(list) => if 0 <= frame < list.len() {
                Some(list[frame])
            } else {
                None
            },
            None => None,
        }
    }

    /// The level 3 offsets of a frame of the shot, where it has any.
    pub open spec fn level3_at(self, frame: int) -> Option<Level3Metadata> {
        match self.level3 {
            Some(list) => if 0 <= frame < list.len() {
                Some(list[frame])
            } else {
                None
            },
            None => None,
        }
    }
}

impl View for Shot {
    type V = ShotView;

    open spec fn view(&self) -> ShotView {
        ShotView {
            duration: self.duration as nat,
            level1: match self.level1 {
                Some(list) => Some(list@),
                None => None,
            },
            level2: match self.level2 {
                Some(list) => Some(Seq::new(list@.len(), |i: int| list@[i]@)),
                None => None,
            },
            level3: match self.level3 {
                Some(list) => Some(list@),
                None => None,
            },
        }
    }
}

/// What a content-mapping description says of an asset.
#[derive(Clone, Debug, PartialEq, Eq)]
pub struct ContentMapping {
    /// The length of the asset in frames, as the description states it.
    pub video_length: u64,
    /// The mastering display and light levels, the same for every frame.
    pub level6: Level6Metadata,
    /// The shots, in order and without gaps.
    pub shots: Vec<Shot>,
}

/// The mathematical content of a `ContentMapping`.
pub struct ContentMappingView {
    pub video_length: nat,
    pub level6: Level6Metadata,
    pub shots: Seq<ShotView>,
}

impl View for ContentMapping {
    type V = ContentMappingView;

    open spec fn view(&self) -> ContentMappingView {
        ContentMappingView {
            video_length: self.video_length as nat,
            level6: self.level6,
            shots: Seq::new(self.shots@.len(), |i: int| self.shots@[i]@),
        }
    }
}

/// The number of frames of a list of shots.
pub open spec fn total_duration(shots: Seq<ShotView>) -> nat
    decreases shots.len(),
{
    if shots.len() == 0 {
        0
    } else {
        total_duration(shots.drop_last()) + shots.last().duration
    }
}

} // verus!
