//! The level metadata model and the static configuration.

use vstd::prelude::*;

verus! {

/// The largest 12-bit PQ codeword.
pub const PQ_MAX: u16 = 4095;

/// The neutral value of an unsigned trim parameter.
pub fn default_trim() -> (trim: u16)
    ensures
        trim == 2048,
{
    2048
}

/// The neutral value of the signed mid-tone saturation weight.
pub fn default_trim_neg() -> (trim: i16)
    ensures
        trim == 2048,
{
    2048
}

/// Level 1: the luminance distribution of a frame, as 12-bit PQ codewords.
#[derive(Clone, Copy, Debug, PartialEq, Eq, Structural)]
pub struct Level1Metadata {
    pub min_pq: u16,
    pub max_pq: u16,
    pub avg_pq: u16,
}

impl Level1Metadata {
    /// All three codewords fit in 12 bits.
    pub open spec fn in_range(self) -> bool {
        self.min_pq <= PQ_MAX && self.max_pq <= PQ_MAX && self.avg_pq <= PQ_MAX
    }

    /// Whether all three codewords fit in 12 bits.
    pub fn is_in_range(&self) -> (r: bool)
        ensures
            r == self.in_range(),
    {
        self.min_pq <= PQ_MAX && self.max_pq <= PQ_MAX && self.avg_pq <= PQ_MAX
    }
}

impl Default for Level1Metadata {
    fn default() -> (r: Self)
        ensures
            r == (Level1Metadata { min_pq: 0, max_pq: 0, avg_pq: 0 }),
    {
        Level1Metadata { min_pq: 0, max_pq: 0, avg_pq: 0 }
    }
}

/// Level 2: the trim for one target display, named by its peak brightness.
#[derive(Clone, Copy, Debug, PartialEq, Eq, Structural)]
pub struct Level2Metadata {
    pub target_nits: u16,
    pub trim_slope: u16,
    pub trim_offset: u16,
    pub trim_power: u16,
    pub trim_chroma_weight: u16,
    pub trim_saturation_gain: u16,
    pub ms_weight: i16,
}

impl Level2Metadata {
    /// The neutral trim for a target display.
    pub open spec fn neutral(target_nits: u16) -> Level2Metadata {
        Level2Metadata {
            target_nits,
            trim_slope: 2048,
            trim_offset: 2048,
            trim_power: 2048,
            trim_chroma_weight: 2048,
            trim_saturation_gain: 2048,
            ms_weight: 2048,
        }
    }

    /// The trim for `target_nits` with every parameter at its neutral value.
    pub fn with_default_trims(target_nits: u16) -> (r: Self)
        ensures
            r == Self::neutral(target_nits),
    {
        Level2Metadata {
            target_nits,
            trim_slope: default_trim(),
            trim_offset: default_trim(),
            trim_power: default_trim(),
            trim_chroma_weight: default_trim(),
            trim_saturation_gain: default_trim(),
            ms_weight: default_trim_neg(),
        }
    }
}

impl Default for Level2Metadata {
    fn default() -> (r: Self)
        ensures
            r == (Level2Metadata {
                target_nits: 0,
                trim_slope: 0,
                trim_offset: 0,
                trim_power: 0,
                trim_chroma_weight: 0,
                trim_saturation_gain: 0,
                ms_weight: 0,
            }),
    {
        Level2Metadata {
            target_nits: 0,
            trim_slope: 0,
            trim_offset: 0,
            trim_power: 0,
            trim_chroma_weight: 0,
            trim_saturation_gain: 0,
            ms_weight: 0,
        }
    }
}

/// Level 3: offsets applied on top of level 1.
#[derive(Clone, Copy, Debug, PartialEq, Eq, Structural)]
pub struct Level3Metadata {
    pub min_pq_offset: u16,
    pub max_pq_offset: u16,
    pub avg_pq_offset: u16,
}

impl Default for Level3Metadata {
    fn default() -> (r: Self)
        ensures
            r == (Level3Metadata { min_pq_offset: 0, max_pq_offset: 0, avg_pq_offset: 0 }),
    {
        Level3Metadata { min_pq_offset: 0, max_pq_offset: 0, avg_pq_offset: 0 }
    }
}

/// Level 5: the active area, as offsets from the four edges of the frame.
#[derive(Clone, Copy, Debug, PartialEq, Eq, Structural)]
pub struct Level5Metadata {
    pub active_area_left_offset: u16,
    pub active_area_right_offset: u16,
    pub active_area_top_offset: u16,
    pub active_area_bottom_offset: u16,
}

impl Default for Level5Metadata {
    fn default() -> (r: Self)
        ensures
            r == (Level5Metadata {
                active_area_left_offset: 0,
                active_area_right_offset: 0,
                active_area_top_offset: 0,
                active_area_bottom_offset: 0,
            }),
    {
        Level5Metadata {
            active_area_left_offset: 0,
            active_area_right_offset: 0,
            active_area_top_offset: 0,
            active_area_bottom_offset: 0,
        }
    }
}

/// Level 6: the mastering display and the light levels of the content.
#[derive(Clone, Copy, Debug, PartialEq, Eq, Structural)]
pub struct Level6Metadata {
    pub max_display_mastering_luminance: u16,
    pub min_display_mastering_luminance: u16,
    pub max_content_light_level: u16,
    pub max_frame_average_light_level: u16,
}

impl Default for Level6Metadata {
    fn default() -> (r: Self)
        ensures
            r == (Level6Metadata {
                max_display_mastering_luminance: 0,
                min_display_mastering_luminance: 0,
                max_content_light_level: 0,
                max_frame_average_light_level: 0,
            }),
    {
        Level6Metadata {
            max_display_mastering_luminance: 0,
            min_display_mastering_luminance: 0,
            max_content_light_level: 0,
            max_frame_average_light_level: 0,
        }
    }
}

/// The static configuration of a run.
#[derive(Clone, Debug, PartialEq, Eq)]
pub struct GenerateConfig {
    /// The number of frames; it counts only where no dynamic source is given.
    pub length: u64,
    pub target_nits: Option<u16>,
    pub source_min_pq: Option<u16>,
    pub source_max_pq: Option<u16>,
    pub level2: Option<Vec<Level2Metadata>>,
    pub level5: Option<Level5Metadata>,
    pub level6: Option<Level6Metadata>,
}

/// The mathematical content of a `GenerateConfig`.
pub struct ConfigView {
    pub length: nat,
    pub target_nits: Option<u16>,
    pub source_min_pq: Option<u16>,
    pub source_max_pq: Option<u16>,
    pub level2: Option<Seq<Level2Metadata>>,
    pub level5: Option<Level5Metadata>,
    pub level6: Option<Level6Metadata>,
}

impl ConfigView {
    /// The configuration with no frame and no metadata.
    pub open spec fn empty() -> ConfigView {
        ConfigView {
            length: 0,
            target_nits: None,
            source_min_pq: None,
            source_max_pq: None,
            level2: None,
            level5: None,
            level6: None,
        }
    }
}

impl View for GenerateConfig {
    type V = ConfigView;

    open spec fn view(&self) -> ConfigView {
        ConfigView {
            length: self.length as nat,
            target_nits: self.target_nits,
            source_min_pq: self.source_min_pq,
            source_max_pq: self.source_max_pq,
            level2: match self.level2 {
                Some(list) => Some(list@),
                None => None,
            },
            level5: self.level5,
            level6: self.level6,
        }
    }
}

impl Default for GenerateConfig {
    fn default() -> (r: Self)
        ensures
            r@ == ConfigView::empty(),
    {
        GenerateConfig {
            length: 0,
            target_nits: None,
            source_min_pq: None,
            source_max_pq: None,
            level2: None,
            level5: None,
            level6: None,
        }
    }
}

} // verus!
