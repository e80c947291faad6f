//! The RPU record of one frame and its display-management block.

use vstd::prelude::*;
use crate::metadata::{
    ConfigView,
    GenerateConfig,
    Level1Metadata,
    Level2Metadata,
    Level3Metadata,
    Level5Metadata,
    Level6Metadata,
};

verus! {

/// The profile every generated record belongs to.
pub const DOVI_PROFILE: u8 = 8;

/// The byte that ends every serialised record.
pub const FINAL_BYTE: u8 = 0x80;

/// No two trims of a list name the same target display.
pub open spec fn distinct_targets(list: Seq<Level2Metadata>) -> bool {
    forall|i: int, j: int|
        0 <= i < j < list.len() ==> (#[trigger] list[i]).target_nits
            != (#[trigger] list[j]).target_nits
}

/// A list of trims names the target display `target_nits`.
pub open spec fn has_target(list: Seq<Level2Metadata>, target_nits: u16) -> bool {
    exists|i: int| 0 <= i < list.len() && (#[trigger] list[i]).target_nits == target_nits
}

/// A list of trims with the trim `entry` merged in: it takes the place of
/// the trim for the same target display where the list has one, and goes to
/// the end where it has none.
pub open spec fn merge_trim(list: Seq<Level2Metadata>, entry: Level2Metadata) -> Seq<
    Level2Metadata,
> {
    if has_target(list, entry.target_nits) {
        let at = choose|i: int|
            0 <= i < list.len() && (#[trigger] list[i]).target_nits == entry.target_nits;
        list.update(at, entry)
    } else {
        list.push(entry)
    }
}

/// A list of trims with the trims of `entries` merged in, first to last.
pub open spec fn merge_trims(list: Seq<Level2Metadata>, entries: Seq<Level2Metadata>) -> Seq<
    Level2Metadata,
>
    decreases entries.len(),
{
    if entries.len() == 0 {
        list
    } else {
        merge_trim(merge_trims(list, entries.drop_last()), entries.last())
    }
}

/// In a list without repeated targets, a trim that is merged in takes the
/// place of the one trim for its target display.
pub proof fn lemma_merge_trim_replaces(list: Seq<Level2Metadata>, entry: Level2Metadata, at: int)
    requires
        distinct_targets(list),
        0 <= at < list.len(),
        list[at].target_nits == entry.target_nits,
    ensures
        merge_trim(list, entry) == list.update(at, entry),
{
    let chosen = choose|i: int|
        0 <= i < list.len() && (#[trigger] list[i]).target_nits == entry.target_nits;
    assert(chosen == at);
}

/// Merging a trim into a list without repeated targets leaves none repeated.
pub proof fn lemma_merge_trim_distinct(list: Seq<Level2Metadata>, entry: Level2Metadata)
    requires
        distinct_targets(list),
    ensures
        distinct_targets(merge_trim(list, entry)),
        has_target(merge_trim(list, entry), entry.target_nits),
{
    let merged = merge_trim(list, entry);
    if has_target(list, entry.target_nits) {
        let at = choose|i: int|
            0 <= i < list.len() && (#[trigger] list[i]).target_nits == entry.target_nits;
        assert(merged[at].target_nits == entry.target_nits);
        assert forall|i: int, j: int| 0 <= i < j < merged.len()
            implies (#[trigger] merged[i]).target_nits != (#[trigger] merged[j]).target_nits by {
            assert(merged[i].target_nits == list[i].target_nits);
            assert(merged[j].target_nits == list[j].target_nits);
        }
    } else {
        assert(merged[list.len() as int].target_nits == entry.target_nits);
        assert forall|i: int, j: int| 0 <= i < j < merged.len()
            implies (#[trigger] merged[i]).target_nits != (#[trigger] merged[j]).target_nits by {
            if j < list.len() {
                assert(merged[i] == list[i] && merged[j] == list[j]);
            } else {
                assert(merged[i] == list[i]);
            }
        }
    }
}

/// Merging trims into a list without repeated targets leaves none repeated.
pub proof fn lemma_merge_trims_distinct(list: Seq<Level2Metadata>, entries: Seq<Level2Metadata>)
    requires
        distinct_targets(list),
    ensures
        distinct_targets(merge_trims(list, entries)),
    decreases entries.len(),
{
    if entries.len() > 0 {
        lemma_merge_trims_distinct(list, entries.drop_last());
        lemma_merge_trim_distinct(merge_trims(list, entries.drop_last()), entries.last());
    }
}

/// The mathematical content of a display-management block.
pub struct DmDataView {
    pub target_nits: Option<u16>,
    pub source_min_pq: Option<u16>,
    pub source_max_pq: Option<u16>,
    pub level1: Option<Level1Metadata>,
    pub level2: Seq<Level2Metadata>,
    pub level3: Option<Level3Metadata>,
    pub level5: Option<Level5Metadata>,
    pub level6: Option<Level6Metadata>,
    pub scene_cut: bool,
}

impl DmDataView {
    /// The block that every frame of a run starts from: the fields of the
    /// static configuration that are present, and nothing else.
    pub open spec fn from_config(config: ConfigView) -> DmDataView {
        DmDataView {
            target_nits: config.target_nits,
            source_min_pq: config.source_min_pq,
            source_max_pq: config.source_max_pq,
            level1: None,
            level2: match config.level2 {
                Some(entries) => merge_trims(Seq::empty(), entries),
                None => Seq::empty(),
            },
            level3: None,
            level5: config.level5,
            level6: config.level6,
            scene_cut: false,
        }
    }

    /// The block with `level1` as its level 1 block.
    pub open spec fn add_level1(self, level1: Level1Metadata) -> DmDataView {
        DmDataView { level1: Some(level1), ..self }
    }

    /// The block with one trim merged into its level 2 trims.
    pub open spec fn add_level2(self, level2: Level2Metadata) -> DmDataView {
        DmDataView { level2: merge_trim(self.level2, level2), ..self }
    }

    /// The block with a list of trims merged into its level 2 trims, first
    /// to last.
    pub open spec fn add_level2_list(self, entries: Seq<Level2Metadata>) -> DmDataView {
        DmDataView { level2: merge_trims(self.level2, entries), ..self }
    }

    /// The block with `level3` as its level 3 block.
    pub open spec fn add_level3(self, level3: Level3Metadata) -> DmDataView {
        DmDataView { level3: Some(level3), ..self }
    }

    /// The block with its scene-cut flag set as given.
    pub open spec fn set_scene_cut(self, is_scene_cut: bool) -> DmDataView {
        DmDataView { scene_cut: is_scene_cut, ..self }
    }
}

/// The display-management block of a record: the level metadata that apply
/// to one frame, and whether the frame starts a scene. Its level 2 trims
/// never name one target display twice.
#[derive(Debug, PartialEq, Eq)]
pub struct DmData {
    target_nits: Option<u16>,
    source_min_pq: Option<u16>,
    source_max_pq: Option<u16>,
    level1: Option<Level1Metadata>,
    level2: Vec<Level2Metadata>,
    level3: Option<Level3Metadata>,
    level5: Option<Level5Metadata>,
    level6: Option<Level6Metadata>,
    scene_cut: bool,
}

impl View for DmData {
    type V = DmDataView;

    closed spec fn view(&self) -> DmDataView {
        DmDataView {
            target_nits: self.target_nits,
            source_min_pq: self.source_min_pq,
            source_max_pq: self.source_max_pq,
            level1: self.level1,
            level2: self.level2@,
            level3: self.level3,
            level5: self.level5,
            level6: self.level6,
            scene_cut: self.scene_cut,
        }
    }
}

/// A copy of a list of trims.
fn copy_trims(list: &Vec<Level2Metadata>) -> (copy: Vec<Level2Metadata>)
    ensures
        copy@ == list@,
{
    let mut copy: Vec<Level2Metadata> = Vec::new();
    let mut next: usize = 0;
    while next < list.len()
        invariant
            next <= list.len(),
            copy@ == list@.take(next as int),
        decreases list.len() - next,
    {
        copy.push(list[next]);
        proof {
            assert(list@.take(next + 1) == list@.take(next as int).push(list@[next as int]));
        }
        next += 1;
    }
    proof {
        assert(list@.take(next as int) == list@);
    }
    copy
}

/// Merges one trim into a list of trims.
fn merge_into(list: Vec<Level2Metadata>, entry: Level2Metadata) -> (merged: Vec<Level2Metadata>)
    requires
        distinct_targets(list@),
    ensures
        merged@ == merge_trim(list@, entry),
        distinct_targets(merged@),
{
    let mut merged = list;
    let mut at: usize = 0;
    while at < merged.len()
        invariant
            merged@ == list@,
            distinct_targets(list@),
            at <= merged.len(),
            forall|i: int| 0 <= i < at ==> (#[trigger] list@[i]).target_nits != entry.target_nits,
        decreases merged.len() - at,
    {
        if merged[at].target_nits == entry.target_nits {
            proof {
                lemma_merge_trim_replaces(list@, entry, at as int);
                lemma_merge_trim_distinct(list@, entry);
            }
            merged.set(at, entry);
            return merged;
        }
        at += 1;
    }
    proof {
        lemma_merge_trim_distinct(list@, entry);
    }
    merged.push(entry);
    merged
}

impl Clone for DmData {
    fn clone(&self) -> (dm: DmData)
        ensures
            dm@ == self@,
    {
        proof {
            use_type_invariant(self);
        }
        DmData {
            target_nits: self.target_nits,
            source_min_pq: self.source_min_pq,
            source_max_pq: self.source_max_pq,
            level1: self.level1,
            level2: copy_trims(&self.level2),
            level3: self.level3,
            level5: self.level5,
            level6: self.level6,
            scene_cut: self.scene_cut,
        }
    }
}

impl DmData {
    #[verifier::type_invariant]
    spec fn keyed_by_target(self) -> bool {
        distinct_targets(self.level2@)
    }

    /// The block that every frame of a run starts from: it carries the
    /// target brightness, the source range, the trims, the active area and
    /// the mastering display of the configuration, each where present.
    pub fn from_config(config: &GenerateConfig) -> (dm: DmData)
        ensures
            dm@ == DmDataView::from_config(config@),
    {
        let mut level2: Vec<Level2Metadata> = Vec::new();
        if let Some(entries) = &config.level2 {
            let mut next: usize = 0;
            while next < entries.len()
                invariant
                    next <= entries.len(),
                    level2@ == merge_trims(Seq::empty(), entries@.take(next as int)),
                    distinct_targets(level2@),
                decreases entries.len() - next,
            {
                proof {
                    assert(entries@.take(next + 1).drop_last() == entries@.take(next as int));
                }
                level2 = merge_into(level2, entries[next]);
                next += 1;
            }
            proof {
                assert(entries@.take(next as int) == entries@);
            }
        }
        DmData {
            target_nits: config.target_nits,
            source_min_pq: config.source_min_pq,
            source_max_pq: config.source_max_pq,
            level1: None,
            level2,
            level3: None,
            level5: config.level5,
            level6: config.level6,
            scene_cut: false,
        }
    }

    /// Sets the level 1 block of the frame.
    pub fn add_level1_metadata(self, min_pq: u16, max_pq: u16, avg_pq: u16) -> (dm: DmData)
        ensures
            dm@ == self@.add_level1(Level1Metadata { min_pq, max_pq, avg_pq }),
    {
        proof {
            use_type_invariant(&self);
        }
        DmData { level1: Some(Level1Metadata { min_pq, max_pq, avg_pq }), ..self }
    }

    /// Sets the trim for one target display: it takes the place of the trim
    /// the block has for that display, or is added after the others.
    pub fn add_level2_metadata(
        self,
        target_nits: u16,
        trim_slope: u16,
        trim_offset: u16,
        trim_power: u16,
        trim_chroma_weight: u16,
        trim_saturation_gain: u16,
        ms_weight: i16,
    ) -> (dm: DmData)
        ensures
            dm@ == self@.add_level2(
                Level2Metadata {
                    target_nits,
                    trim_slope,
                    trim_offset,
                    trim_power,
                    trim_chroma_weight,
                    trim_saturation_gain,
                    ms_weight,
                },
            ),
    {
        proof {
            use_type_invariant(&self);
        }
        let entry = Level2Metadata {
            target_nits,
            trim_slope,
            trim_offset,
            trim_power,
            trim_chroma_weight,
            trim_saturation_gain,
            ms_weight,
        };
        let DmData {
            target_nits,
            source_min_pq,
            source_max_pq,
            level1,
            level2,
            level3,
            level5,
            level6,
            scene_cut,
        } = self;
        let level2 = merge_into(level2, entry);
        DmData {
            target_nits,
            source_min_pq,
            source_max_pq,
            level1,
            level2,
            level3,
            level5,
            level6,
            scene_cut,
        }
    }

    /// Sets the level 3 block of the frame.
    pub fn add_level3_metadata(
        self,
        min_pq_offset: u16,
        max_pq_offset: u16,
        avg_pq_offset: u16,
    ) -> (dm: DmData)
        ensures
            dm@ == self@.add_level3(Level3Metadata { min_pq_offset, max_pq_offset, avg_pq_offset }),
    {
        proof {
            use_type_invariant(&self);
        }
        DmData {
            level3: Some(Level3Metadata { min_pq_offset, max_pq_offset, avg_pq_offset }),
            ..self
        }
    }

    /// The peak brightness of the target display, where one is configured.
    pub fn target_nits(&self) -> (r: Option<u16>)
        ensures
            r == self@.target_nits,
    {
        self.target_nits
    }

    /// The darkest codeword of the source, where one is configured.
    pub fn source_min_pq(&self) -> (r: Option<u16>)
        ensures
            r == self@.source_min_pq,
    {
        self.source_min_pq
    }

    /// The brightest codeword of the source, where one is configured.
    pub fn source_max_pq(&self) -> (r: Option<u16>)
        ensures
            r == self@.source_max_pq,
    {
        self.source_max_pq
    }

    /// The level 1 block of the frame, where it has one.
    pub fn level1(&self) -> (r: Option<Level1Metadata>)
        ensures
            r == self@.level1,
    {
        self.level1
    }

    /// The trims of the frame, no two of them for the same target display.
    pub fn level2(&self) -> (r: &Vec<Level2Metadata>)
        ensures
            r@ == self@.level2,
            distinct_targets(r@),
    {
        proof {
            use_type_invariant(self);
        }
        &self.level2
    }

    /// The level 3 block of the frame, where it has one.
    pub fn level3(&self) -> (r: Option<Level3Metadata>)
        ensures
            r == self@.level3,
    {
        self.level3
    }

    /// The active area, where one is configured.
    pub fn level5(&self) -> (r: Option<Level5Metadata>)
        ensures
            r == self@.level5,
    {
        self.level5
    }

    /// The mastering display and light levels, where they are given.
    pub fn level6(&self) -> (r: Option<Level6Metadata>)
        ensures
            r == self@.level6,
    {
        self.level6
    }

    /// Whether the frame starts a scene.
    pub fn scene_cut(&self) -> (r: bool)
        ensures
            r == self@.scene_cut,
    {
        self.scene_cut
    }

    /// Says whether the frame starts a scene.
    pub fn set_scene_cut(self, is_scene_cut: bool) -> (dm: DmData)
        ensures
            dm@ == self@.set_scene_cut(is_scene_cut),
    {
        proof {
            use_type_invariant(&self);
        }
        DmData { scene_cut: is_scene_cut, ..self }
    }
}

/// The mathematical content of an RPU record.
pub struct RpuRecordView {
    pub dovi_profile: u8,
    pub modified: bool,
    pub vdr_dm_data: Option<DmDataView>,
    pub last_byte: u8,
}

impl RpuRecordView {
    /// The profile 8 record around a display-management block.
    pub open spec fn profile8(dm: DmDataView) -> RpuRecordView {
        RpuRecordView {
            dovi_profile: DOVI_PROFILE,
            modified: true,
            vdr_dm_data: Some(dm),
            last_byte: FINAL_BYTE,
        }
    }

    /// Whether the record flags its frame as the start of a scene.
    pub open spec fn is_scene_cut(self) -> bool {
        match self.vdr_dm_data {
            Some(dm) => dm.scene_cut,
            None => false,
        }
    }
}

/// The RPU record of one frame. Its header and its mapping data are the
/// fixed defaults of the profile, which the profile tag stands for; it
/// carries no non-linear quantisation data.
#[derive(Debug, PartialEq, Eq)]
pub struct RpuRecord {
    pub dovi_profile: u8,
    pub modified: bool,
    pub vdr_dm_data: Option<DmData>,
    pub last_byte: u8,
}

impl View for RpuRecord {
    type V = RpuRecordView;

    open spec fn view(&self) -> RpuRecordView {
        RpuRecordView {
            dovi_profile: self.dovi_profile,
            modified: self.modified,
            vdr_dm_data: match self.vdr_dm_data {
                Some(dm) => Some(dm@),
                None => None,
            },
            last_byte: self.last_byte,
        }
    }
}

impl Clone for RpuRecord {
    fn clone(&self) -> (record: RpuRecord)
        ensures
            record@ == self@,
    {
        RpuRecord {
            dovi_profile: self.dovi_profile,
            modified: self.modified,
            vdr_dm_data: match &self.vdr_dm_data {
                Some(dm) => Some(dm.clone()),
                None => None,
            },
            last_byte: self.last_byte,
        }
    }
}

impl RpuRecord {
    /// The profile 8 record around a display-management block: marked as
    /// modified, and ending in the byte every record ends in.
    pub fn profile8(dm: DmData) -> (record: RpuRecord)
        ensures
            record@ == RpuRecordView::profile8(dm@),
    {
        RpuRecord {
            dovi_profile: DOVI_PROFILE,
            modified: true,
            vdr_dm_data: Some(dm),
            last_byte: FINAL_BYTE,
        }
    }
}

/// The contents of a list of records, record by record.
pub open spec fn record_views(records: Seq<RpuRecord>) -> Seq<RpuRecordView> {
    Seq::new(records.len(), |i: int| records[i]@)
}

} // verus!
