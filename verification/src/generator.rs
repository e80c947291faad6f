//! The generation run: which metadata source is read, and the record of
//! every frame, in frame order.

use vstd::prelude::*;
use crate::error::{GenerateError, SourceKind};
use crate::hdr10plus::{
    entry_level1,
    ingest_entries,
    ingest_text,
    lemma_ingest_entries_ok,
    names_scene_cut,
    parse_hdr10plus_for_l1,
    Hdr10PlusMetadata,
    Hdr10PlusView,
};
use crate::json::JsonTree;
use crate::metadata::{ConfigView, GenerateConfig, Level6Metadata};
use crate::pq::PqCurve;
use crate::rpu::{record_views, DmData, DmDataView, RpuRecord, RpuRecordView};
use crate::shots::{total_duration, ContentMapping, ContentMappingView, Shot, ShotView};

verus! {

/// The number of frames of a run on a static configuration: the number of
/// samples of the dynamic metadata where there is any, else the length
/// that the configuration names.
pub open spec fn config_frame_count(config: ConfigView, dynamic: Option<Hdr10PlusView>) -> nat {
    match dynamic {
        Some(metadata) => metadata.level1.len(),
        None => config.length,
    }
}

/// The record of one frame of a run on a static configuration. It starts
/// from the block of the configuration; the dynamic metadata add the
/// level 1 sample of the frame, where they have one, and the scene cut,
/// where they name the frame as the start of a scene.
pub open spec fn config_frame(
    base: DmDataView,
    dynamic: Option<Hdr10PlusView>,
    frame: int,
) -> RpuRecordView {
    match dynamic {
        Some(metadata) => {
            let with_level1 = if 0 <= frame < metadata.level1.len() {
                base.add_level1(metadata.level1[frame])
            } else {
                base
            };
            let with_cut = if metadata.scene_cuts.contains(frame as u64) {
                with_level1.set_scene_cut(true)
            } else {
                with_level1
            };
            RpuRecordView::profile8(with_cut)
        },
        None => RpuRecordView::profile8(base),
    }
}

/// The records of a run on a static configuration, in frame order.
pub open spec fn config_frames(config: ConfigView, dynamic: Option<Hdr10PlusView>) -> Seq<
    RpuRecordView,
> {
    Seq::new(
        config_frame_count(config, dynamic),
        |frame: int| config_frame(DmDataView::from_config(config), dynamic, frame),
    )
}

/// The record of one frame of a shot, by its position in the shot. It
/// starts from the block of the description; the shot adds the level 1
/// sample, the trims and the level 3 offsets of the frame, each where it
/// has them; the first frame of a shot always starts a scene.
pub open spec fn shot_frame(base: DmDataView, shot: ShotView, frame: int) -> RpuRecordView {
    let with_level1 = match shot.level1_at(frame) {
        Some(level1) => base.add_level1(level1),
        None => base,
    };
    let with_cut = if frame == 0 {
        with_level1.set_scene_cut(true)
    } else {
        with_level1
    };
    let with_level2 = match shot.level2_at(frame) {
        Some(trims) => with_cut.add_level2_list(trims),
        None => with_cut,
    };
    let with_level3 = match shot.level3_at(frame) {
        Some(level3) => with_level2.add_level3(level3),
        None => with_level2,
    };
    RpuRecordView::profile8(with_level3)
}

/// The records of one shot, in frame order.
pub open spec fn shot_frames(base: DmDataView, shot: ShotView) -> Seq<RpuRecordView> {
    Seq::new(shot.duration, |frame: int| shot_frame(base, shot, frame))
}

/// The records of a list of shots: those of each shot, shot after shot.
pub open spec fn shots_frames(base: DmDataView, shots: Seq<ShotView>) -> Seq<RpuRecordView>
    decreases shots.len(),
{
    if shots.len() == 0 {
        Seq::empty()
    } else {
        shots_frames(base, shots.drop_last()) + shot_frames(base, shots.last())
    }
}

/// The static configuration that stands behind a content-mapping
/// description: its mastering display and nothing else.
pub open spec fn mapping_config(level6: Level6Metadata) -> ConfigView {
    ConfigView { level6: Some(level6), ..ConfigView::empty() }
}

/// The records of a run on a content-mapping description, in frame order.
pub open spec fn xml_frames(mapping: ContentMappingView) -> Seq<RpuRecordView> {
    shots_frames(DmDataView::from_config(mapping_config(mapping.level6)), mapping.shots)
}

/// The contents of the dynamic metadata handed to a run, if any.
pub open spec fn dynamic_view(dynamic: Option<&Hdr10PlusMetadata>) -> Option<Hdr10PlusView> {
    match dynamic {
        Some(metadata) => Some(metadata@),
        None => None,
    }
}

/// Whether the dynamic metadata name a frame as the start of a scene.
pub fn is_scene_cut(scene_cuts: &Vec<u64>, frame: u64) -> (r: bool)
    ensures
        r == scene_cuts@.contains(frame),
{
    let mut next: usize = 0;
    while next < scene_cuts.len()
        invariant
            next <= scene_cuts.len(),
            forall|i: int| 0 <= i < next ==> scene_cuts@[i] != frame,
        decreases scene_cuts.len() - next,
    {
        if scene_cuts[next] == frame {
            return true;
        }
        next += 1;
    }
    false
}

/// Builds the record of one frame of a run on a static configuration, from
/// the block of the configuration.
pub fn build_config_frame(
    base: &DmData,
    dynamic: Option<&Hdr10PlusMetadata>,
    frame: u64,
) -> (record: RpuRecord)
    ensures
        record@ == config_frame(base@, dynamic_view(dynamic), frame as int),
{
    let mut dm = base.clone();
    if let Some(metadata) = dynamic {
        if frame < metadata.level1.len() as u64 {
            let sample = metadata.level1[frame as usize];
            dm = dm.add_level1_metadata(sample.min_pq, sample.max_pq, sample.avg_pq);
        }
        if is_scene_cut(&metadata.scene_cuts, frame) {
            dm = dm.set_scene_cut(true);
        }
    }
    RpuRecord::profile8(dm)
}

/// Builds the record of one frame of a shot, from the block of the
/// description. It never fails: a level that the shot lacks for the frame
/// is left out of the record.
pub fn build_shot_frame(base: &DmData, shot: &Shot, frame: usize) -> (record: RpuRecord)
    ensures
        record@ == shot_frame(base@, shot@, frame as int),
{
    let mut dm = base.clone();
    if let Some(list) = &shot.level1 {
        if frame < list.len() {
            let sample = list[frame];
            dm = dm.add_level1_metadata(sample.min_pq, sample.max_pq, sample.avg_pq);
        }
    }
    if frame == 0 {
        dm = dm.set_scene_cut(true);
    }
    if let Some(list) = &shot.level2 {
        if frame < list.len() {
            let trims = &list[frame];
            let ghost before = dm@;
            let mut next: usize = 0;
            while next < trims.len()
                invariant
                    next <= trims.len(),
                    dm@ == before.add_level2_list(trims@.take(next as int)),
                decreases trims.len() - next,
            {
                proof {
                    assert(trims@.take(next + 1).drop_last() == trims@.take(next as int));
                }
                let trim = trims[next];
                dm = dm.add_level2_metadata(
                    trim.target_nits,
                    trim.trim_slope,
                    trim.trim_offset,
                    trim.trim_power,
                    trim.trim_chroma_weight,
                    trim.trim_saturation_gain,
                    trim.ms_weight,
                );
                next += 1;
            }
            proof {
                assert(trims@.take(next as int) == trims@);
            }
        }
    }
    if let Some(list) = &shot.level3 {
        if frame < list.len() {
            let offsets = list[frame];
            dm = dm.add_level3_metadata(
                offsets.min_pq_offset,
                offsets.max_pq_offset,
                offsets.avg_pq_offset,
            );
        }
    }
    RpuRecord::profile8(dm)
}

/// The metadata source of a run, chosen once, before the first frame.
#[derive(Clone, Debug, PartialEq, Eq)]
pub enum InputSource {
    /// A static configuration alone.
    Config(GenerateConfig),
    /// A static configuration enriched with HDR10+ dynamic metadata.
    Hdr10Plus(GenerateConfig, Hdr10PlusMetadata),
    /// A content-mapping description.
    Xml(ContentMapping),
}

/// The mathematical content of an `InputSource`.
pub enum InputSourceView {
    Config(ConfigView),
    Hdr10Plus(ConfigView, Hdr10PlusView),
    Xml(ContentMappingView),
}

impl InputSourceView {
    /// The records of a run on this source, in frame order.
    pub open spec fn frames(self) -> Seq<RpuRecordView> {
        match self {
            InputSourceView::Config(config) => config_frames(config, None),
            InputSourceView::Hdr10Plus(config, metadata) => config_frames(config, Some(metadata)),
            InputSourceView::Xml(mapping) => xml_frames(mapping),
        }
    }

    /// The kind of the source.
    pub open spec fn kind(self) -> SourceKind {
        match self {
            InputSourceView::Config(_) => SourceKind::Config,
            InputSourceView::Hdr10Plus(_, _) => SourceKind::Hdr10Plus,
            InputSourceView::Xml(_) => SourceKind::Xml,
        }
    }
}

impl View for InputSource {
    type V = InputSourceView;

    open spec fn view(&self) -> InputSourceView {
        match *self {
            InputSource::Config(config) => InputSourceView::Config(config@),
            InputSource::Hdr10Plus(config, metadata) => InputSourceView::Hdr10Plus(
                config@,
                metadata@,
            ),
            InputSource::Xml(mapping) => InputSourceView::Xml(mapping@),
        }
    }
}

impl InputSource {
    /// The kind of the source.
    pub fn kind(&self) -> (kind: SourceKind)
        ensures
            kind == self@.kind(),
    {
        match self {
            InputSource::Config(_) => SourceKind::Config,
            InputSource::Hdr10Plus(_, _) => SourceKind::Hdr10Plus,
            InputSource::Xml(_) => SourceKind::Xml,
        }
    }
}

/// The source that is read where the given inputs are present: a static
/// configuration comes first, with the dynamic metadata if there are any;
/// a content-mapping description counts only without a configuration;
/// dynamic metadata alone are no source.
pub open spec fn selected(
    config: Option<ConfigView>,
    dynamic: Option<Hdr10PlusView>,
    mapping: Option<ContentMappingView>,
) -> Option<InputSourceView> {
    match (config, dynamic, mapping) {
        (Some(config), Some(metadata), _) => Some(InputSourceView::Hdr10Plus(config, metadata)),
        (Some(config), None, _) => Some(InputSourceView::Config(config)),
        (None, _, Some(mapping)) => Some(InputSourceView::Xml(mapping)),
        (None, _, None) => None,
    }
}

/// What a run on the given inputs produces: the records of the source that
/// is read, none where there is no source, or the error of the dynamic
/// metadata, whose text is read only beside a static configuration.
pub open spec fn generated(
    codes: Seq<u16>,
    config: Option<ConfigView>,
    hdr10plus: Option<Seq<char>>,
    mapping: Option<ContentMappingView>,
) -> Result<Seq<RpuRecordView>, GenerateError> {
    match config {
        Some(config) => match hdr10plus {
            Some(text) => match ingest_text(codes, text) {
                Ok(metadata) => Ok(config_frames(config, Some(metadata))),
                Err(error) => Err(error),
            },
            None => Ok(config_frames(config, None)),
        },
        None => match mapping {
            Some(mapping) => Ok(xml_frames(mapping)),
            None => Ok(Seq::empty()),
        },
    }
}

/// A generation run on one metadata source.
#[derive(Clone, Debug, PartialEq, Eq)]
pub struct Generator {
    pub source: InputSource,
}

impl Generator {
    /// Chooses the source of a run among the inputs that are present.
    pub fn select(
        config: Option<GenerateConfig>,
        dynamic: Option<Hdr10PlusMetadata>,
        mapping: Option<ContentMapping>,
    ) -> (r: Option<Generator>)
        ensures
            match r {
                Some(generator) => selected(
                    config_view(config),
                    metadata_view(dynamic),
                    mapping_view(mapping),
                ) == Some(generator.source@),
                None => selected(
                    config_view(config),
                    metadata_view(dynamic),
                    mapping_view(mapping),
                ) is None,
            },
    {
        match config {
            Some(config) => match dynamic {
                Some(metadata) => Some(
                    Generator { source: InputSource::Hdr10Plus(config, metadata) },
                ),
                None => Some(Generator { source: InputSource::Config(config) }),
            },
            None => match mapping {
                Some(mapping) => Some(Generator { source: InputSource::Xml(mapping) }),
                None => None,
            },
        }
    }

    /// Builds the records of a run on a static configuration, one per
    /// frame and in frame order. With dynamic metadata there is one frame
    /// per level 1 sample; without, as many as the configuration names.
    pub fn execute(config: &GenerateConfig, dynamic: Option<&Hdr10PlusMetadata>) -> (records: Vec<
        RpuRecord,
    >)
        ensures
            record_views(records@) == config_frames(config@, dynamic_view(dynamic)),
            records@.len() == config_frame_count(config@, dynamic_view(dynamic)),
    {
        let base = DmData::from_config(config);
        let length: u64 = match dynamic {
            Some(metadata) => metadata.level1.len() as u64,
            None => config.length,
        };
        let mut records: Vec<RpuRecord> = Vec::new();
        let mut frame: u64 = 0;
        while frame < length
            invariant
                frame <= length,
                length == config_frame_count(config@, dynamic_view(dynamic)),
                base@ == DmDataView::from_config(config@),
                records@.len() == frame,
                forall|i: int|
                    0 <= i < frame ==> (#[trigger] records@[i])@ == config_frame(
                        base@,
                        dynamic_view(dynamic),
                        i,
                    ),
            decreases length - frame,
        {
            records.push(build_config_frame(&base, dynamic, frame));
            frame += 1;
        }
        assert(record_views(records@) =~= config_frames(config@, dynamic_view(dynamic)));
        records
    }

    /// Builds the records of a run on a content-mapping description: those
    /// of each shot, shot after shot, one per frame of the shot.
    pub fn generate_from_xml(mapping: &ContentMapping) -> (records: Vec<RpuRecord>)
        ensures
            record_views(records@) == xml_frames(mapping@),
            records@.len() == total_duration(mapping@.shots),
    {
        let config = GenerateConfig {
            length: 0,
            target_nits: None,
            source_min_pq: None,
            source_max_pq: None,
            level2: None,
            level5: None,
            level6: Some(mapping.level6),
        };
        assert(config@ == mapping_config(mapping@.level6));
        let base = DmData::from_config(&config);
        let mut records: Vec<RpuRecord> = Vec::new();
        let mut at: usize = 0;
        while at < mapping.shots.len()
            invariant
                at <= mapping.shots.len(),
                base@ == DmDataView::from_config(mapping_config(mapping@.level6)),
                record_views(records@) == shots_frames(base@, mapping@.shots.take(at as int)),
            decreases mapping.shots.len() - at,
        {
            let shot = &mapping.shots[at];
            let ghost before = record_views(records@);
            proof {
                assert(mapping@.shots.take(at + 1).drop_last() == mapping@.shots.take(at as int));
                assert(mapping@.shots.take(at + 1).last() == shot@);
            }
            let mut frame: usize = 0;
            while frame < shot.duration
                invariant
                    frame <= shot.duration,
                    record_views(records@) == before + shot_frames(base@, shot@).take(frame as int),
                decreases shot.duration - frame,
            {
                let ghost so_far = record_views(records@);
                let record = build_shot_frame(&base, shot, frame);
                records.push(record);
                proof {
                    assert(record_views(records@) =~= so_far.push(record@));
                    assert(shot_frames(base@, shot@).take(frame + 1) =~= shot_frames(
                        base@,
                        shot@,
                    ).take(frame as int).push(record@));
                    assert(before + shot_frames(base@, shot@).take(frame + 1) =~= so_far.push(
                        record@,
                    ));
                }
                frame += 1;
            }
            proof {
                assert(shot_frames(base@, shot@).take(frame as int) == shot_frames(base@, shot@));
            }
            at += 1;
        }
        proof {
            assert(mapping@.shots.take(at as int) == mapping@.shots);
            lemma_shots_frames(base@, mapping@.shots);
        }
        records
    }

    /// Builds the records of the run, in frame order.
    pub fn run(&self) -> (records: Vec<RpuRecord>)
        ensures
            record_views(records@) == self.source@.frames(),
    {
        match &self.source {
            InputSource::Config(config) => Self::execute(config, None),
            InputSource::Hdr10Plus(config, metadata) => Self::execute(config, Some(metadata)),
            InputSource::Xml(mapping) => Self::generate_from_xml(mapping),
        }
    }

    /// Runs a generation on the inputs that are present and returns the
    /// record of every frame, in frame order.
    ///
    /// A static configuration is read first; the text of an HDR10+ document
    /// is read only beside one, and a malformed document aborts the run. A
    /// content-mapping description is read only without a configuration.
    /// Without either there is nothing to generate.
    pub fn generate(
        config: Option<GenerateConfig>,
        hdr10plus: Option<&str>,
        mapping: Option<ContentMapping>,
        curve: &PqCurve,
    ) -> (r: Result<Vec<RpuRecord>, GenerateError>)
        ensures
            match r {
                Ok(records) => generated(
                    curve@,
                    config_view(config),
                    text_view(hdr10plus),
                    mapping_view(mapping),
                ) == Ok::<Seq<RpuRecordView>, GenerateError>(record_views(records@)),
                Err(error) => generated(
                    curve@,
                    config_view(config),
                    text_view(hdr10plus),
                    mapping_view(mapping),
                ) == Err::<Seq<RpuRecordView>, GenerateError>(error),
            },
    {
        let dynamic: Option<Hdr10PlusMetadata> = match hdr10plus {
            Some(text) => if config.is_some() {
                match parse_hdr10plus_for_l1(text, curve) {
                    Ok(metadata) => Some(metadata),
                    Err(error) => {
                        return Err(error);
                    },
                }
            } else {
                None
            },
            None => None,
        };
        match Self::select(config, dynamic, mapping) {
            Some(generator) => Ok(generator.run()),
            None => {
                let records: Vec<RpuRecord> = Vec::new();
                assert(record_views(records@) =~= Seq::empty());
                Ok(records)
            },
        }
    }
}

/// The contents of an optional configuration.
pub open spec fn config_view(config: Option<GenerateConfig>) -> Option<ConfigView> {
    match config {
        Some(config) => Some(config@),
        None => None,
    }
}

/// The contents of optional dynamic metadata.
pub open spec fn metadata_view(dynamic: Option<Hdr10PlusMetadata>) -> Option<Hdr10PlusView> {
    match dynamic {
        Some(metadata) => Some(metadata@),
        None => None,
    }
}

/// The contents of an optional text.
pub open spec fn text_view(text: Option<&str>) -> Option<Seq<char>> {
    match text {
        Some(text) => Some(text@),
        None => None,
    }
}

/// The contents of an optional content-mapping description.
pub open spec fn mapping_view(mapping: Option<ContentMapping>) -> Option<ContentMappingView> {
    match mapping {
        Some(mapping) => Some(mapping@),
        None => None,
    }
}

/// The position in the run of the first frame of shot `k`.
pub open spec fn shot_start(shots: Seq<ShotView>, k: int) -> nat {
    total_duration(shots.take(k))
}

/// The position in the run of frame `frame` of shot `k`.
pub open spec fn frame_position(shots: Seq<ShotView>, k: int, frame: int) -> int {
    shot_start(shots, k) + frame
}

/// A run on a static configuration has one record per frame. Without
/// dynamic metadata that is the length the configuration names, and every
/// record is the block of the configuration, with no level 1 data and no
/// scene cut.
pub proof fn lemma_config_frames(config: ConfigView, dynamic: Option<Hdr10PlusView>)
    ensures
        config_frames(config, dynamic).len() == config_frame_count(config, dynamic),
        dynamic is None ==> config_frames(config, dynamic).len() == config.length,
        dynamic is None ==> forall|frame: int|
            0 <= frame < config.length ==> #[trigger] config_frames(config, dynamic)[frame]
                == RpuRecordView::profile8(DmDataView::from_config(config)),
        forall|frame: int|
            0 <= frame < config_frame_count(config, dynamic) ==> {
                let record = #[trigger] config_frames(config, dynamic)[frame];
                &&& record.dovi_profile == 8
                &&& record.modified
                &&& record.last_byte == 0x80
                &&& record.vdr_dm_data is Some
                &&& record.vdr_dm_data->0.target_nits == config.target_nits
                &&& record.vdr_dm_data->0.source_min_pq == config.source_min_pq
                &&& record.vdr_dm_data->0.source_max_pq == config.source_max_pq
                &&& record.vdr_dm_data->0.level5 == config.level5
                &&& record.vdr_dm_data->0.level6 == config.level6
            },
{
}

/// A run on HDR10+ dynamic metadata has one record per entry of the
/// document. The record of a frame carries the level 1 sample of the entry
/// at its position, and flags a scene cut if and only if some entry names
/// the frame as the start of a scene.
pub proof fn lemma_hdr10plus_frames(codes: Seq<u16>, config: ConfigView, entries: Seq<JsonTree>)
    requires
        ingest_entries(codes, entries) is Ok,
        entries.len() <= u64::MAX,
    ensures
        config_frames(config, Some(ingest_entries(codes, entries)->Ok_0)).len() == entries.len(),
        forall|frame: int|
            0 <= frame < entries.len() ==> {
                let record = #[trigger] config_frames(
                    config,
                    Some(ingest_entries(codes, entries)->Ok_0),
                )[frame];
                &&& record.vdr_dm_data is Some
                &&& record.vdr_dm_data->0.level1 == entry_level1(codes, entries[frame])
                &&& record.is_scene_cut() <==> names_scene_cut(
                    entries,
                    entries.len() as int,
                    frame as u64,
                )
            },
{
    lemma_ingest_entries_ok(codes, entries);
}

/// The records of a list of shots, laid out: there are as many as the
/// shots have frames, and the record at the position of frame `frame` of
/// shot `k` is the record of that frame.
pub proof fn lemma_shots_frames(base: DmDataView, shots: Seq<ShotView>)
    ensures
        shots_frames(base, shots).len() == total_duration(shots),
        forall|k: int, frame: int|
            0 <= k < shots.len() && 0 <= frame < shots[k].duration ==> {
                let position = #[trigger] frame_position(shots, k, frame);
                &&& 0 <= position < shots_frames(base, shots).len()
                &&& shots_frames(base, shots)[position] == shot_frame(base, shots[k], frame)
            },
    decreases shots.len(),
{
    if shots.len() > 0 {
        let last = shots.len() - 1;
        let before = shots.drop_last();
        lemma_shots_frames(base, before);
        assert(shots.take(last) == before);
        assert forall|k: int, frame: int|
            0 <= k < shots.len() && 0 <= frame < shots[k].duration implies {
            let position = #[trigger] frame_position(shots, k, frame);
            &&& 0 <= position < shots_frames(base, shots).len()
            &&& shots_frames(base, shots)[position] == shot_frame(base, shots[k], frame)
        } by {
            if k < last {
                assert(before[k] == shots[k]);
                assert(before.take(k) == shots.take(k));
                assert(frame_position(before, k, frame) == frame_position(shots, k, frame));
            }
        }
    }
}

/// A run on a content-mapping description has as many records as its shots
/// have frames, and a record flags a scene cut if and only if its frame is
/// the first of a shot.
pub proof fn lemma_xml_frames(mapping: ContentMappingView)
    ensures
        xml_frames(mapping).len() == total_duration(mapping.shots),
        forall|k: int, frame: int|
            0 <= k < mapping.shots.len() && 0 <= frame < mapping.shots[k].duration ==> {
                let position = #[trigger] frame_position(mapping.shots, k, frame);
                &&& 0 <= position < xml_frames(mapping).len()
                &&& xml_frames(mapping)[position].is_scene_cut() <==> frame == 0
            },
{
    lemma_shots_frames(DmDataView::from_config(mapping_config(mapping.level6)), mapping.shots);
}

} // verus!
