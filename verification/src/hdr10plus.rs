//! Level 1 metadata and scene cuts from HDR10+ dynamic metadata.
//!
//! The document is a JSON object whose member `SceneInfo` is an array with
//! one entry per frame, in frame order. An entry is an object with the
//! members `LuminanceParameters` (an object with `AverageRGB`, a number,
//! and `MaxScl`, an array of per-channel peaks), `SceneFrameIndex` and, on
//! the first frame of a scene, `SequenceFrameIndex`. Luminances are in
//! tenths of a nit.

use vstd::prelude::*;
use crate::error::{GenerateError, SourceKind};
use crate::json::{
    json_members,
    json_text_tree,
    json_tree,
    json_trees,
    object_get,
    parse_document,
    JsonTree,
};
use crate::metadata::Level1Metadata;
use crate::pq::{is_pq_curve, luminance_code, round_to_nits, PqCurve};

verus! {

/// What one entry of `SceneInfo` says of its frame.
#[derive(Clone, Copy, Debug, PartialEq, Eq, Structural)]
pub struct SceneSample {
    /// The largest of the per-channel peaks, in tenths of a nit.
    pub max_rgb: u64,
    /// The average of the frame, in tenths of a nit.
    pub average_rgb: u64,
    /// The position in the sequence at which a scene starts, where the
    /// entry is the first of its scene.
    pub scene_cut: Option<u64>,
}

/// The level 1 samples of a sequence, one per frame, and the frames at
/// which scenes start, in the order in which the document names them.
#[derive(Clone, Debug, PartialEq, Eq)]
pub struct Hdr10PlusMetadata {
    pub level1: Vec<Level1Metadata>,
    pub scene_cuts: Vec<u64>,
}

/// The mathematical content of a `Hdr10PlusMetadata`.
pub struct Hdr10PlusView {
    pub level1: Seq<Level1Metadata>,
    pub scene_cuts: Seq<u64>,
}

impl View for Hdr10PlusMetadata {
    type V = Hdr10PlusView;

    open spec fn view(&self) -> Hdr10PlusView {
        Hdr10PlusView { level1: self.level1@, scene_cuts: self.scene_cuts@ }
    }
}

/// The error for a document that is at fault as a whole.
pub open spec fn malformed_document() -> GenerateError {
    GenerateError::MalformedMetadata { source: SourceKind::Hdr10Plus, index: None }
}

/// The error for the entry of one frame.
pub open spec fn malformed_entry(index: int) -> GenerateError {
    GenerateError::MalformedMetadata { source: SourceKind::Hdr10Plus, index: Some(index as u64) }
}

/// The largest unsigned integer among the items of an array; items of any
/// other kind do not count. `None` where no item is an unsigned integer.
pub open spec fn peak(items: Seq<JsonTree>) -> Option<u64>
    decreases items.len(),
{
    if items.len() == 0 {
        None
    } else {
        let before = peak(items.drop_last());
        match (items.last().as_unsigned(), before) {
            (Some(value), Some(largest)) => Some(if value > largest { value } else { largest }),
            (Some(value), None) => Some(value),
            (None, _) => before,
        }
    }
}

/// What an entry says of its frame, or `None` where a member that is read
/// is missing or of the wrong kind. `SequenceFrameIndex` is read only where
/// `SceneFrameIndex` is 0.
pub open spec fn scene_sample(entry: JsonTree) -> Option<SceneSample> {
    match entry.member("LuminanceParameters"@) {
        Some(luminance) => match (
            luminance.member("AverageRGB"@),
            luminance.member("MaxScl"@),
            entry.member("SceneFrameIndex"@),
        ) {
            (
                Some(JsonTree::Number(Some(average_rgb))),
                Some(JsonTree::Array(channels)),
                Some(JsonTree::Number(Some(scene_frame_index))),
            ) => match peak(channels) {
                Some(max_rgb) => if scene_frame_index == 0 {
                    match entry.member("SequenceFrameIndex"@) {
                        Some(JsonTree::Number(Some(sequence_frame_index))) => Some(
                            SceneSample {
                                max_rgb,
                                average_rgb,
                                scene_cut: Some(sequence_frame_index),
                            },
                        ),
                        _ => None,
                    }
                } else {
                    Some(SceneSample { max_rgb, average_rgb, scene_cut: None })
                },
                None => None,
            },
            _ => None,
        },
        None => None,
    }
}

/// The level 1 sample of a frame with the given peak and average, both in
/// tenths of a nit: each is rounded to whole nits and mapped to its
/// codeword; the minimum is not signalled and is always 0. `None` where a
/// rounded luminance is above what the transfer function covers.
pub open spec fn level1_of(codes: Seq<u16>, max_rgb: u64, average_rgb: u64) -> Option<
    Level1Metadata,
> {
    match (luminance_code(codes, max_rgb), luminance_code(codes, average_rgb)) {
        (Some(max_pq), Some(avg_pq)) => Some(Level1Metadata { min_pq: 0, max_pq, avg_pq }),
        _ => None,
    }
}

/// The entries of the document, or `None` where the document is not an
/// object with an array under `SceneInfo`.
pub open spec fn scene_entries(document: JsonTree) -> Option<Seq<JsonTree>> {
    match document.member("SceneInfo"@) {
        Some(scene_info) => scene_info.items(),
        None => None,
    }
}

/// The level 1 sample of an entry, or `None` where the entry is malformed
/// or names a luminance the transfer function does not cover.
pub open spec fn entry_level1(codes: Seq<u16>, entry: JsonTree) -> Option<Level1Metadata> {
    match scene_sample(entry) {
        Some(sample) => level1_of(codes, sample.max_rgb, sample.average_rgb),
        None => None,
    }
}

/// The frame that an entry names as the start of a scene, if it names one.
pub open spec fn entry_cut(entry: JsonTree) -> Option<u64> {
    match scene_sample(entry) {
        Some(sample) => sample.scene_cut,
        None => None,
    }
}

/// The metadata of a list of entries, or the error for the first entry
/// that is malformed or names a luminance the transfer function does not
/// cover.
pub open spec fn ingest_entries(codes: Seq<u16>, entries: Seq<JsonTree>) -> Result<
    Hdr10PlusView,
    GenerateError,
>
    decreases entries.len(),
{
    if entries.len() == 0 {
        Ok(Hdr10PlusView { level1: Seq::empty(), scene_cuts: Seq::empty() })
    } else {
        match ingest_entries(codes, entries.drop_last()) {
            Err(error) => Err(error),
            Ok(before) => match entry_level1(codes, entries.last()) {
                Some(level1) => Ok(
                    Hdr10PlusView {
                        level1: before.level1.push(level1),
                        scene_cuts: match entry_cut(entries.last()) {
                            Some(frame) => before.scene_cuts.push(frame),
                            None => before.scene_cuts,
                        },
                    },
                ),
                None => Err(malformed_entry(entries.len() - 1)),
            },
        }
    }
}

/// The metadata of a document.
pub open spec fn ingest_document(codes: Seq<u16>, document: JsonTree) -> Result<
    Hdr10PlusView,
    GenerateError,
> {
    match scene_entries(document) {
        Some(entries) => ingest_entries(codes, entries),
        None => Err(malformed_document()),
    }
}

/// The metadata of a document given as text.
pub open spec fn ingest_text(codes: Seq<u16>, text: Seq<char>) -> Result<
    Hdr10PlusView,
    GenerateError,
> {
    match json_text_tree(text) {
        Some(document) => ingest_document(codes, document),
        None => Err(malformed_document()),
    }
}

/// Every sample of a list has codewords of 12 bits and a minimum of 0.
pub open spec fn all_in_range(level1: Seq<Level1Metadata>) -> bool {
    forall|k: int|
        0 <= k < level1.len() ==> (#[trigger] level1[k]).in_range() && level1[k].min_pq == 0
}

/// A result of the library holds what a result of the model holds.
pub open spec fn same_outcome(
    result: Result<Hdr10PlusMetadata, GenerateError>,
    model: Result<Hdr10PlusView, GenerateError>,
) -> bool {
    match result {
        Ok(metadata) => model == Ok::<Hdr10PlusView, GenerateError>(metadata@),
        Err(error) => model == Err::<Hdr10PlusView, GenerateError>(error),
    }
}

/// The level 1 sample of a frame from its peak and its average luminance,
/// both in tenths of a nit.
pub fn level1_from_luminance(curve: &PqCurve, max_rgb: u64, average_rgb: u64) -> (r: Option<
    Level1Metadata,
>)
    ensures
        r == level1_of(curve@, max_rgb, average_rgb),
        r matches Some(level1) ==> level1.in_range(),
{
    let max_pq = match curve.code(round_to_nits(max_rgb)) {
        Some(code) => code,
        None => {
            return None;
        },
    };
    let avg_pq = match curve.code(round_to_nits(average_rgb)) {
        Some(code) => code,
        None => {
            return None;
        },
    };
    Some(Level1Metadata { min_pq: 0, max_pq, avg_pq })
}

/// The largest unsigned integer among the items of an array.
pub fn max_scl(channels: &Vec<serde_json::Value>) -> (r: Option<u64>)
    ensures
        r == peak(json_trees(channels@)),
{
    let ghost trees = json_trees(channels@);
    let mut largest: Option<u64> = None;
    let mut next: usize = 0;
    while next < channels.len()
        invariant
            next <= channels.len(),
            trees == json_trees(channels@),
            largest == peak(trees.take(next as int)),
        decreases channels.len() - next,
    {
        proof {
            assert(trees.take(next + 1).drop_last() == trees.take(next as int));
            assert(trees.take(next + 1).last() == json_tree(channels@[next as int]));
        }
        if let Some(value) = channels[next].as_u64() {
            largest = match largest {
                Some(seen) => Some(if value > seen { value } else { seen }),
                None => Some(value),
            };
        }
        next += 1;
    }
    proof {
        assert(trees.take(next as int) == trees);
    }
    largest
}

/// Reads the unsigned integer under `key` in an object.
fn unsigned_member(object: &serde_json::Map<String, serde_json::Value>, key: &str) -> (r: Option<
    u64,
>)
    ensures
        r == (match JsonTree::Object(json_members(*object)).member(key@) {
            Some(JsonTree::Number(Some(value))) => Some(value),
            _ => None,
        }),
{
    match object_get(object, key) {
        Some(value) => value.as_u64(),
        None => None,
    }
}

/// Reads what one entry of `SceneInfo` says of its frame.
pub fn read_scene_sample(entry: &serde_json::Value) -> (r: Option<SceneSample>)
    ensures
        r == scene_sample(json_tree(*entry)),
{
    let fields = match entry.as_object() {
        Some(fields) => fields,
        None => {
            return None;
        },
    };
    let luminance = match object_get(fields, "LuminanceParameters") {
        Some(value) => match value.as_object() {
            Some(luminance) => luminance,
            None => {
                return None;
            },
        },
        None => {
            return None;
        },
    };
    let average_rgb = match unsigned_member(luminance, "AverageRGB") {
        Some(value) => value,
        None => {
            return None;
        },
    };
    let channels = match object_get(luminance, "MaxScl") {
        Some(value) => match value.as_array() {
            Some(channels) => channels,
            None => {
                return None;
            },
        },
        None => {
            return None;
        },
    };
    let max_rgb = match max_scl(channels) {
        Some(value) => value,
        None => {
            return None;
        },
    };
    let scene_frame_index = match unsigned_member(fields, "SceneFrameIndex") {
        Some(value) => value,
        None => {
            return None;
        },
    };
    if scene_frame_index == 0 {
        match unsigned_member(fields, "SequenceFrameIndex") {
            Some(frame) => Some(SceneSample { max_rgb, average_rgb, scene_cut: Some(frame) }),
            None => None,
        }
    } else {
        Some(SceneSample { max_rgb, average_rgb, scene_cut: None })
    }
}

/// Derives the level 1 samples and the scene cuts from a parsed document.
///
/// It fails on a document that is not an object with an array under
/// `SceneInfo`, and on the first entry that lacks a member it reads, holds
/// one of the wrong kind, or names a luminance above 10000 nits; nothing is
/// replaced by a default.
pub fn level1_from_scene_info(document: &serde_json::Value, curve: &PqCurve) -> (r: Result<
    Hdr10PlusMetadata,
    GenerateError,
>)
    ensures
        same_outcome(r, ingest_document(curve@, json_tree(*document))),
        r matches Ok(metadata) ==> all_in_range(metadata.level1@),
{
    let whole = GenerateError::MalformedMetadata { source: SourceKind::Hdr10Plus, index: None };
    let entries = match document.as_object() {
        Some(members) => match object_get(members, "SceneInfo") {
            Some(scene_info) => match scene_info.as_array() {
                Some(entries) => entries,
                None => {
                    return Err(whole);
                },
            },
            None => {
                return Err(whole);
            },
        },
        None => {
            return Err(whole);
        },
    };
    let ghost trees = json_trees(entries@);
    assert(scene_entries(json_tree(*document)) == Some(trees));
    let mut level1: Vec<Level1Metadata> = Vec::new();
    let mut scene_cuts: Vec<u64> = Vec::new();
    let mut frame: usize = 0;
    while frame < entries.len()
        invariant
            frame <= entries.len(),
            trees == json_trees(entries@),
            scene_entries(json_tree(*document)) == Some(trees),
            ingest_entries(curve@, trees.take(frame as int)) == Ok::<Hdr10PlusView, GenerateError>(
                Hdr10PlusView { level1: level1@, scene_cuts: scene_cuts@ },
            ),
        decreases entries.len() - frame,
    {
        let ghost upto = trees.take(frame + 1);
        proof {
            assert(upto.drop_last() == trees.take(frame as int));
            assert(upto.last() == json_tree(entries@[frame as int]));
        }
        let here = GenerateError::MalformedMetadata {
            source: SourceKind::Hdr10Plus,
            index: Some(frame as u64),
        };
        let sample = match read_scene_sample(&entries[frame]) {
            Some(sample) => sample,
            None => {
                proof {
                    lemma_ingest_error_stays(curve@, trees, frame + 1);
                }
                return Err(here);
            },
        };
        let sample_level1 = match level1_from_luminance(curve, sample.max_rgb, sample.average_rgb) {
            Some(sample_level1) => sample_level1,
            None => {
                proof {
                    lemma_ingest_error_stays(curve@, trees, frame + 1);
                }
                return Err(here);
            },
        };
        level1.push(sample_level1);
        if let Some(cut) = sample.scene_cut {
            scene_cuts.push(cut);
        }
        frame += 1;
    }
    proof {
        assert(trees.take(frame as int) == trees);
        use_type_invariant(curve);
        lemma_ingested_level1_in_range(curve@, trees);
    }
    Ok(Hdr10PlusMetadata { level1, scene_cuts })
}

/// Derives the level 1 samples and the scene cuts from the text of an
/// HDR10+ document. It fails on a text that is not JSON as on a malformed
/// document.
pub fn parse_hdr10plus_for_l1(text: &str, curve: &PqCurve) -> (r: Result<
    Hdr10PlusMetadata,
    GenerateError,
>)
    ensures
        same_outcome(r, ingest_text(curve@, text@)),
        r matches Ok(metadata) ==> all_in_range(metadata.level1@),
{
    match parse_document(text) {
        Ok(document) => level1_from_scene_info(&document, curve),
        Err(_) => Err(
            GenerateError::MalformedMetadata { source: SourceKind::Hdr10Plus, index: None },
        ),
    }
}

/// An error on the first entries of a list is the error of the whole list.
pub proof fn lemma_ingest_error_stays(codes: Seq<u16>, entries: Seq<JsonTree>, upto: int)
    requires
        0 <= upto <= entries.len(),
        ingest_entries(codes, entries.take(upto)) is Err,
    ensures
        ingest_entries(codes, entries) == ingest_entries(codes, entries.take(upto)),
    decreases entries.len() - upto,
{
    if upto < entries.len() {
        assert(entries.take(upto + 1).drop_last() == entries.take(upto));
        lemma_ingest_error_stays(codes, entries, upto + 1);
    } else {
        assert(entries.take(upto) == entries);
    }
}

/// One of the first `upto` entries names `frame` as the start of a scene:
/// its `SceneFrameIndex` is 0 and its `SequenceFrameIndex` is `frame`.
pub open spec fn names_scene_cut(entries: Seq<JsonTree>, upto: int, frame: u64) -> bool {
    exists|k: int| 0 <= k < upto && #[trigger] entry_cut(entries[k]) == Some(frame)
}

/// The peak of an array is its largest unsigned integer: it is one of the
/// items, and no unsigned item is larger; an array has no peak only if it
/// has no unsigned item.
pub proof fn lemma_peak_is_largest(items: Seq<JsonTree>)
    ensures
        match peak(items) {
            Some(largest) => {
                &&& exists|i: int|
                    0 <= i < items.len() && (#[trigger] items[i]).as_unsigned() == Some(largest)
                &&& forall|i: int|
                    0 <= i < items.len() && (#[trigger] items[i]).as_unsigned() is Some
                        ==> items[i].as_unsigned()->0 <= largest
            },
            None => forall|i: int|
                0 <= i < items.len() ==> (#[trigger] items[i]).as_unsigned() is None,
        },
    decreases items.len(),
{
    if items.len() > 0 {
        let before = items.drop_last();
        let last = items.len() - 1;
        lemma_peak_is_largest(before);
        match peak(items) {
            Some(largest) => {
                if items.last().as_unsigned() == Some(largest) {
                    assert(items[last].as_unsigned() == Some(largest));
                } else {
                    let i = choose|i: int|
                        0 <= i < before.len() && (#[trigger] before[i]).as_unsigned() == Some(
                            largest,
                        );
                    assert(items[i].as_unsigned() == Some(largest));
                }
                assert forall|i: int|
                    0 <= i < items.len() && (#[trigger] items[i]).as_unsigned() is Some
                    implies items[i].as_unsigned()->0 <= largest by {
                    if i < last {
                        assert(before[i] == items[i]);
                    }
                }
            },
            None => {
                assert forall|i: int| 0 <= i < items.len()
                    implies (#[trigger] items[i]).as_unsigned() is None by {
                    if i < last {
                        assert(before[i] == items[i]);
                    }
                }
            },
        }
    }
}

/// A level 1 sample is a function of the luminance parameters of its entry
/// alone: two sound entries with the same `LuminanceParameters` give the
/// same sample, whatever else they hold. Its codewords fit in 12 bits, and
/// its minimum is 0.
pub proof fn lemma_level1_is_determined(codes: Seq<u16>, first: JsonTree, second: JsonTree)
    requires
        is_pq_curve(codes),
        first.member("LuminanceParameters"@) == second.member("LuminanceParameters"@),
        scene_sample(first) is Some,
        scene_sample(second) is Some,
    ensures
        entry_level1(codes, first) == entry_level1(codes, second),
        entry_level1(codes, first) is Some ==> entry_level1(codes, first)->0.in_range()
            && entry_level1(codes, first)->0.min_pq == 0,
{
}

/// What a successful ingestion holds: one level 1 sample per entry, each
/// the sample of its entry, and as scene cuts exactly the frames that the
/// entries name as the start of a scene.
pub proof fn lemma_ingest_entries_ok(codes: Seq<u16>, entries: Seq<JsonTree>)
    requires
        ingest_entries(codes, entries) is Ok,
    ensures
        ingest_entries(codes, entries)->Ok_0.level1.len() == entries.len(),
        forall|k: int|
            0 <= k < entries.len() ==> #[trigger] entry_level1(codes, entries[k]) == Some(
                ingest_entries(codes, entries)->Ok_0.level1[k],
            ),
        forall|frame: u64|
            ingest_entries(codes, entries)->Ok_0.scene_cuts.contains(frame) <==> names_scene_cut(
                entries,
                entries.len() as int,
                frame,
            ),
    decreases entries.len(),
{
    let whole = ingest_entries(codes, entries)->Ok_0;
    if entries.len() > 0 {
        let last = entries.len() - 1;
        let before = entries.drop_last();
        lemma_ingest_entries_ok(codes, before);
        let part = ingest_entries(codes, before)->Ok_0;
        assert forall|k: int| 0 <= k < entries.len() implies #[trigger] entry_level1(
            codes,
            entries[k],
        ) == Some(whole.level1[k]) by {
            if k < last {
                assert(before[k] == entries[k]);
                assert(whole.level1[k] == part.level1[k]);
            }
        }
        assert forall|frame: u64|
            whole.scene_cuts.contains(frame) <==> names_scene_cut(
                entries,
                entries.len() as int,
                frame,
            ) by {
            if whole.scene_cuts.contains(frame) {
                let at = choose|i: int|
                    0 <= i < whole.scene_cuts.len() && whole.scene_cuts[i] == frame;
                if at < part.scene_cuts.len() {
                    assert(part.scene_cuts[at] == frame);
                    assert(names_scene_cut(before, last, frame));
                    let k = choose|k: int|
                        0 <= k < last && #[trigger] entry_cut(before[k]) == Some(frame);
                    assert(before[k] == entries[k]);
                } else {
                    assert(entry_cut(entries[last]) == Some(frame));
                }
            }
            if names_scene_cut(entries, entries.len() as int, frame) {
                let k = choose|k: int|
                    0 <= k < entries.len() && #[trigger] entry_cut(entries[k]) == Some(frame);
                if k < last {
                    assert(entry_cut(before[k]) == Some(frame));
                    assert(names_scene_cut(before, last, frame));
                    let at = choose|i: int|
                        0 <= i < part.scene_cuts.len() && part.scene_cuts[i] == frame;
                    assert(whole.scene_cuts[at] == frame);
                } else {
                    assert(whole.scene_cuts[whole.scene_cuts.len() - 1] == frame);
                }
            }
        }
    }
}

/// When ingestion fails on a list of entries: the error names the first
/// entry that is malformed or whose luminance has no codeword.
pub proof fn lemma_ingest_entries_err(codes: Seq<u16>, entries: Seq<JsonTree>)
    requires
        ingest_entries(codes, entries) is Err,
    ensures
        exists|k: int|
            {
                &&& 0 <= k < entries.len()
                &&& ingest_entries(codes, entries) == Err::<Hdr10PlusView, GenerateError>(
                    malformed_entry(k),
                )
                &&& #[trigger] entry_level1(codes, entries[k]) is None
                &&& forall|j: int| 0 <= j < k ==> #[trigger] entry_level1(codes, entries[j]) is Some
            },
    decreases entries.len(),
{
    let last = entries.len() - 1;
    let before = entries.drop_last();
    if ingest_entries(codes, before) is Err {
        lemma_ingest_entries_err(codes, before);
        let k = choose|k: int|
            {
                &&& 0 <= k < before.len()
                &&& ingest_entries(codes, before) == Err::<Hdr10PlusView, GenerateError>(
                    malformed_entry(k),
                )
                &&& #[trigger] entry_level1(codes, before[k]) is None
                &&& forall|j: int| 0 <= j < k ==> #[trigger] entry_level1(codes, before[j]) is Some
            };
        assert(before[k] == entries[k]);
        assert forall|j: int| 0 <= j < k
            implies #[trigger] entry_level1(codes, entries[j]) is Some by {
            assert(before[j] == entries[j]);
        }
    } else {
        lemma_ingest_entries_ok(codes, before);
        assert forall|j: int| 0 <= j < last
            implies #[trigger] entry_level1(codes, entries[j]) is Some by {
            assert(before[j] == entries[j]);
        }
    }
}

/// Every sample that ingestion derives has codewords of 12 bits and a
/// minimum of 0.
pub proof fn lemma_ingested_level1_in_range(codes: Seq<u16>, entries: Seq<JsonTree>)
    requires
        is_pq_curve(codes),
        ingest_entries(codes, entries) is Ok,
    ensures
        all_in_range(ingest_entries(codes, entries)->Ok_0.level1),
{
    lemma_ingest_entries_ok(codes, entries);
    let level1 = ingest_entries(codes, entries)->Ok_0.level1;
    assert forall|k: int| 0 <= k < level1.len()
        implies (#[trigger] level1[k]).in_range() && level1[k].min_pq == 0 by {
        assert(entry_level1(codes, entries[k]) == Some(level1[k]));
    }
}

} // verus!
