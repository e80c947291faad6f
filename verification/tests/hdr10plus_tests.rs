use dovi_generator::error::{GenerateError, SourceKind};
use dovi_generator::hdr10plus::{
    level1_from_luminance, level1_from_scene_info, max_scl, parse_hdr10plus_for_l1,
    read_scene_sample, Hdr10PlusMetadata, SceneSample,
};
use dovi_generator::metadata::Level1Metadata;
use dovi_generator::pq::PqCurve;
use serde_json::{Number, Value};

fn st2084_curve() -> PqCurve {
    let m1 = 2610.0 / 16384.0;
    let m2 = (2523.0 / 4096.0) * 128.0;
    let c1 = 3424.0 / 4096.0;
    let c2 = (2413.0 / 4096.0) * 32.0;
    let c3 = (2392.0 / 4096.0) * 32.0;
    let table = (0..=10000u16)
        .map(|nits| {
            let y = f64::from(nits) / 10000.0;
            let pq: f64 = ((c1 + c2 * y.powf(m1)) / (1.0 + c3 * y.powf(m1))).powf(m2);
            (pq * 4095.0).round() as u16
        })
        .collect();
    PqCurve::new(table).unwrap()
}

fn whole_document() -> GenerateError {
    GenerateError::MalformedMetadata { source: SourceKind::Hdr10Plus, index: None }
}

fn entry_at(index: u64) -> GenerateError {
    GenerateError::MalformedMetadata { source: SourceKind::Hdr10Plus, index: Some(index) }
}

fn sound_entry() -> &'static str {
    r#"{"LuminanceParameters": {"AverageRGB": 1000, "MaxScl": [1000, 6000, 4000]},
        "SceneFrameIndex": 3, "SequenceFrameIndex": 9}"#
}

fn document_with_second_entry(entry: &str) -> String {
    format!(r#"{{"SceneInfo": [{}, {}]}}"#, sound_entry(), entry)
}

fn number(value: u64) -> Value {
    Value::Number(Number::from(value))
}

#[test]
fn two_entries_give_two_samples_and_one_scene_cut() {
    let text = r#"{
        "SceneInfo": [
            {"LuminanceParameters": {"AverageRGB": 1000, "MaxScl": [1000, 6000, 4000]},
             "SceneFrameIndex": 0, "SequenceFrameIndex": 0},
            {"LuminanceParameters": {"AverageRGB": 20, "MaxScl": [10000, 10000, 10000]},
             "SceneFrameIndex": 1}
        ]
    }"#;
    let metadata = parse_hdr10plus_for_l1(text, &st2084_curve()).unwrap();
    assert_eq!(
        metadata,
        Hdr10PlusMetadata {
            level1: vec![
                Level1Metadata { min_pq: 0, max_pq: 2851, avg_pq: 2081 },
                Level1Metadata { min_pq: 0, max_pq: 3079, avg_pq: 771 },
            ],
            scene_cuts: vec![0],
        }
    );
}

#[test]
fn sample_count_is_the_length_of_scene_info() {
    let entries: Vec<String> = (0..25).map(|_| sound_entry().to_string()).collect();
    let text = format!(r#"{{"SceneInfo": [{}]}}"#, entries.join(","));
    let metadata = parse_hdr10plus_for_l1(&text, &st2084_curve()).unwrap();
    assert_eq!(metadata.level1.len(), 25);
    assert!(metadata.scene_cuts.is_empty());
}

#[test]
fn empty_scene_info_gives_no_sample() {
    let metadata = parse_hdr10plus_for_l1(r#"{"SceneInfo": []}"#, &st2084_curve()).unwrap();
    assert_eq!(metadata, Hdr10PlusMetadata { level1: vec![], scene_cuts: vec![] });
}

#[test]
fn scene_cut_is_the_sequence_frame_index_of_the_entry() {
    let text = r#"{"SceneInfo": [
        {"LuminanceParameters": {"AverageRGB": 0, "MaxScl": [0]},
         "SceneFrameIndex": 0, "SequenceFrameIndex": 5},
        {"LuminanceParameters": {"AverageRGB": 0, "MaxScl": [0]},
         "SceneFrameIndex": 1, "SequenceFrameIndex": 6},
        {"LuminanceParameters": {"AverageRGB": 0, "MaxScl": [0]},
         "SceneFrameIndex": 0, "SequenceFrameIndex": 1}
    ]}"#;
    let metadata = parse_hdr10plus_for_l1(text, &st2084_curve()).unwrap();
    assert_eq!(metadata.scene_cuts, vec![5, 1]);
    assert_eq!(metadata.level1, vec![Level1Metadata { min_pq: 0, max_pq: 0, avg_pq: 0 }; 3]);
}

#[test]
fn luminance_is_rounded_to_whole_nits_before_the_codeword() {
    let curve = st2084_curve();
    assert_eq!(
        level1_from_luminance(&curve, 14, 15),
        Some(Level1Metadata { min_pq: 0, max_pq: 614, avg_pq: 771 })
    );
    assert_eq!(
        level1_from_luminance(&curve, 4, 5),
        Some(Level1Metadata { min_pq: 0, max_pq: 0, avg_pq: 614 })
    );
    assert_eq!(
        level1_from_luminance(&curve, 100000, 40000),
        Some(Level1Metadata { min_pq: 0, max_pq: 4095, avg_pq: 3696 })
    );
}

#[test]
fn luminance_above_the_peak_has_no_sample() {
    let curve = st2084_curve();
    assert!(level1_from_luminance(&curve, 100004, 0).is_some());
    assert_eq!(level1_from_luminance(&curve, 100005, 0), None);
    assert_eq!(level1_from_luminance(&curve, 0, 100005), None);
    assert_eq!(level1_from_luminance(&curve, u64::MAX, u64::MAX), None);
}

#[test]
fn same_luminance_gives_the_same_sample_again() {
    let curve = st2084_curve();
    let first = level1_from_luminance(&curve, 6000, 1000);
    let second = level1_from_luminance(&curve, 6000, 1000);
    assert_eq!(first, second);
    assert_eq!(first, Some(Level1Metadata { min_pq: 0, max_pq: 2851, avg_pq: 2081 }));
    let text = document_with_second_entry(sound_entry());
    assert_eq!(
        parse_hdr10plus_for_l1(&text, &curve),
        parse_hdr10plus_for_l1(&text, &st2084_curve())
    );
}

#[test]
fn max_scl_is_the_largest_unsigned_item() {
    assert_eq!(max_scl(&vec![number(3), number(9), number(4)]), Some(9));
    assert_eq!(max_scl(&vec![number(9), number(3)]), Some(9));
    assert_eq!(max_scl(&vec![number(0)]), Some(0));
    assert_eq!(max_scl(&vec![number(u64::MAX), number(1)]), Some(u64::MAX));
}

#[test]
fn max_scl_passes_over_items_that_are_no_unsigned_integer() {
    let items = vec![
        Value::String("70".to_string()),
        Value::Number(Number::from(-5i64)),
        number(30),
        Value::Number(Number::from_f64(99.5).unwrap()),
        Value::Null,
        Value::Bool(true),
    ];
    assert_eq!(max_scl(&items), Some(30));
}

#[test]
fn max_scl_of_nothing_unsigned_is_none() {
    assert_eq!(max_scl(&vec![]), None);
    assert_eq!(max_scl(&vec![Value::Null, Value::String("1".to_string())]), None);
    assert_eq!(max_scl(&vec![Value::Number(Number::from(-1i64))]), None);
}

#[test]
fn scene_sample_of_a_built_entry() {
    let mut luminance = serde_json::Map::new();
    luminance.insert("AverageRGB".to_string(), number(120));
    luminance.insert("MaxScl".to_string(), Value::Array(vec![number(7), number(800), number(50)]));
    let mut entry = serde_json::Map::new();
    entry.insert("LuminanceParameters".to_string(), Value::Object(luminance));
    entry.insert("SceneFrameIndex".to_string(), number(0));
    entry.insert("SequenceFrameIndex".to_string(), number(42));
    assert_eq!(
        read_scene_sample(&Value::Object(entry.clone())),
        Some(SceneSample { max_rgb: 800, average_rgb: 120, scene_cut: Some(42) })
    );
    entry.insert("SceneFrameIndex".to_string(), number(2));
    assert_eq!(
        read_scene_sample(&Value::Object(entry.clone())),
        Some(SceneSample { max_rgb: 800, average_rgb: 120, scene_cut: None })
    );
    entry.remove("SequenceFrameIndex");
    assert_eq!(
        read_scene_sample(&Value::Object(entry.clone())),
        Some(SceneSample { max_rgb: 800, average_rgb: 120, scene_cut: None })
    );
    entry.insert("SceneFrameIndex".to_string(), number(0));
    assert_eq!(read_scene_sample(&Value::Object(entry)), None);
}

#[test]
fn scene_sample_of_what_is_no_object() {
    assert_eq!(read_scene_sample(&Value::Null), None);
    assert_eq!(read_scene_sample(&number(1)), None);
    assert_eq!(read_scene_sample(&Value::Array(vec![])), None);
    assert_eq!(read_scene_sample(&Value::Object(serde_json::Map::new())), None);
}

#[test]
fn parsed_document_gives_what_its_text_gives() {
    let text = document_with_second_entry(sound_entry());
    let document: Value = serde_json::from_str(&text).unwrap();
    let curve = st2084_curve();
    assert_eq!(
        level1_from_scene_info(&document, &curve),
        parse_hdr10plus_for_l1(&text, &curve)
    );
    assert_eq!(level1_from_scene_info(&document, &curve).unwrap().level1.len(), 2);
}

#[test]
fn text_that_is_no_json_is_malformed() {
    let curve = st2084_curve();
    assert_eq!(parse_hdr10plus_for_l1("", &curve), Err(whole_document()));
    assert_eq!(parse_hdr10plus_for_l1("{\"SceneInfo\": [", &curve), Err(whole_document()));
    assert_eq!(parse_hdr10plus_for_l1("SceneInfo", &curve), Err(whole_document()));
    assert_eq!(
        parse_hdr10plus_for_l1(r#"{"SceneInfo": []} trailing"#, &curve),
        Err(whole_document())
    );
}

#[test]
fn document_without_scene_info_array_is_malformed() {
    let curve = st2084_curve();
    assert_eq!(parse_hdr10plus_for_l1("[]", &curve), Err(whole_document()));
    assert_eq!(parse_hdr10plus_for_l1("12", &curve), Err(whole_document()));
    assert_eq!(parse_hdr10plus_for_l1("null", &curve), Err(whole_document()));
    assert_eq!(parse_hdr10plus_for_l1("{}", &curve), Err(whole_document()));
    assert_eq!(parse_hdr10plus_for_l1(r#"{"sceneinfo": []}"#, &curve), Err(whole_document()));
    assert_eq!(parse_hdr10plus_for_l1(r#"{"SceneInfo": {}}"#, &curve), Err(whole_document()));
    assert_eq!(parse_hdr10plus_for_l1(r#"{"SceneInfo": 3}"#, &curve), Err(whole_document()));
    assert_eq!(
        level1_from_scene_info(&Value::Array(vec![]), &curve),
        Err(whole_document())
    );
}

#[test]
fn entry_that_is_no_object_is_malformed() {
    let curve = st2084_curve();
    for entry in ["null", "7", "[]", "\"frame\"", "{}"] {
        let text = document_with_second_entry(entry);
        assert_eq!(parse_hdr10plus_for_l1(&text, &curve), Err(entry_at(1)));
    }
}

#[test]
fn entry_with_missing_or_mistyped_members_is_malformed() {
    let curve = st2084_curve();
    let entries = [
        r#"{"SceneFrameIndex": 1, "SequenceFrameIndex": 1}"#,
        r#"{"LuminanceParameters": [], "SceneFrameIndex": 1}"#,
        r#"{"LuminanceParameters": {"MaxScl": [1]}, "SceneFrameIndex": 1}"#,
        r#"{"LuminanceParameters": {"AverageRGB": -1, "MaxScl": [1]}, "SceneFrameIndex": 1}"#,
        r#"{"LuminanceParameters": {"AverageRGB": 1.0, "MaxScl": [1]}, "SceneFrameIndex": 1}"#,
        r#"{"LuminanceParameters": {"AverageRGB": "1", "MaxScl": [1]}, "SceneFrameIndex": 1}"#,
        r#"{"LuminanceParameters": {"AverageRGB": 1}, "SceneFrameIndex": 1}"#,
        r#"{"LuminanceParameters": {"AverageRGB": 1, "MaxScl": 1}, "SceneFrameIndex": 1}"#,
        r#"{"LuminanceParameters": {"AverageRGB": 1, "MaxScl": []}, "SceneFrameIndex": 1}"#,
        r#"{"LuminanceParameters": {"AverageRGB": 1, "MaxScl": ["1", 2.5]}, "SceneFrameIndex": 1}"#,
        r#"{"LuminanceParameters": {"AverageRGB": 1, "MaxScl": [1]}}"#,
        r#"{"LuminanceParameters": {"AverageRGB": 1, "MaxScl": [1]}, "SceneFrameIndex": "1"}"#,
        r#"{"LuminanceParameters": {"AverageRGB": 1, "MaxScl": [1]}, "SceneFrameIndex": 0}"#,
        r#"{"LuminanceParameters": {"AverageRGB": 1, "MaxScl": [1]}, "SceneFrameIndex": 0,
            "SequenceFrameIndex": -3}"#,
    ];
    for entry in entries {
        let text = document_with_second_entry(entry);
        assert_eq!(parse_hdr10plus_for_l1(&text, &curve), Err(entry_at(1)), "{}", entry);
    }
}

#[test]
fn entry_with_a_luminance_above_the_peak_is_malformed() {
    let curve = st2084_curve();
    let bright = r#"{"LuminanceParameters": {"AverageRGB": 1, "MaxScl": [100005]},
                     "SceneFrameIndex": 1}"#;
    assert_eq!(
        parse_hdr10plus_for_l1(&document_with_second_entry(bright), &curve),
        Err(entry_at(1))
    );
    let average = r#"{"LuminanceParameters": {"AverageRGB": 200000, "MaxScl": [1]},
                      "SceneFrameIndex": 1}"#;
    assert_eq!(
        parse_hdr10plus_for_l1(&document_with_second_entry(average), &curve),
        Err(entry_at(1))
    );
    let peak = r#"{"LuminanceParameters": {"AverageRGB": 100004, "MaxScl": [100000]},
                   "SceneFrameIndex": 1}"#;
    let metadata = parse_hdr10plus_for_l1(&document_with_second_entry(peak), &curve).unwrap();
    assert_eq!(metadata.level1[1], Level1Metadata { min_pq: 0, max_pq: 4095, avg_pq: 4095 });
}

#[test]
fn error_names_the_first_malformed_entry() {
    let curve = st2084_curve();
    let text = format!(
        r#"{{"SceneInfo": [{0}, {0}, {0}, 5, {0}, null]}}"#,
        sound_entry()
    );
    assert_eq!(parse_hdr10plus_for_l1(&text, &curve), Err(entry_at(3)));
    let text = format!(r#"{{"SceneInfo": [true, {0}]}}"#, sound_entry());
    assert_eq!(parse_hdr10plus_for_l1(&text, &curve), Err(entry_at(0)));
}

#[test]
fn members_that_are_not_read_are_ignored() {
    let curve = st2084_curve();
    let text = r#"{"JSONInfo": {"HDR10plusProfile": "B"}, "SceneInfoSummary": 1, "SceneInfo": [
        {"BezierCurveData": {"KneePointX": 0}, "SceneId": 4,
         "LuminanceParameters": {"AverageRGB": 1000, "MaxScl": [1000], "LuminanceWindows": "x"},
         "SceneFrameIndex": 7, "SequenceFrameIndex": "unread"}
    ]}"#;
    let metadata = parse_hdr10plus_for_l1(text, &curve).unwrap();
    assert_eq!(metadata.level1, vec![Level1Metadata { min_pq: 0, max_pq: 2081, avg_pq: 2081 }]);
    assert!(metadata.scene_cuts.is_empty());
}

#[test]
fn repeated_member_counts_once_with_its_last_value() {
    let curve = st2084_curve();
    let text = r#"{"SceneInfo": 4, "SceneInfo": [
        {"LuminanceParameters": {"AverageRGB": 1, "MaxScl": [1], "AverageRGB": 10000},
         "SceneFrameIndex": 1}
    ]}"#;
    let metadata = parse_hdr10plus_for_l1(text, &curve).unwrap();
    assert_eq!(metadata.level1, vec![Level1Metadata { min_pq: 0, max_pq: 0, avg_pq: 3079 }]);
}
