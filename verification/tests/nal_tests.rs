use dovi_generator::error::GenerateError;
use dovi_generator::nal::{
    append_nal_unit, write_nal_stream, write_nal_unit, OUT_NAL_HEADER, RPU_START_CODE,
};

#[test]
fn framing_constants() {
    assert_eq!(OUT_NAL_HEADER, [0, 0, 0, 1]);
    assert_eq!(RPU_START_CODE, [0x7C, 0x01]);
}

#[test]
fn unit_replaces_the_start_code_by_the_header() {
    let encoded = vec![0x7C, 0x01, 0x19, 0x08, 0x09, 0x80];
    assert_eq!(
        write_nal_unit(&encoded, 0),
        Ok(vec![0, 0, 0, 1, 0x19, 0x08, 0x09, 0x80])
    );
}

#[test]
fn unit_is_two_bytes_longer_than_the_record() {
    let mut encoded = vec![0x7C, 0x01];
    for byte in 0..=255u8 {
        encoded.push(byte);
    }
    let unit = write_nal_unit(&encoded, 7).unwrap();
    assert_eq!(unit.len(), encoded.len() + 2);
    assert_eq!(&unit[..4], &OUT_NAL_HEADER);
    assert_eq!(&unit[4..], &encoded[2..]);
}

#[test]
fn unit_of_a_bare_start_code_is_the_header() {
    assert_eq!(write_nal_unit(&vec![0x7C, 0x01], 3), Ok(vec![0, 0, 0, 1]));
}

#[test]
fn unit_keeps_a_start_code_inside_the_payload() {
    let encoded = vec![0x7C, 0x01, 0x7C, 0x01, 0x80];
    assert_eq!(
        write_nal_unit(&encoded, 0),
        Ok(vec![0, 0, 0, 1, 0x7C, 0x01, 0x80])
    );
}

#[test]
fn unit_refuses_a_record_without_start_code() {
    let failure = Err(GenerateError::RpuEncodingFailure { frame: 12 });
    assert_eq!(write_nal_unit(&vec![], 12), failure);
    assert_eq!(write_nal_unit(&vec![0x7C], 12), failure);
    assert_eq!(write_nal_unit(&vec![0x7C, 0x00, 0x19], 12), failure);
    assert_eq!(write_nal_unit(&vec![0x7D, 0x01, 0x19], 12), failure);
    assert_eq!(write_nal_unit(&vec![0x01, 0x7C, 0x19], 12), failure);
    assert_eq!(write_nal_unit(&vec![0, 0, 0, 1, 0x19], 12), failure);
}

#[test]
fn append_adds_the_unit_after_what_is_there() {
    let mut stream = vec![0xAA, 0xBB];
    assert_eq!(append_nal_unit(&mut stream, &vec![0x7C, 0x01, 0x19], 0), Ok(()));
    assert_eq!(stream, vec![0xAA, 0xBB, 0, 0, 0, 1, 0x19]);
}

#[test]
fn append_leaves_the_stream_on_failure() {
    let mut stream = vec![0xAA, 0xBB];
    assert_eq!(
        append_nal_unit(&mut stream, &vec![0x19, 0x08], 4),
        Err(GenerateError::RpuEncodingFailure { frame: 4 })
    );
    assert_eq!(stream, vec![0xAA, 0xBB]);
}

#[test]
fn stream_is_the_units_back_to_back() {
    let encoded = vec![
        vec![0x7C, 0x01, 0x19, 0x08],
        vec![0x7C, 0x01],
        vec![0x7C, 0x01, 0x19, 0x09, 0x80],
    ];
    assert_eq!(
        write_nal_stream(&encoded),
        Ok(vec![0, 0, 0, 1, 0x19, 0x08, 0, 0, 0, 1, 0, 0, 0, 1, 0x19, 0x09, 0x80])
    );
}

#[test]
fn stream_of_no_record_is_empty() {
    assert_eq!(write_nal_stream(&Vec::new()), Ok(Vec::new()));
}

#[test]
fn stream_has_one_unit_per_record() {
    let encoded: Vec<Vec<u8>> = (0..50u8).map(|i| vec![0x7C, 0x01, 0x19, i]).collect();
    let stream = write_nal_stream(&encoded).unwrap();
    assert_eq!(stream.len(), 50 * 6);
    for (i, unit) in stream.chunks(6).enumerate() {
        assert_eq!(unit, &[0, 0, 0, 1, 0x19, i as u8]);
    }
}

#[test]
fn stream_names_the_first_record_without_start_code() {
    let encoded = vec![
        vec![0x7C, 0x01, 0x19],
        vec![0x19, 0x08],
        vec![0x7C, 0x01, 0x19],
        vec![],
    ];
    assert_eq!(
        write_nal_stream(&encoded),
        Err(GenerateError::RpuEncodingFailure { frame: 1 })
    );
}
