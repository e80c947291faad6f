//! Framing of serialised records as NAL units of the output stream.
//!
//! A serialised record starts with a two-byte start code of its own. In the
//! stream that prefix is dropped and the NAL header stands in its place;
//! units follow one another with nothing in between.

use vstd::prelude::*;
use crate::error::GenerateError;

verus! {

/// The bytes that open every unit of the stream.
pub const OUT_NAL_HEADER: [u8; 4] = [0, 0, 0, 1];

/// The two bytes that open every serialised record.
pub const RPU_START_CODE: [u8; 2] = [0x7C, 0x01];

/// The bytes that open every unit of the stream.
pub open spec fn nal_header() -> Seq<u8> {
    seq![0u8, 0u8, 0u8, 1u8]
}

/// The start code stands at position `at` of a byte sequence.
pub open spec fn start_code_at(bytes: Seq<u8>, at: int) -> bool {
    0 <= at && at + 1 < bytes.len() && bytes[at] == 0x7Cu8 && bytes[at + 1] == 0x01u8
}

/// A serialised record opens with the start code.
pub open spec fn has_start_code(encoded: Seq<u8>) -> bool {
    start_code_at(encoded, 0)
}

/// The unit of a serialised record: the header, then the record without
/// its start code.
pub open spec fn nal_unit(encoded: Seq<u8>) -> Seq<u8> {
    nal_header() + encoded.skip(2)
}

/// The stream of a list of serialised records: their units, one after the
/// other, or the error for the first record that lacks the start code.
pub open spec fn nal_stream(encoded: Seq<Seq<u8>>) -> Result<Seq<u8>, GenerateError>
    decreases encoded.len(),
{
    if encoded.len() == 0 {
        Ok(Seq::empty())
    } else {
        match nal_stream(encoded.drop_last()) {
            Ok(stream) => if has_start_code(encoded.last()) {
                Ok(stream + nal_unit(encoded.last()))
            } else {
                Err(GenerateError::RpuEncodingFailure { frame: (encoded.len() - 1) as u64 })
            },
            Err(error) => Err(error),
        }
    }
}

/// The serialised records of a list, each as its bytes.
pub open spec fn payloads(encoded: Seq<Vec<u8>>) -> Seq<Seq<u8>> {
    Seq::new(encoded.len(), |i: int| encoded[i]@)
}

/// Appends the unit of the serialised record of frame `frame` to a stream.
/// A record that does not open with the start code is refused, and the
/// stream stays as it was.
pub fn append_nal_unit(stream: &mut Vec<u8>, encoded: &Vec<u8>, frame: u64) -> (r: Result<
    (),
    GenerateError,
>)
    ensures
        match r {
            Ok(_) => has_start_code(encoded@) && final(stream)@ == old(stream)@ + nal_unit(
                encoded@,
            ),
            Err(error) => !has_start_code(encoded@) && final(stream)@ == old(stream)@ && error
                == (GenerateError::RpuEncodingFailure { frame }),
        },
{
    if encoded.len() < 2 || encoded[0] != RPU_START_CODE[0] || encoded[1] != RPU_START_CODE[1] {
        return Err(GenerateError::RpuEncodingFailure { frame });
    }
    let ghost before = stream@;
    let mut at: usize = 0;
    while at < 4
        invariant
            at <= 4,
            stream@ == before + nal_header().take(at as int),
        decreases 4 - at,
    {
        stream.push(OUT_NAL_HEADER[at]);
        proof {
            assert(nal_header().take(at + 1) == nal_header().take(at as int).push(
                nal_header()[at as int],
            ));
        }
        at += 1;
    }
    proof {
        assert(nal_header().take(4) == nal_header());
    }
    let mut next: usize = 2;
    while next < encoded.len()
        invariant
            2 <= next <= encoded.len(),
            stream@ == before + nal_header() + encoded@.subrange(2, next as int),
        decreases encoded.len() - next,
    {
        stream.push(encoded[next]);
        proof {
            assert(encoded@.subrange(2, next + 1) == encoded@.subrange(2, next as int).push(
                encoded@[next as int],
            ));
        }
        next += 1;
    }
    proof {
        assert(encoded@.subrange(2, next as int) == encoded@.skip(2));
        assert(before + nal_header() + encoded@.skip(2) == before + nal_unit(encoded@));
    }
    Ok(())
}

/// The unit of the serialised record of frame `frame`.
pub fn write_nal_unit(encoded: &Vec<u8>, frame: u64) -> (r: Result<Vec<u8>, GenerateError>)
    ensures
        match r {
            Ok(unit) => has_start_code(encoded@) && unit@ == nal_unit(encoded@),
            Err(error) => !has_start_code(encoded@) && error == (GenerateError::RpuEncodingFailure {
                frame,
            }),
        },
{
    let mut unit: Vec<u8> = Vec::new();
    match append_nal_unit(&mut unit, encoded, frame) {
        Ok(_) => {
            assert(Seq::<u8>::empty() + nal_unit(encoded@) == nal_unit(encoded@));
            Ok(unit)
        },
        Err(error) => Err(error),
    }
}

/// The stream of the serialised records of a run, given in frame order.
pub fn write_nal_stream(encoded: &Vec<Vec<u8>>) -> (r: Result<Vec<u8>, GenerateError>)
    ensures
        match r {
            Ok(stream) => nal_stream(payloads(encoded@)) == Ok::<Seq<u8>, GenerateError>(stream@),
            Err(error) => nal_stream(payloads(encoded@)) == Err::<Seq<u8>, GenerateError>(error),
        },
{
    let ghost all = payloads(encoded@);
    let mut stream: Vec<u8> = Vec::new();
    let mut frame: usize = 0;
    while frame < encoded.len()
        invariant
            frame <= encoded.len(),
            all == payloads(encoded@),
            nal_stream(all.take(frame as int)) == Ok::<Seq<u8>, GenerateError>(stream@),
        decreases encoded.len() - frame,
    {
        proof {
            assert(all.take(frame + 1).drop_last() == all.take(frame as int));
            assert(all.take(frame + 1).last() == encoded@[frame as int]@);
        }
        match append_nal_unit(&mut stream, &encoded[frame], frame as u64) {
            Ok(_) => {},
            Err(error) => {
                proof {
                    lemma_stream_error_stays(all, frame + 1);
                }
                return Err(error);
            },
        }
        frame += 1;
    }
    proof {
        assert(all.take(frame as int) == all);
    }
    Ok(stream)
}

/// An error on the first records of a list is the error of the whole list.
pub proof fn lemma_stream_error_stays(encoded: Seq<Seq<u8>>, upto: int)
    requires
        0 <= upto <= encoded.len(),
        nal_stream(encoded.take(upto)) is Err,
    ensures
        nal_stream(encoded) == nal_stream(encoded.take(upto)),
    decreases encoded.len() - upto,
{
    if upto < encoded.len() {
        assert(encoded.take(upto + 1).drop_last() == encoded.take(upto));
        lemma_stream_error_stays(encoded, upto + 1);
    } else {
        assert(encoded.take(upto) == encoded);
    }
}

/// The length of the stream of a list of serialised records: each record
/// takes two bytes more than its serialised form.
pub open spec fn stream_len(encoded: Seq<Seq<u8>>) -> nat
    decreases encoded.len(),
{
    if encoded.len() == 0 {
        0
    } else {
        stream_len(encoded.drop_last()) + encoded.last().len() + 2
    }
}

/// Where the unit of record `k` starts in the stream.
pub open spec fn unit_start(encoded: Seq<Seq<u8>>, k: int) -> int {
    stream_len(encoded.take(k)) as int
}

/// Where the unit of record `k` ends in the stream.
pub open spec fn unit_end(encoded: Seq<Seq<u8>>, k: int) -> int {
    unit_start(encoded, k) + encoded[k].len() + 2
}

/// The layout of a unit: it opens with the four bytes of the header, and
/// what follows is the serialised record from its third byte on. The start
/// code that opens the record is not part of the unit: where the two bytes
/// of the start code stand in the unit, they stand in what the record
/// holds after its start code.
pub proof fn lemma_nal_unit_layout(encoded: Seq<u8>)
    requires
        encoded.len() >= 2,
    ensures
        nal_unit(encoded).len() == encoded.len() + 2,
        nal_unit(encoded).take(4) == nal_header(),
        nal_unit(encoded).skip(4) == encoded.skip(2),
        nal_unit(encoded)[0] == 0 && nal_unit(encoded)[1] == 0 && nal_unit(encoded)[2] == 0
            && nal_unit(encoded)[3] == 1,
        forall|at: int| #[trigger]
            start_code_at(nal_unit(encoded), at) ==> at >= 4 && start_code_at(encoded, at - 2),
{
    assert(nal_unit(encoded).take(4) =~= nal_header());
    assert(nal_unit(encoded).skip(4) =~= encoded.skip(2));
}

/// The layout of a stream: it holds one unit per record, in frame order
/// and with nothing in between; the unit of record `k` starts where the
/// stream of the records before it ends.
pub proof fn lemma_nal_stream_layout(encoded: Seq<Seq<u8>>)
    requires
        nal_stream(encoded) is Ok,
    ensures
        nal_stream(encoded)->Ok_0.len() == stream_len(encoded),
        forall|k: int| 0 <= k < encoded.len() ==> has_start_code(#[trigger] encoded[k]),
        forall|k: int|
            0 <= k < encoded.len() ==> {
                &&& 0 <= unit_start(encoded, k) <= unit_end(encoded, k) <= stream_len(encoded)
                &&& nal_stream(encoded)->Ok_0.subrange(
                    unit_start(encoded, k),
                    unit_end(encoded, k),
                ) == nal_unit(#[trigger] encoded[k])
            },
    decreases encoded.len(),
{
    if encoded.len() > 0 {
        let last = encoded.len() - 1;
        let before = encoded.drop_last();
        let stream = nal_stream(encoded)->Ok_0;
        let part = nal_stream(before)->Ok_0;
        lemma_nal_stream_layout(before);
        assert(encoded.take(last) == before);
        assert forall|k: int| 0 <= k < encoded.len()
            implies has_start_code(#[trigger] encoded[k]) by {
            if k < last {
                assert(before[k] == encoded[k]);
            }
        }
        assert forall|k: int| 0 <= k < encoded.len() implies {
            &&& 0 <= unit_start(encoded, k) <= unit_end(encoded, k) <= stream_len(encoded)
            &&& stream.subrange(unit_start(encoded, k), unit_end(encoded, k)) == nal_unit(
                #[trigger] encoded[k],
            )
        } by {
            if k < last {
                assert(before[k] == encoded[k]);
                assert(before.take(k) == encoded.take(k));
                let from = unit_start(before, k);
                let to = unit_end(before, k);
                assert(from == unit_start(encoded, k) && to == unit_end(encoded, k));
                assert(stream.subrange(from, to) =~= part.subrange(from, to));
            } else {
                let from = unit_start(encoded, k);
                assert(from == stream_len(before));
                assert(stream.subrange(from, unit_end(encoded, k)) =~= nal_unit(encoded[k]));
            }
        }
    }
}

/// When framing fails: the error names the first record that does not
/// open with the start code.
pub proof fn lemma_nal_stream_err(encoded: Seq<Seq<u8>>)
    requires
        nal_stream(encoded) is Err,
    ensures
        exists|k: int|
            {
                &&& 0 <= k < encoded.len()
                &&& nal_stream(encoded) == Err::<Seq<u8>, GenerateError>(
                    GenerateError::RpuEncodingFailure { frame: k as u64 },
                )
                &&& !has_start_code(#[trigger] encoded[k])
                &&& forall|j: int| 0 <= j < k ==> has_start_code(#[trigger] encoded[j])
            },
    decreases encoded.len(),
{
    let last = encoded.len() - 1;
    let before = encoded.drop_last();
    if nal_stream(before) is Err {
        lemma_nal_stream_err(before);
        let k = choose|k: int|
            {
                &&& 0 <= k < before.len()
                &&& nal_stream(before) == Err::<Seq<u8>, GenerateError>(
                    GenerateError::RpuEncodingFailure { frame: k as u64 },
                )
                &&& !has_start_code(#[trigger] before[k])
                &&& forall|j: int| 0 <= j < k ==> has_start_code(#[trigger] before[j])
            };
        assert(before[k] == encoded[k]);
        assert forall|j: int| 0 <= j < k implies has_start_code(#[trigger] encoded[j]) by {
            assert(before[j] == encoded[j]);
        }
    } else {
        lemma_nal_stream_layout(before);
        assert forall|j: int| 0 <= j < last implies has_start_code(#[trigger] encoded[j]) by {
            assert(before[j] == encoded[j]);
        }
    }
}

} // verus!
