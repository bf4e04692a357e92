use vstd::prelude::*;
use crate::error::StationError;

verus! {

/// Number of bytes in one telemetry frame on the wire.
pub const FRAME_SIZE: usize = 27;

/// Number of two-byte little-endian fields that open a frame.
pub const WIDE_FIELDS: usize = 13;

/// Number of fields in a frame: the wide fields, then one single-byte field.
pub const FIELD_COUNT: usize = 14;

/// Largest value a field of index `i` can hold, plus one.
pub open spec fn field_bound(i: int) -> int {
    if i < WIDE_FIELDS as int {
        65536
    } else {
        256
    }
}

/// The value of field `i` as laid out in `frame`: wide fields take bytes
/// `2i` (low) and `2i + 1` (high); the last field is the final byte.
pub open spec fn field_value(frame: Seq<u8>, i: int) -> int {
    if i < WIDE_FIELDS as int {
        frame[2 * i] as int + 256 * frame[2 * i + 1] as int
    } else {
        frame[FRAME_SIZE - 1] as int
    }
}

/// The field values that a frame of `FRAME_SIZE` bytes decodes to.
pub open spec fn decode_spec(frame: Seq<u8>) -> Seq<int> {
    Seq::new(FIELD_COUNT as nat, |i: int| field_value(frame, i))
}

/// Whether `fields` is a field list that fits the frame layout.
pub open spec fn fields_fit(fields: Seq<int>) -> bool {
    &&& fields.len() == FIELD_COUNT
    &&& forall|i: int| 0 <= i < FIELD_COUNT ==> 0 <= #[trigger] fields[i] < field_bound(i)
}

/// Byte `k` of the frame that encodes `fields`.
pub open spec fn frame_byte(fields: Seq<int>, k: int) -> u8 {
    if k < 2 * WIDE_FIELDS {
        if k % 2 == 0 {
            (fields[k / 2] % 256) as u8
        } else {
            (fields[k / 2] / 256) as u8
        }
    } else {
        fields[FIELD_COUNT - 1] as u8
    }
}

/// The frame that encodes `fields`.
pub open spec fn encode_spec(fields: Seq<int>) -> Seq<u8> {
    Seq::new(FRAME_SIZE as nat, |k: int| frame_byte(fields, k))
}

/// One decoded telemetry sample: a fixed number of unsigned fields.
pub struct TelemetryRecord {
    fields: Vec<u32>,
}

impl View for TelemetryRecord {
    type V = Seq<int>;

    closed spec fn view(&self) -> Seq<int> {
        self.fields@.map_values(|v: u32| v as int)
    }
}

impl TelemetryRecord {
    /// The record holds one in-range value per field of the layout.
    pub open spec fn wf(&self) -> bool {
        fields_fit(self@)
    }

    /// Builds a record from field values, if they fit the frame layout.
    pub fn from_fields(fields: Vec<u32>) -> (r: Option<TelemetryRecord>)
        ensures
            r is Some <==> fields_fit(fields@.map_values(|v: u32| v as int)),
            r is Some ==> r->Some_0@ == fields@.map_values(|v: u32| v as int) && r->Some_0.wf(),
    {
        let ghost view = fields@.map_values(|v: u32| v as int);
        if fields.len() != FIELD_COUNT {
            return None;
        }
        let mut i: usize = 0;
        while i < FIELD_COUNT
            invariant
                fields@.len() == FIELD_COUNT,
                view == fields@.map_values(|v: u32| v as int),
                i <= FIELD_COUNT,
                forall|j: int| 0 <= j < i ==> 0 <= #[trigger] view[j] < field_bound(j),
            decreases FIELD_COUNT - i,
        {
            let bound: u32 = if i < WIDE_FIELDS { 65536 } else { 256 };
            assert(view[i as int] == fields@[i as int] as int);
            if fields[i] >= bound {
                return None;
            }
            i = i + 1;
        }
        Some(TelemetryRecord { fields })
    }

    /// Number of fields.
    pub fn len(&self) -> (r: usize)
        ensures
            r == self@.len(),
    {
        self.fields.len()
    }

    /// The value of field `i`, or `None` where the record has no such field.
    pub fn field(&self, i: usize) -> (r: Option<u32>)
        ensures
            i < self@.len() ==> r is Some && r->Some_0 as int == self@[i as int],
            i >= self@.len() ==> r is None,
    {
        if i < self.fields.len() {
            Some(self.fields[i])
        } else {
            None
        }
    }
}

/// Decodes one frame. Any buffer whose length is not `FRAME_SIZE` is
/// rejected with `BufferLenError` carrying that length.
pub fn decode_frame(bytes: &[u8]) -> (r: Result<TelemetryRecord, StationError>)
    ensures
        bytes@.len() == FRAME_SIZE ==> r is Ok && r->Ok_0@ == decode_spec(bytes@) && r->Ok_0.wf(),
        bytes@.len() != FRAME_SIZE ==> r == Err::<TelemetryRecord, StationError>(
            StationError::BufferLenError(bytes@.len() as usize),
        ),
{
    if bytes.len() != FRAME_SIZE {
        return Err(StationError::BufferLenError(bytes.len()));
    }
    let mut fields: Vec<u32> = Vec::new();
    let mut i: usize = 0;
    while i < WIDE_FIELDS
        invariant
            bytes@.len() == FRAME_SIZE,
            i <= WIDE_FIELDS,
            fields@.len() == i,
            forall|j: int| 0 <= j < i ==> #[trigger] fields@[j] as int == field_value(bytes@, j),
        decreases WIDE_FIELDS - i,
    {
        let lo = bytes[2 * i] as u32;
        let hi = bytes[2 * i + 1] as u32;
        fields.push(lo + 256 * hi);
        i = i + 1;
    }
    fields.push(bytes[FRAME_SIZE - 1] as u32);
    let rec = TelemetryRecord { fields };
    assert(rec@ =~= decode_spec(bytes@));
    proof {
        lemma_decoded_fields_fit(bytes@);
    }
    Ok(rec)
}

/// Encodes a record back into the frame it was decoded from.
pub fn encode_record(rec: &TelemetryRecord) -> (r: Vec<u8>)
    requires
        rec.wf(),
    ensures
        r@ == encode_spec(rec@),
{
    let mut out: Vec<u8> = Vec::new();
    let mut i: usize = 0;
    while i < WIDE_FIELDS
        invariant
            rec.wf(),
            i <= WIDE_FIELDS,
            out@.len() == 2 * i,
            forall|k: int| 0 <= k < 2 * i ==> #[trigger] out@[k] == frame_byte(rec@, k),
        decreases WIDE_FIELDS - i,
    {
        let v = rec.fields[i];
        assert(rec@[i as int] == v as int);
        out.push((v % 256) as u8);
        out.push((v / 256) as u8);
        i = i + 1;
    }
    let last = rec.fields[FIELD_COUNT - 1];
    assert(rec@[FIELD_COUNT - 1] == last as int);
    out.push(last as u8);
    assert(out@ =~= encode_spec(rec@));
    out
}

/// Every decoded field lies within its width.
pub proof fn lemma_decoded_fields_fit(frame: Seq<u8>)
    requires
        frame.len() == FRAME_SIZE,
    ensures
        fields_fit(decode_spec(frame)),
{
}

/// Encoding the fields decoded from a frame gives back the same bytes.
pub proof fn lemma_decode_then_encode(frame: Seq<u8>)
    requires
        frame.len() == FRAME_SIZE,
    ensures
        encode_spec(decode_spec(frame)) == frame,
{
    let f = decode_spec(frame);
    assert forall|k: int| 0 <= k < FRAME_SIZE implies #[trigger] frame_byte(f, k) == frame[k] by {
        if k < 2 * WIDE_FIELDS {
            let lo = frame[2 * (k / 2)] as int;
            let hi = frame[2 * (k / 2) + 1] as int;
            assert(f[k / 2] == lo + 256 * hi);
            assert((lo + 256 * hi) % 256 == lo && (lo + 256 * hi) / 256 == hi) by (nonlinear_arith)
                requires
                    0 <= lo < 256,
                    0 <= hi < 256,
            ;
        }
    }
    assert(encode_spec(f) =~= frame);
}

/// Decoding the frame that encodes a fitting field list gives back the same fields.
pub proof fn lemma_encode_then_decode(fields: Seq<int>)
    requires
        fields_fit(fields),
    ensures
        decode_spec(encode_spec(fields)) == fields,
{
    let b = encode_spec(fields);
    assert forall|i: int| 0 <= i < FIELD_COUNT implies #[trigger] field_value(b, i) == fields[i] by {
        if i < WIDE_FIELDS {
            let v = fields[i];
            assert(0 <= v < 65536);
            assert((2 * i) / 2 == i && (2 * i + 1) / 2 == i);
            assert(v % 256 + 256 * (v / 256) == v && 0 <= v / 256 < 256) by (nonlinear_arith)
                requires
                    0 <= v < 65536,
            ;
        }
    }
    assert(decode_spec(b) =~= fields);
}

} // verus!
