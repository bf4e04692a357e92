use vstd::prelude::*;
use crate::frame::TelemetryRecord;

verus! {

/// How one named sensor is read from a record: the field it refers to and
/// the rational scale `scale_num / scale_den` applied to the raw value.
pub struct SensorDescriptor {
    pub key: String,
    pub field_ref: usize,
    pub scale_num: i32,
    pub scale_den: u32,
}

/// A raw field value multiplied by a scale, kept exact as `numer / denom`.
#[derive(Debug, Clone, Copy, PartialEq, Eq, Structural)]
pub struct ScaledValue {
    pub numer: i64,
    pub denom: u32,
}

/// One entry of a resolved sample: the sensor's key and its value, or
/// `None` where the descriptor refers to a field the record lacks.
pub struct SensorReading {
    pub key: String,
    pub value: Option<ScaledValue>,
}

impl View for SensorReading {
    type V = (Seq<char>, Option<(int, int)>);

    open spec fn view(&self) -> (Seq<char>, Option<(int, int)>) {
        (
            self.key@,
            match self.value {
                Some(v) => Some((v.numer as int, v.denom as int)),
                None => None,
            },
        )
    }
}

/// The sensors known to the station, in order, each key at most once.
pub struct SensorSchema {
    entries: Vec<SensorDescriptor>,
}

impl View for SensorSchema {
    type V = Seq<SensorDescriptor>;

    closed spec fn view(&self) -> Seq<SensorDescriptor> {
        self.entries@
    }
}

/// Whether every scale has a nonzero denominator and no key repeats.
pub open spec fn schema_wf(entries: Seq<SensorDescriptor>) -> bool {
    &&& forall|i: int| 0 <= i < entries.len() ==> #[trigger] entries[i].scale_den > 0
    &&& forall|i: int, j: int|
        0 <= i < j < entries.len() ==> #[trigger] entries[i].key@ != #[trigger] entries[j].key@
}

/// Whether `key` names some entry of `entries`.
pub open spec fn has_key(entries: Seq<SensorDescriptor>, key: Seq<char>) -> bool {
    exists|i: int| 0 <= i < entries.len() && #[trigger] entries[i].key@ == key
}

/// The value a descriptor resolves to against a record's fields, as
/// `(numerator, denominator)`; `None` where the field is out of range.
pub open spec fn resolved(rec: Seq<int>, d: SensorDescriptor) -> Option<(int, int)> {
    if d.field_ref < rec.len() {
        Some((rec[d.field_ref as int] * d.scale_num, d.scale_den as int))
    } else {
        None
    }
}

/// The resolved sample: one entry per schema entry, in schema order.
pub open spec fn mapped(rec: Seq<int>, schema: Seq<SensorDescriptor>) -> Seq<
    (Seq<char>, Option<(int, int)>),
> {
    schema.map_values(|d: SensorDescriptor| (d.key@, resolved(rec, d)))
}

/// The set of keys of a schema.
pub open spec fn schema_keys(schema: Seq<SensorDescriptor>) -> Set<Seq<char>> {
    schema.map_values(|d: SensorDescriptor| d.key@).to_set()
}

/// The set of keys of a resolved sample.
pub open spec fn sample_keys(sample: Seq<(Seq<char>, Option<(int, int)>)>) -> Set<Seq<char>> {
    sample.map_values(|e: (Seq<char>, Option<(int, int)>)| e.0).to_set()
}

impl SensorSchema {
    pub open spec fn wf(&self) -> bool {
        schema_wf(self@)
    }

    /// An empty schema.
    pub fn new() -> (r: SensorSchema)
        ensures
            r@ == Seq::<SensorDescriptor>::empty(),
            r.wf(),
    {
        SensorSchema { entries: Vec::new() }
    }

    /// Whether some entry has this key.
    pub fn contains_key(&self, key: &String) -> (r: bool)
        ensures
            r == has_key(self@, key@),
    {
        let mut i: usize = 0;
        while i < self.entries.len()
            invariant
                i <= self.entries@.len(),
                forall|j: int| 0 <= j < i ==> #[trigger] self.entries@[j].key@ != key@,
            decreases self.entries@.len() - i,
        {
            if self.entries[i].key == *key {
                return true;
            }
            i = i + 1;
        }
        false
    }

    /// Appends a descriptor. It is refused, leaving the schema unchanged,
    /// where its scale denominator is zero or its key is already present.
    pub fn add(&mut self, d: SensorDescriptor) -> (added: bool)
        requires
            old(self).wf(),
        ensures
            final(self).wf(),
            added == (d.scale_den > 0 && !has_key(old(self)@, d.key@)),
            added ==> final(self)@ == old(self)@.push(d),
            !added ==> final(self)@ == old(self)@,
    {
        if d.scale_den == 0 {
            return false;
        }
        if self.contains_key(&d.key) {
            return false;
        }
        self.entries.push(d);
        true
    }

    /// Number of sensors.
    pub fn len(&self) -> (r: usize)
        ensures
            r == self@.len(),
    {
        self.entries.len()
    }

    /// The descriptor at position `i`.
    pub fn entry(&self, i: usize) -> (r: &SensorDescriptor)
        requires
            i < self@.len(),
        ensures
            *r == self@[i as int],
    {
        &self.entries[i]
    }
}

/// Resolves one descriptor against a record.
pub fn resolve(rec: &TelemetryRecord, d: &SensorDescriptor) -> (r: Option<ScaledValue>)
    ensures
        match r {
            Some(v) => resolved(rec@, *d) == Some((v.numer as int, v.denom as int)),
            None => resolved(rec@, *d) is None,
        },
{
    match rec.field(d.field_ref) {
        Some(raw) => {
            let a = raw as i64;
            let b = d.scale_num as i64;
            assert(-0x8000_0000_0000_0000 <= a * b <= 0x7fff_ffff_ffff_ffff) by (nonlinear_arith)
                requires
                    0 <= a <= 0xffff_ffff,
                    -0x8000_0000 <= b <= 0x7fff_ffff,
            ;
            Some(ScaledValue { numer: a * b, denom: d.scale_den })
        },
        None => None,
    }
}

/// Maps a decoded record to one reading per schema entry, in schema order.
pub fn map_values(rec: &TelemetryRecord, schema: &SensorSchema) -> (r: Vec<SensorReading>)
    ensures
        r@.map_values(|e: SensorReading| e@) == mapped(rec@, schema@),
{
    let mut out: Vec<SensorReading> = Vec::new();
    let mut i: usize = 0;
    while i < schema.len()
        invariant
            i <= schema@.len(),
            out@.len() == i,
            forall|j: int| 0 <= j < i ==> #[trigger] out@[j]@ == mapped(rec@, schema@)[j],
        decreases schema@.len() - i,
    {
        let d = schema.entry(i);
        let value = resolve(rec, d);
        out.push(SensorReading { key: d.key.clone(), value });
        i = i + 1;
    }
    assert(out@.map_values(|e: SensorReading| e@) =~= mapped(rec@, schema@));
    out
}

/// The resolved sample has exactly the schema's keys, whatever the record,
/// and an entry whose field is out of the record's range resolves to `None`.
pub proof fn lemma_mapped_keys_match_schema(rec: Seq<int>, schema: Seq<SensorDescriptor>)
    ensures
        sample_keys(mapped(rec, schema)) == schema_keys(schema),
        mapped(rec, schema).len() == schema.len(),
        forall|i: int|
            0 <= i < schema.len() && #[trigger] schema[i].field_ref >= rec.len() ==> mapped(
                rec,
                schema,
            )[i].1 is None,
{
    let m = mapped(rec, schema);
    assert(m.map_values(|e: (Seq<char>, Option<(int, int)>)| e.0) =~= schema.map_values(
        |d: SensorDescriptor| d.key@,
    ));
}

} // verus!
