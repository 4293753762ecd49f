//! BLE advertising payloads: the sensor station broadcasts its weather
//! record as manufacturer-specific data in its advertisements.
//!
//! The advertising data format (a run of structures, each a length byte, a
//! type byte and data) is encoded and decoded by `trouble_host`; the
//! functions below state what those calls produce.
use vstd::prelude::*;
use trouble_host::advertise::AdStructure;

verus! {

/// Company identifier under which the weather record is advertised.
pub const COMPANY_ID: u16 = 0xFFFF;

/// AD flags: LE general discoverable, BR/EDR not supported.
pub const ADV_FLAGS: u8 = 0x06;

/// Type byte of a complete local name.
pub const AD_TYPE_COMPLETE_LOCAL_NAME: u8 = 0x09;

/// Type byte of a flags structure.
pub const AD_TYPE_FLAGS: u8 = 0x01;

/// Type byte of manufacturer-specific data.
pub const AD_TYPE_MANUFACTURER: u8 = 0xFF;

/// An advertising data structure that the library emits.
#[derive(Debug)]
pub enum AdField {
    Flags(u8),
    CompleteLocalName(Vec<u8>),
    ManufacturerSpecificData { company_identifier: u16, payload: Vec<u8> },
}

/// The contents of an [`AdField`].
pub enum AdFieldView {
    Flags(u8),
    CompleteLocalName(Seq<u8>),
    ManufacturerSpecificData { company_identifier: u16, payload: Seq<u8> },
}

impl View for AdField {
    type V = AdFieldView;

    open spec fn view(&self) -> AdFieldView {
        match self {
            AdField::Flags(f) => AdFieldView::Flags(*f),
            AdField::CompleteLocalName(n) => AdFieldView::CompleteLocalName(n@),
            AdField::ManufacturerSpecificData { company_identifier, payload } => {
                AdFieldView::ManufacturerSpecificData {
                    company_identifier: *company_identifier,
                    payload: payload@,
                }
            },
        }
    }
}

/// One structure as it is encoded: its length byte (the length of type and
/// data, truncated to a byte), its type byte, then its data; a company
/// identifier goes first in little-endian order.
pub open spec fn spec_field_bytes(f: AdFieldView) -> Seq<u8> {
    match f {
        AdFieldView::Flags(flags) => seq![2u8, AD_TYPE_FLAGS, flags],
        AdFieldView::CompleteLocalName(name) => seq![
            ((name.len() + 1) % 256) as u8,
            AD_TYPE_COMPLETE_LOCAL_NAME,
        ] + name,
        AdFieldView::ManufacturerSpecificData { company_identifier, payload } => seq![
            ((payload.len() + 3) % 256) as u8,
            AD_TYPE_MANUFACTURER,
            (company_identifier % 256) as u8,
            (company_identifier / 256) as u8,
        ] + payload,
    }
}

/// A run of structures as it is encoded: the structures one after another.
pub open spec fn spec_fields_bytes(fs: Seq<AdFieldView>) -> Seq<u8>
    decreases fs.len(),
{
    if fs.len() == 0 {
        Seq::empty()
    } else {
        spec_field_bytes(fs[0]) + spec_fields_bytes(fs.drop_first())
    }
}

/// The contents of a run of [`AdField`]s.
pub open spec fn fields_view(fs: Seq<AdField>) -> Seq<AdFieldView> {
    fs.map_values(|f: AdField| f@)
}

/// Why an advertisement could not be built.
#[derive(Debug, Clone, Copy, PartialEq, Eq, Structural)]
pub enum AdvError {
    /// The encoded structures do not fit in the buffer.
    BufferTooSmall,
}

/// Encodes `fields` at the start of `dest` with `AdStructure::encode_slice`.
///
/// The contract states what the source of `trouble_host` 0.8 shows: each
/// structure is written as length, type, data, in order; the call succeeds
/// exactly when all of them fit, and then returns their total length and
/// leaves the rest of `dest` as it was. When they do not fit, the call has
/// written a prefix of the encoding, which the contract leaves unsaid.
#[verifier::external_body]
fn encode_ad_fields(fields: &Vec<AdField>, dest: &mut [u8]) -> (r: Result<usize, AdvError>)
    ensures
        final(dest)@.len() == old(dest)@.len(),
        ({
            let bytes = spec_fields_bytes(fields_view(fields@));
            if bytes.len() <= old(dest)@.len() {
                &&& r == Ok::<usize, AdvError>(bytes.len() as usize)
                &&& final(dest)@ == bytes + old(dest)@.subrange(bytes.len() as int, old(dest)@.len() as int)
            } else {
                r == Err::<usize, AdvError>(AdvError::BufferTooSmall)
            }
        }),
{
    let mut items: Vec<AdStructure<'_>> = Vec::new();
    for f in fields.iter() {
        items.push(match f {
            AdField::Flags(flags) => AdStructure::Flags(*flags),
            AdField::CompleteLocalName(name) => AdStructure::CompleteLocalName(name),
            AdField::ManufacturerSpecificData { company_identifier, payload } => {
                AdStructure::ManufacturerSpecificData { company_identifier: *company_identifier, payload }
            },
        });
    }
    match AdStructure::encode_slice(&items, dest) {
        Ok(n) => Ok(n),
        Err(_) => Err(AdvError::BufferTooSmall),
    }
}

/// The local name that the sensor station advertises: "Trouble Beacon".
pub open spec fn spec_beacon_name() -> Seq<u8> {
    seq![84u8, 114, 111, 117, 98, 108, 101, 32, 66, 101, 97, 99, 111, 110]
}

/// The advertised name is the ASCII spelling of "Trouble Beacon".
pub proof fn law_beacon_name_spells_it()
    ensures
        spec_beacon_name().len() == 14,
        forall|i: int| 0 <= i < 14 ==> spec_beacon_name()[i] as char == #[trigger] "Trouble Beacon"@[i],
{
    reveal_strlit("Trouble Beacon");
}

/// The advertising data laid out byte by byte: the name structure (length
/// 15, type 0x09, the 14 name bytes), the flags structure (length 2, type
/// 0x01, flags 0x06), then the manufacturer structure (length of payload
/// plus 3 as a byte, type 0xFF, company 0xFFFF little-endian) and the
/// payload itself.
pub open spec fn spec_adv_layout(payload: Seq<u8>) -> Seq<u8> {
    seq![15u8, 0x09u8] + spec_beacon_name() + seq![
        2u8,
        0x01u8,
        0x06u8,
        ((payload.len() + 3) % 256) as u8,
        0xFFu8,
        0xFFu8,
        0xFFu8,
    ] + payload
}

/// The library's advertising data is exactly that layout.
pub proof fn law_adv_layout(payload: Seq<u8>)
    ensures
        spec_adv_bytes(payload) == spec_adv_layout(payload),
{
    let fs = spec_adv_fields(payload);
    lemma_three_fields(fs[0], fs[1], fs[2]);
    assert(fs == seq![fs[0], fs[1], fs[2]]);
    assert(spec_adv_bytes(payload) =~= spec_adv_layout(payload));
}

/// The bytes of "Trouble Beacon".
pub fn beacon_name() -> (name: Vec<u8>)
    ensures
        name@ == spec_beacon_name(),
{
    vec![84u8, 114, 111, 117, 98, 108, 101, 32, 66, 101, 97, 99, 111, 110]
}

/// The structures advertised for a record whose encoding is `payload`:
/// the local name, the flags, and the record as manufacturer-specific data.
pub open spec fn spec_adv_fields(payload: Seq<u8>) -> Seq<AdFieldView> {
    seq![
        AdFieldView::CompleteLocalName(spec_beacon_name()),
        AdFieldView::Flags(ADV_FLAGS),
        AdFieldView::ManufacturerSpecificData { company_identifier: COMPANY_ID, payload },
    ]
}

/// The advertising data for a record whose encoding is `payload`.
pub open spec fn spec_adv_bytes(payload: Seq<u8>) -> Seq<u8> {
    spec_fields_bytes(spec_adv_fields(payload))
}

/// Length of the advertising data around a payload: 16 bytes of name,
/// 3 of flags and 4 of manufacturer-data header.
pub const ADV_OVERHEAD: usize = 23;

proof fn lemma_three_fields(a: AdFieldView, b: AdFieldView, c: AdFieldView)
    ensures
        spec_fields_bytes(seq![a, b, c]) == spec_field_bytes(a) + spec_field_bytes(b) + spec_field_bytes(c),
{
    let fs = seq![a, b, c];
    assert(fs.drop_first() == seq![b, c]);
    assert(seq![b, c].drop_first() == seq![c]);
    assert(seq![c].drop_first() == Seq::<AdFieldView>::empty());
    assert(spec_fields_bytes(Seq::<AdFieldView>::empty()) == Seq::<u8>::empty());
    assert(spec_fields_bytes(seq![c]) == spec_field_bytes(c) + Seq::<u8>::empty());
    assert(spec_field_bytes(c) + Seq::<u8>::empty() == spec_field_bytes(c));
    assert(spec_fields_bytes(seq![b, c]) == spec_field_bytes(b) + spec_field_bytes(c));
    assert(spec_fields_bytes(fs) == spec_field_bytes(a) + (spec_field_bytes(b) + spec_field_bytes(c)));
}

proof fn lemma_adv_bytes_len(payload: Seq<u8>)
    ensures
        spec_adv_bytes(payload).len() == payload.len() + ADV_OVERHEAD,
{
    let fs = spec_adv_fields(payload);
    lemma_three_fields(fs[0], fs[1], fs[2]);
    assert(fs == seq![fs[0], fs[1], fs[2]]);
}

/// Writes the advertising data for a record whose encoding is `payload`
/// at the start of `buffer`; returns its length.
pub fn make_adv(payload: &[u8], buffer: &mut [u8]) -> (len: usize)
    requires
        payload@.len() + ADV_OVERHEAD <= old(buffer)@.len(),
    ensures
        len == payload@.len() + ADV_OVERHEAD,
        final(buffer)@ == spec_adv_bytes(payload@) + old(buffer)@.subrange(len as int, old(buffer)@.len() as int),
        final(buffer)@.len() == old(buffer)@.len(),
        final(buffer)@.subrange(0, len as int) == spec_adv_layout(payload@),
        final(buffer)@.subrange(len as int, final(buffer)@.len() as int) == old(buffer)@.subrange(
            len as int,
            old(buffer)@.len() as int,
        ),
{
    proof {
        law_adv_layout(payload@);
        lemma_adv_bytes_len(payload@);
    }
    let mut owned: Vec<u8> = Vec::new();
    let n = payload.len();
    for i in 0..n
        invariant
            n == payload@.len(),
            owned@ == payload@.subrange(0, i as int),
    {
        owned.push(payload[i]);
    }
    assert(payload@.subrange(0, n as int) == payload@);
    let fields = vec![
        AdField::CompleteLocalName(beacon_name()),
        AdField::Flags(ADV_FLAGS),
        AdField::ManufacturerSpecificData { company_identifier: COMPANY_ID, payload: owned },
    ];
    assert(fields_view(fields@) == spec_adv_fields(payload@));
    proof {
        lemma_adv_bytes_len(payload@);
    }
    let capacity = buffer.len();
    assert(capacity == buffer@.len());
    let r = encode_ad_fields(&fields, buffer);
    match r {
        Ok(n) => n,
        Err(_) => {
            assert(false);
            0
        },
    }
}

/// What a decoded structure is to this library: manufacturer-specific data
/// (company identifier and payload) or anything else, an undecodable
/// stretch included.
#[derive(Debug)]
pub enum AdRecord {
    ManufacturerSpecificData { company_identifier: u16, payload: Vec<u8> },
    Other,
}

/// The contents of an [`AdRecord`].
pub enum AdRecordView {
    ManufacturerSpecificData { company_identifier: u16, payload: Seq<u8> },
    Other,
}

impl View for AdRecord {
    type V = AdRecordView;

    open spec fn view(&self) -> AdRecordView {
        match self {
            AdRecord::ManufacturerSpecificData { company_identifier, payload } => {
                AdRecordView::ManufacturerSpecificData {
                    company_identifier: *company_identifier,
                    payload: payload@,
                }
            },
            AdRecord::Other => AdRecordView::Other,
        }
    }
}

/// The contents of a run of [`AdRecord`]s.
pub open spec fn records_view(rs: Seq<AdRecord>) -> Seq<AdRecordView> {
    rs.map_values(|r: AdRecord| r@)
}

/// What a complete structure of type `code` with data `data` is to this
/// library.
pub open spec fn spec_record(code: u8, data: Seq<u8>) -> AdRecordView {
    if code == AD_TYPE_MANUFACTURER && data.len() >= 2 {
        AdRecordView::ManufacturerSpecificData {
            company_identifier: (data[0] + data[1] * 256) as u16,
            payload: data.subrange(2, data.len() as int),
        }
    } else {
        AdRecordView::Other
    }
}

/// The structures that `AdStructure::decode` yields from `d`, one record per
/// item of its iteration. Each item reads a length byte; a length below 2 is
/// an error item after that byte. Then it reads a type byte and `length - 1`
/// data bytes; when either is missing the item is an error and reading goes
/// on after what was read. A complete structure of type `0xFF` with at least
/// two data bytes is manufacturer-specific data: a little-endian company
/// identifier and the rest as payload.
pub open spec fn spec_decode(d: Seq<u8>) -> Seq<AdRecordView>
    decreases d.len(),
{
    if d.len() == 0 {
        Seq::empty()
    } else if d[0] < 2 || d.len() < 2 {
        seq![AdRecordView::Other] + spec_decode(d.subrange(1, d.len() as int))
    } else if d.len() < d[0] + 1 {
        seq![AdRecordView::Other] + spec_decode(d.subrange(2, d.len() as int))
    } else {
        seq![spec_record(d[1], d.subrange(2, d[0] + 1))] + spec_decode(d.subrange(d[0] + 1, d.len() as int))
    }
}

/// Decodes advertising data with `AdStructure::decode`, keeping of each
/// item only whether it is manufacturer-specific data, and if so its
/// company identifier and payload.
///
/// The contract states the iteration as the source of `trouble_host` 0.8
/// shows it (see [`spec_decode`]).
#[verifier::external_body]
fn decode_ad_records(data: &[u8]) -> (records: Vec<AdRecord>)
    ensures
        records_view(records@) == spec_decode(data@),
{
    let mut records = Vec::new();
    for item in AdStructure::decode(data) {
        records.push(match item {
            Ok(AdStructure::ManufacturerSpecificData { company_identifier, payload }) => {
                AdRecord::ManufacturerSpecificData { company_identifier, payload: payload.to_vec() }
            },
            _ => AdRecord::Other,
        });
    }
    records
}

/// The payload of the first manufacturer-specific record of `company`.
pub open spec fn spec_find_company(rs: Seq<AdRecordView>, company: u16) -> Option<Seq<u8>>
    decreases rs.len(),
{
    if rs.len() == 0 {
        None
    } else {
        match rs[0] {
            AdRecordView::ManufacturerSpecificData { company_identifier, payload } => {
                if company_identifier == company {
                    Some(payload)
                } else {
                    spec_find_company(rs.drop_first(), company)
                }
            },
            AdRecordView::Other => spec_find_company(rs.drop_first(), company),
        }
    }
}

/// What `parse_message_from_adv` finds in advertising data `data`.
pub open spec fn spec_parse_adv(data: Seq<u8>) -> Option<Seq<u8>> {
    spec_find_company(spec_decode(data), COMPANY_ID)
}

/// Finds the encoded weather record in received advertising data: the
/// payload of the first manufacturer-specific structure under
/// [`COMPANY_ID`].
pub fn parse_message_from_adv(data: &[u8]) -> (payload: Option<Vec<u8>>)
    ensures
        match payload {
            Some(p) => spec_parse_adv(data@) == Some(p@),
            None => spec_parse_adv(data@) is None,
        },
{
    let mut records = decode_ad_records(data);
    let ghost rs = records_view(records@);
    let n = records.len();
    let mut i: usize = 0;
    assert(rs.subrange(0, n as int) == rs);
    while i < n
        invariant
            n == records@.len(),
            rs == records_view(records@),
            rs == spec_decode(data@),
            i <= n,
            spec_find_company(rs, COMPANY_ID) == spec_find_company(rs.subrange(i as int, n as int), COMPANY_ID),
        decreases n - i,
    {
        let ghost tail = rs.subrange(i as int, n as int);
        assert(tail[0] == records@[i as int]@);
        assert(tail.drop_first() == rs.subrange(i + 1, n as int));
        let found = match &records[i] {
            AdRecord::ManufacturerSpecificData { company_identifier, payload: _ } => *company_identifier == COMPANY_ID,
            AdRecord::Other => false,
        };
        if found {
            let record = records.remove(i);
            assert(record@ == tail[0]);
            match record {
                AdRecord::ManufacturerSpecificData { company_identifier: _, payload } => {
                    assert(spec_find_company(tail, COMPANY_ID) == Some(payload@));
                    return Some(payload);
                },
                AdRecord::Other => {
                    assert(false);
                },
            }
        }
        i = i + 1;
    }
    assert(rs.subrange(n as int, n as int) == Seq::<AdRecordView>::empty());
    None
}

proof fn lemma_decode_adv_bytes(payload: Seq<u8>)
    requires
        payload.len() + 3 <= 255,
    ensures
        spec_decode(spec_adv_bytes(payload)) == seq![
            AdRecordView::Other,
            AdRecordView::Other,
            AdRecordView::ManufacturerSpecificData { company_identifier: COMPANY_ID, payload },
        ],
{
    let name = spec_field_bytes(AdFieldView::CompleteLocalName(spec_beacon_name()));
    let flags = spec_field_bytes(AdFieldView::Flags(ADV_FLAGS));
    let msd = spec_field_bytes(
        AdFieldView::ManufacturerSpecificData { company_identifier: COMPANY_ID, payload },
    );
    let fs = spec_adv_fields(payload);
    lemma_three_fields(fs[0], fs[1], fs[2]);
    assert(fs == seq![fs[0], fs[1], fs[2]]);
    let d = spec_adv_bytes(payload);
    assert(d == name + flags + msd);
    assert(name.len() == 16);
    assert(d[0] == 15u8);
    assert(d[1] == AD_TYPE_COMPLETE_LOCAL_NAME);
    let d1 = d.subrange(16, d.len() as int);
    assert(d1 == flags + msd);
    assert(spec_decode(d) == seq![AdRecordView::Other] + spec_decode(d1));
    let d2 = d1.subrange(3, d1.len() as int);
    assert(d2 == msd);
    assert(d1[0] == 2u8 && d1[1] == AD_TYPE_FLAGS);
    assert(spec_decode(d1) == seq![AdRecordView::Other] + spec_decode(d2));
    let data = d2.subrange(2, d2[0] + 1);
    assert(d2[0] == payload.len() + 3);
    assert(data == seq![0xFFu8, 0xFFu8] + payload);
    assert(data.subrange(2, data.len() as int) == payload);
    let d3 = d2.subrange(d2[0] + 1, d2.len() as int);
    assert(d3 == Seq::<u8>::empty());
    assert(spec_decode(d3) == Seq::<AdRecordView>::empty());
    let m = AdRecordView::ManufacturerSpecificData { company_identifier: COMPANY_ID, payload };
    assert(spec_decode(d2) == seq![m] + Seq::<AdRecordView>::empty());
    assert(seq![m] + Seq::<AdRecordView>::empty() == seq![m]);
    assert(seq![AdRecordView::Other] + seq![m] == seq![AdRecordView::Other, m]);
    assert(seq![AdRecordView::Other] + seq![AdRecordView::Other, m] == seq![
        AdRecordView::Other,
        AdRecordView::Other,
        m,
    ]);
}

/// What the sensor station advertises, the hub reads back: decoding the
/// advertising data built for an encoded record of at most 252 bytes (so
/// that its length fits the structure's length byte) finds that record.
pub proof fn law_adv_roundtrip(payload: Seq<u8>)
    requires
        payload.len() <= 252,
    ensures
        spec_parse_adv(spec_adv_bytes(payload)) == Some(payload),
{
    lemma_decode_adv_bytes(payload);
    let rs = spec_decode(spec_adv_bytes(payload));
    let m = AdRecordView::ManufacturerSpecificData { company_identifier: COMPANY_ID, payload };
    assert(rs.drop_first() == seq![AdRecordView::Other, m]);
    assert(rs.drop_first().drop_first() == seq![m]);
    assert(spec_find_company(seq![m], COMPANY_ID) == Some(payload));
    assert(spec_find_company(seq![AdRecordView::Other, m], COMPANY_ID) == Some(payload));
}

/// Whether `s` is exactly one complete structure: a length byte of at
/// least 2 followed by that many bytes.
pub open spec fn is_structure(s: Seq<u8>) -> bool {
    s.len() >= 1 && s[0] >= 2 && s.len() == s[0] + 1
}

/// The record of one complete structure.
pub open spec fn structure_record(s: Seq<u8>) -> AdRecordView {
    spec_record(s[1], s.subrange(2, s.len() as int))
}

/// Whether `d` is a run of complete structures, one after another.
pub open spec fn is_structure_run(d: Seq<u8>) -> bool
    decreases d.len(),
{
    if d.len() == 0 {
        true
    } else {
        d[0] >= 2 && d.len() >= d[0] + 1 && is_structure_run(d.subrange(d[0] + 1, d.len() as int))
    }
}

/// Whether a record is our weather record.
pub open spec fn is_ours(r: AdRecordView) -> bool {
    r matches AdRecordView::ManufacturerSpecificData { company_identifier, .. } && company_identifier
        == COMPANY_ID
}

proof fn lemma_decode_run_concat(pre: Seq<u8>, rest: Seq<u8>)
    requires
        is_structure_run(pre),
    ensures
        spec_decode(pre + rest) == spec_decode(pre) + spec_decode(rest),
    decreases pre.len(),
{
    if pre.len() == 0 {
        assert(pre + rest == rest);
        assert(Seq::<AdRecordView>::empty() + spec_decode(rest) == spec_decode(rest));
    } else {
        let d = pre + rest;
        let n = pre[0] + 1;
        let tail = pre.subrange(n, pre.len() as int);
        assert(d.subrange(2, n) == pre.subrange(2, n));
        assert(d.subrange(n, d.len() as int) == tail + rest);
        lemma_decode_run_concat(tail, rest);
        let r = seq![spec_record(pre[1], pre.subrange(2, n))];
        assert(spec_decode(d) == r + spec_decode(tail + rest));
        assert(spec_decode(pre) == r + spec_decode(tail));
        assert(r + (spec_decode(tail) + spec_decode(rest)) == (r + spec_decode(tail)) + spec_decode(rest));
    }
}

proof fn lemma_decode_structure(s: Seq<u8>, rest: Seq<u8>)
    requires
        is_structure(s),
    ensures
        spec_decode(s + rest) == seq![structure_record(s)] + spec_decode(rest),
{
    let d = s + rest;
    assert(d.subrange(2, s[0] + 1) == s.subrange(2, s.len() as int));
    assert(d.subrange(s[0] + 1, d.len() as int) == rest);
}

proof fn lemma_find_concat(a: Seq<AdRecordView>, b: Seq<AdRecordView>)
    ensures
        spec_find_company(a + b, COMPANY_ID) == (if spec_find_company(a, COMPANY_ID) is Some {
            spec_find_company(a, COMPANY_ID)
        } else {
            spec_find_company(b, COMPANY_ID)
        }),
    decreases a.len(),
{
    if a.len() == 0 {
        assert(a + b == b);
    } else {
        assert((a + b).drop_first() == a.drop_first() + b);
        assert((a + b)[0] == a[0]);
        lemma_find_concat(a.drop_first(), b);
    }
}

/// A structure that is not ours does not change what is read: inserting
/// one complete structure that is not manufacturer-specific data under
/// [`COMPANY_ID`] at a structure boundary of advertising data (after a run
/// of complete structures) leaves the result of `parse_message_from_adv`
/// as it was.
pub proof fn law_foreign_structure_ignored(pre: Seq<u8>, s: Seq<u8>, post: Seq<u8>)
    requires
        is_structure_run(pre),
        is_structure(s),
        !is_ours(structure_record(s)),
    ensures
        spec_parse_adv(pre + s + post) == spec_parse_adv(pre + post),
{
    lemma_decode_run_concat(pre, s + post);
    lemma_decode_run_concat(pre, post);
    assert(pre + s + post == pre + (s + post));
    lemma_decode_structure(s, post);
    let a = spec_decode(pre);
    let r = seq![structure_record(s)];
    lemma_find_concat(a, r + spec_decode(post));
    lemma_find_concat(a, spec_decode(post));
    assert((r + spec_decode(post)).drop_first() == spec_decode(post));
    assert(spec_find_company(r + spec_decode(post), COMPANY_ID) == spec_find_company(spec_decode(post), COMPANY_ID));
}

proof fn lemma_find_none(rs: Seq<AdRecordView>)
    requires
        forall|i: int| 0 <= i < rs.len() ==> !is_ours(#[trigger] rs[i]),
    ensures
        spec_find_company(rs, COMPANY_ID) is None,
    decreases rs.len(),
{
    if rs.len() > 0 {
        assert(!is_ours(rs[0]));
        assert forall|i: int| 0 <= i < rs.drop_first().len() implies !is_ours(#[trigger] rs.drop_first()[i]) by {
            assert(rs.drop_first()[i] == rs[i + 1]);
        }
        lemma_find_none(rs.drop_first());
    }
}

/// The first of our structures is the one read: after a run of complete
/// structures none of which is ours, a complete manufacturer structure
/// under [`COMPANY_ID`] gives its payload (the bytes after the company
/// identifier), whatever follows it.
pub proof fn law_first_ours_wins(pre: Seq<u8>, s: Seq<u8>, post: Seq<u8>)
    requires
        is_structure_run(pre),
        forall|i: int| 0 <= i < spec_decode(pre).len() ==> !is_ours(#[trigger] spec_decode(pre)[i]),
        is_structure(s),
        s.len() >= 4,
        s[1] == 0xFFu8,
        s[2] == 0xFFu8,
        s[3] == 0xFFu8,
    ensures
        spec_parse_adv(pre + s + post) == Some(s.subrange(4, s.len() as int)),
{
    lemma_decode_run_concat(pre, s + post);
    assert(pre + s + post == pre + (s + post));
    lemma_decode_structure(s, post);
    let a = spec_decode(pre);
    let data = s.subrange(2, s.len() as int);
    assert(data[0] == 0xFFu8 && data[1] == 0xFFu8);
    assert(data.subrange(2, data.len() as int) == s.subrange(4, s.len() as int));
    let r = seq![structure_record(s)];
    lemma_find_none(a);
    lemma_find_concat(a, r + spec_decode(post));
}

} // verus!
