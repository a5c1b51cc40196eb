//! The bytes of a header whose meaning is not known.

use vstd::prelude::*;
use vstd::slice::*;
use std::collections::HashMap;
use crate::sas::alignment::Alignment;
use crate::sas::header::binary::{a1_of, a2_of};
use crate::sas::header::layout::{PADDING_FLAG_OFFSET, WIDE_FLAG_OFFSET};
use crate::sas::text::str_eq;

verus! {

/// What is recorded of one byte whose meaning is not known: the range of
/// unknown bytes that it belongs to, and its value. It is read like a map
/// with the three keys `range_start`, `range_end` and `value`.
#[derive(Debug, PartialEq, Eq, Structural, Clone, Copy)]
pub struct InnerMap {
    pub range_start: usize,
    pub range_end: usize,
    pub value: usize,
}

/// The records of the unknown bytes, by the offset of the byte.
pub type UnknownsMap = HashMap<usize, InnerMap>;

impl View for InnerMap {
    type V = Map<Seq<char>, usize>;

    open spec fn view(&self) -> Map<Seq<char>, usize> {
        Map::empty().insert("range_start"@, self.range_start).insert(
            "range_end"@,
            self.range_end,
        ).insert("value"@, self.value)
    }
}

impl InnerMap {
    /// The entry under `key`, if `key` is one of the three keys.
    pub fn get(&self, key: &str) -> (r: Option<&usize>)
        ensures
            match r {
                Some(entry) => self@.contains_key(key@) && *entry == self@[key@],
                None => !self@.contains_key(key@),
            },
    {
        proof {
            reveal_strlit("range_start");
            reveal_strlit("range_end");
            reveal_strlit("value");
            assert("range_start"@.len() == 11);
            assert("range_end"@.len() == 9);
            assert("value"@.len() == 5);
        }
        if str_eq(key, "range_start") {
            Some(&self.range_start)
        } else if str_eq(key, "range_end") {
            Some(&self.range_end)
        } else if str_eq(key, "value") {
            Some(&self.value)
        } else {
            None
        }
    }
}

/// The record of a byte of value `value` in the range from `start` to `end`.
pub fn make_inner_hash_map(start: usize, end: usize, value: usize) -> (r: InnerMap)
    ensures
        r == (InnerMap { range_start: start, range_end: end, value }),
{
    InnerMap { range_start: start, range_end: end, value }
}

/// The records `records` with those of the bytes from `start` up to `upto`
/// added: each such byte is recorded with the range from `start` to `end`
/// and its value in `bytes`, and every other record stays.
pub open spec fn with_records(
    records: Map<usize, InnerMap>,
    bytes: Seq<u8>,
    start: int,
    end: int,
    upto: int,
) -> Map<usize, InnerMap> {
    Map::new(
        |k: usize| records.contains_key(k) || start <= k < upto,
        |k: usize|
            if start <= k < upto {
                InnerMap {
                    range_start: start as usize,
                    range_end: end as usize,
                    value: bytes[k as int] as usize,
                }
            } else {
                records[k]
            },
    )
}

/// The records `records` with those of the `length` bytes from `start` on
/// added.
pub open spec fn with_range(
    records: Map<usize, InnerMap>,
    bytes: Seq<u8>,
    start: int,
    length: int,
) -> Map<usize, InnerMap> {
    with_records(records, bytes, start, start + length, start + length)
}

/// The ranges of a header whose meaning is not known, each as its start and
/// its length. The last three are shifted by the padding, and the last two
/// by the widening as well.
pub open spec fn unknown_ranges(bytes: Seq<u8>) -> Seq<(int, int)> {
    seq![
        (33, 2),
        (36, 1),
        (38, 1),
        (40, 8),
        (48, 8),
        (64, 6),
        (72, 12),
        (180 + a1_of(bytes), 16),
        (208 + a1_of(bytes) + a2_of(bytes), 8),
        (324 + a1_of(bytes) + a2_of(bytes), 4),
    ]
}

/// The records `records` with those of the first `n` of `ranges` added.
pub open spec fn with_ranges(
    records: Map<usize, InnerMap>,
    bytes: Seq<u8>,
    ranges: Seq<(int, int)>,
    n: nat,
) -> Map<usize, InnerMap>
    decreases n,
{
    if n == 0 {
        records
    } else {
        with_range(
            with_ranges(records, bytes, ranges, (n - 1) as nat),
            bytes,
            ranges[n - 1].0,
            ranges[n - 1].1,
        )
    }
}

/// The records that `unknowns` holds; none where it holds no map yet.
pub open spec fn records_in(unknowns: Option<UnknownsMap>) -> Map<usize, InnerMap> {
    match unknowns {
        Some(map) => map@,
        None => Map::empty(),
    }
}

/// The bytes of a header, and a record of each of its bytes whose meaning
/// is not known.
#[derive(Debug, PartialEq, Eq, Clone)]
pub struct SasHeaderUnknowns {
    pub bytes: Vec<u8>,
    pub unknowns: Option<UnknownsMap>,
}

impl SasHeaderUnknowns {
    pub fn new(bytes: &[u8]) -> (r: Self)
        ensures
            r.bytes@ == bytes@,
            r.unknowns is None,
    {
        SasHeaderUnknowns { bytes: slice_to_vec(bytes), unknowns: None }
    }

    /// Records the byte at `position` as part of the range from
    /// `range_start` to `range_end`.
    pub fn insert_to_unknowns(&mut self, position: usize, range_start: usize, range_end: usize)
        requires
            position < old(self).bytes@.len(),
        ensures
            final(self).bytes == old(self).bytes,
            final(self).unknowns is Some,
            records_in(final(self).unknowns) == records_in(old(self).unknowns).insert(
                position,
                InnerMap { range_start, range_end, value: old(self).bytes@[position as int] as usize },
            ),
    {
        let value = self.bytes[position] as usize;
        let mut map: UnknownsMap = match self.unknowns.take() {
            Some(map) => map,
            None => HashMap::new(),
        };
        map.insert(position, make_inner_hash_map(range_start, range_end, value));
        self.unknowns = Some(map);
    }

    /// Records each of the `range_length` bytes from `range_start` on.
    pub fn insert_range(&mut self, range_start: usize, range_length: usize)
        requires
            range_start + range_length <= old(self).bytes@.len(),
        ensures
            final(self).bytes == old(self).bytes,
            range_length > 0 ==> final(self).unknowns is Some,
            range_length == 0 ==> final(self).unknowns == old(self).unknowns,
            records_in(final(self).unknowns) == with_range(
                records_in(old(self).unknowns),
                old(self).bytes@,
                range_start as int,
                range_length as int,
            ),
    {
        let len = self.bytes.len();
        let range_end = range_start + range_length;
        let mut x: usize = range_start;
        assert(records_in(self.unknowns) =~= with_records(
            records_in(old(self).unknowns),
            old(self).bytes@,
            range_start as int,
            range_end as int,
            range_start as int,
        ));
        while x < range_end
            invariant
                range_start <= x <= range_end,
                range_end == range_start + range_length,
                range_end <= self.bytes@.len(),
                self.bytes == old(self).bytes,
                x > range_start ==> self.unknowns is Some,
                x == range_start ==> self.unknowns == old(self).unknowns,
                records_in(self.unknowns) == with_records(
                    records_in(old(self).unknowns),
                    old(self).bytes@,
                    range_start as int,
                    range_end as int,
                    x as int,
                ),
            decreases range_end - x,
        {
            self.insert_to_unknowns(x, range_start, range_end);
            x += 1;
            assert(records_in(self.unknowns) =~= with_records(
                records_in(old(self).unknowns),
                old(self).bytes@,
                range_start as int,
                range_end as int,
                x as int,
            ));
        }
    }

    /// Records every byte of the header whose meaning is not known.
    pub fn read(&mut self)
        requires
            old(self).bytes@.len() >= 328 + a1_of(old(self).bytes@) + a2_of(old(self).bytes@),
        ensures
            final(self).bytes == old(self).bytes,
            final(self).unknowns is Some,
            records_in(final(self).unknowns) == with_ranges(
                records_in(old(self).unknowns),
                old(self).bytes@,
                unknown_ranges(old(self).bytes@),
                10,
            ),
    {
        let a1 = Alignment::from_u8(self.bytes[PADDING_FLAG_OFFSET]).value as usize;
        let a2 = Alignment::from_u8(self.bytes[WIDE_FLAG_OFFSET]).value as usize;
        let data: [(usize, usize); 10] = [
            (33, 2),
            (36, 1),
            (38, 1),
            (40, 8),
            (48, 8),
            (64, 6),
            (72, 12),
            (180 + a1, 16),
            (208 + a1 + a2, 8),
            (324 + a1 + a2, 4),
        ];
        let ghost ranges = unknown_ranges(old(self).bytes@);
        let mut i: usize = 0;
        while i < 10
            invariant
                i <= 10,
                self.bytes == old(self).bytes,
                ranges == unknown_ranges(old(self).bytes@),
                a1 == a1_of(old(self).bytes@),
                a2 == a2_of(old(self).bytes@),
                self.bytes@.len() >= 328 + a1 + a2,
                forall|j: int|
                    0 <= j < 10 ==> (#[trigger] data@[j]).0 == ranges[j].0 && data@[j].1
                        == ranges[j].1,
                i > 0 ==> self.unknowns is Some,
                records_in(self.unknowns) == with_ranges(
                    records_in(old(self).unknowns),
                    old(self).bytes@,
                    ranges,
                    i as nat,
                ),
            decreases 10 - i,
        {
            let (start, length) = data[i];
            assert(data@[i as int].0 == ranges[i as int].0);
            self.insert_range(start, length);
            i += 1;
        }
    }
}

} // verus!
