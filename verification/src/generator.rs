//! The world patcher: cross-references the scouted-location list against each
//! stage's object-placement table and rewrites both the table and the
//! matching scripted-event blocks, so that picking an object up reports the
//! check and yields the remote item.
//!
//! Everything here is a pure function of the session caches and the stage's
//! bytes: given the same data package, scouted list and assets, the output is
//! pinned byte for byte, so patch generation is deterministic.

use vstd::prelude::*;
use vstd::utf8::encode_utf8;

use crate::protocol::{
    spec_game_of_title, spec_name_of_id, spec_player_name, spec_game_of_slot, ConnectionInfo,
    DataPackage, NetworkItem,
};
use crate::stage_data::{
    generate_tsc, push_dec_pad, spec_dec_pad, spec_generate_tsc, text_bytes,
};
use crate::ITEM_BASE;

verus! {

/// One entry of a stage's object-placement table: position, identity id,
/// trigger linkage (flag and event numbers), behavior flags and layer.
#[derive(Clone, Copy, Debug, PartialEq, Eq, Structural)]
pub struct NPCData {
    pub x: i16,
    pub y: i16,
    pub id: u16,
    pub flag_num: u16,
    pub event_num: u16,
    pub npc_type: u16,
    pub flags: u16,
    pub layer: u8,
}

/// The two little-endian bytes of `v`.
pub open spec fn spec_le16(v: u16) -> Seq<u8> {
    seq![(v % 256) as u8, (v / 256) as u8]
}

/// The four little-endian bytes of `v`.
pub open spec fn spec_le32(v: u32) -> Seq<u8> {
    seq![
        (v % 256) as u8,
        ((v / 256) % 256) as u8,
        ((v / 65536) % 256) as u8,
        (v / 16777216) as u8,
    ]
}

/// The fifteen bytes of one placement record on disk.
pub open spec fn spec_record(n: NPCData) -> Seq<u8> {
    spec_le16(n.x as u16) + spec_le16(n.y as u16) + spec_le16(n.id) + spec_le16(n.flag_num)
        + spec_le16(n.event_num) + spec_le16(n.npc_type) + spec_le16(n.flags) + seq![n.layer]
}

/// The records of a table, back to back.
pub open spec fn spec_records(npcs: Seq<NPCData>) -> Seq<u8>
    decreases npcs.len(),
{
    if npcs.len() == 0 {
        Seq::empty()
    } else {
        spec_record(npcs[0]) + spec_records(npcs.drop_first())
    }
}

/// A whole object table in the library's own serialized form — the host
/// engine's loader is outside this crate, so this layout is the one both
/// sides of this codec share: the record count, little endian, then the
/// records in table order.
pub open spec fn spec_serialize_npc_table(npcs: Seq<NPCData>) -> Seq<u8> {
    spec_le32(npcs.len() as u32) + spec_records(npcs)
}

/// The value of the two little-endian bytes at `i`.
pub open spec fn spec_parse_u16(b: Seq<u8>, i: int) -> u16 {
    (b[i] + 256 * b[i + 1]) as u16
}

/// The record stored at byte offset `i`.
pub open spec fn spec_parse_record(b: Seq<u8>, i: int) -> NPCData {
    NPCData {
        x: spec_parse_u16(b, i) as i16,
        y: spec_parse_u16(b, i + 2) as i16,
        id: spec_parse_u16(b, i + 4),
        flag_num: spec_parse_u16(b, i + 6),
        event_num: spec_parse_u16(b, i + 8),
        npc_type: spec_parse_u16(b, i + 10),
        flags: spec_parse_u16(b, i + 12),
        layer: b[i + 14],
    }
}

/// The record count a table's header declares.
pub open spec fn spec_table_len(b: Seq<u8>) -> int {
    b[0] + 256 * b[1] + 65536 * b[2] + 16777216 * b[3]
}

/// Whether the bytes are exactly a header and that many whole records.
pub open spec fn spec_valid_table(b: Seq<u8>) -> bool {
    b.len() >= 4 && b.len() == 4 + 15 * spec_table_len(b)
}

/// The records of a valid table.
pub open spec fn spec_parse_table(b: Seq<u8>) -> Seq<NPCData> {
    Seq::new(spec_table_len(b) as nat, |k: int| spec_parse_record(b, 4 + 15 * k))
}

/// Append the two little-endian bytes of `v`.
fn push_le16(buf: &mut Vec<u8>, v: u16)
    ensures
        final(buf)@ == old(buf)@ + spec_le16(v),
{
    buf.push((v % 256) as u8);
    buf.push((v / 256) as u8);
    assert(final(buf)@ =~= old(buf)@ + spec_le16(v));
}

proof fn lemma_records_len(npcs: Seq<NPCData>)
    ensures
        spec_records(npcs).len() == 15 * npcs.len(),
    decreases npcs.len(),
{
    if npcs.len() > 0 {
        lemma_records_len(npcs.drop_first());
    }
}

proof fn lemma_records_snoc(npcs: Seq<NPCData>, n: NPCData)
    ensures
        spec_records(npcs.push(n)) == spec_records(npcs) + spec_record(n),
    decreases npcs.len(),
{
    if npcs.len() == 0 {
        assert(npcs.push(n).drop_first() =~= Seq::<NPCData>::empty());
        assert(spec_records(npcs.push(n).drop_first()) == Seq::<u8>::empty());
        assert(npcs.push(n)[0] == n);
        assert(spec_records(npcs.push(n)) =~= spec_records(npcs) + spec_record(n));
    } else {
        assert(npcs.push(n).drop_first() =~= npcs.drop_first().push(n));
        lemma_records_snoc(npcs.drop_first(), n);
        assert(spec_records(npcs.push(n)) =~= spec_records(npcs) + spec_record(n));
    }
}

/// Serialize an object table into its on-disk bytes.
#[verifier::rlimit(50)]
pub fn serialize_npc_table(npcs: &Vec<NPCData>) -> (v: Vec<u8>)
    requires
        npcs@.len() <= u32::MAX,
    ensures
        v@ == spec_serialize_npc_table(npcs@),
{
    let mut v: Vec<u8> = Vec::new();
    let count: u32 = npcs.len() as u32;
    v.push((count % 256) as u8);
    v.push(((count / 256) % 256) as u8);
    v.push(((count / 65536) % 256) as u8);
    v.push((count / 16777216) as u8);
    assert(v@ =~= spec_le32(count));
    let n = npcs.len();
    let mut i: usize = 0;
    while i < n
        invariant
            i <= n,
            n == npcs@.len(),
            v@ == spec_le32((n as u32)) + spec_records(npcs@.take(i as int)),
        decreases n - i,
    {
        let npc = npcs[i];
        push_le16(&mut v, npc.x as u16);
        push_le16(&mut v, npc.y as u16);
        push_le16(&mut v, npc.id);
        push_le16(&mut v, npc.flag_num);
        push_le16(&mut v, npc.event_num);
        push_le16(&mut v, npc.npc_type);
        push_le16(&mut v, npc.flags);
        v.push(npc.layer);
        proof {
            lemma_records_snoc(npcs@.take(i as int), npc);
            assert(npcs@.take(i as int).push(npc) =~= npcs@.take(i as int + 1));
            assert(v@ =~= spec_le32((n as u32)) + spec_records(npcs@.take(i as int + 1)));
        }
        i += 1;
    }
    proof {
        assert(npcs@.take(n as int) =~= npcs@);
    }
    v
}

/// Read the two little-endian bytes at `i`.
fn read_u16(b: &Vec<u8>, i: usize) -> (v: u16)
    requires
        i + 2 <= b@.len(),
        b@.len() <= usize::MAX,
    ensures
        v == spec_parse_u16(b@, i as int),
{
    let lo = b[i];
    let hi = b[i + 1];
    lo as u16 + 256 * (hi as u16)
}

/// Parse an object table from its on-disk bytes: the declared record count
/// must account for the whole input, or nothing is returned.
pub fn parse_npc_table(b: &Vec<u8>) -> (r: Option<Vec<NPCData>>)
    ensures
        r is Some <==> spec_valid_table(b@),
        r is Some ==> r->Some_0@ == spec_parse_table(b@),
{
    if b.len() < 4 {
        return None;
    }
    let count: u64 = b[0] as u64 + 256 * (b[1] as u64) + 65536 * (b[2] as u64) + 16777216 * (
    b[3] as u64);
    assert(count == spec_table_len(b@));
    if (b.len() as u64) != 4 + 15 * count {
        return None;
    }
    let n: usize = count as usize;
    assert(b@.len() <= usize::MAX);
    let mut npcs: Vec<NPCData> = Vec::new();
    let mut k: usize = 0;
    while k < n
        invariant
            k <= n,
            n == spec_table_len(b@),
            b@.len() == 4 + 15 * n,
            b@.len() <= usize::MAX,
            npcs@.len() == k,
            forall|j: int| 0 <= j < k ==> npcs@[j] == spec_parse_record(b@, 4 + 15 * j),
        decreases n - k,
    {
        let base: usize = 4 + 15 * k;
        let npc = NPCData {
            x: read_u16(b, base) as i16,
            y: read_u16(b, base + 2) as i16,
            id: read_u16(b, base + 4),
            flag_num: read_u16(b, base + 6),
            event_num: read_u16(b, base + 8),
            npc_type: read_u16(b, base + 10),
            flags: read_u16(b, base + 12),
            layer: b[base + 14],
        };
        npcs.push(npc);
        k += 1;
    }
    assert(npcs@ =~= spec_parse_table(b@));
    Some(npcs)
}

proof fn lemma_records_index(npcs: Seq<NPCData>, k: int, o: int)
    requires
        0 <= k < npcs.len(),
        0 <= o < 15,
    ensures
        spec_records(npcs)[15 * k + o] == spec_record(npcs[k])[o],
    decreases k,
{
    lemma_records_len(npcs);
    lemma_records_len(npcs.drop_first());
    if k == 0 {
    } else {
        lemma_records_index(npcs.drop_first(), k - 1, o);
        assert(npcs.drop_first()[k - 1] == npcs[k]);
        assert(spec_records(npcs)[15 * k + o] == spec_records(npcs.drop_first())[15 * (k - 1)
            + o]);
    }
}

proof fn lemma_i16_cast_round_trip(x: i16)
    ensures
        ((x as u16) as i16) == x,
{
    assert(((x as u16) as i16) == x) by (bit_vector);
}

/// Whether a byte is the block-boundary marker of an event script.
pub open spec fn is_marker(b: u8) -> bool {
    b == 35
}

/// The length of the leading run: the longest prefix whose bytes all agree
/// with the first byte on being the marker.
pub open spec fn spec_run_len(s: Seq<u8>) -> int
    decreases s.len(),
{
    if s.len() <= 1 {
        s.len() as int
    } else if is_marker(s[1]) == is_marker(s[0]) {
        1 + spec_run_len(s.drop_first())
    } else {
        1
    }
}

proof fn lemma_run_len_bounds(s: Seq<u8>)
    ensures
        s.len() > 0 ==> 1 <= spec_run_len(s) <= s.len(),
        s.len() == 0 ==> spec_run_len(s) == 0,
    decreases s.len(),
{
    if s.len() > 1 {
        lemma_run_len_bounds(s.drop_first());
    }
}

/// The leading run is exactly `k` when the first `k` bytes agree with the
/// first byte on being the marker and the byte after them, if any, does not.
proof fn lemma_run_len_is(s: Seq<u8>, k: int)
    requires
        1 <= k <= s.len(),
        forall|j: int| 0 < j < k ==> is_marker(#[trigger] s[j]) == is_marker(s[0]),
        k < s.len() ==> is_marker(s[k]) != is_marker(s[0]),
    ensures
        spec_run_len(s) == k,
    decreases k,
{
    if k > 1 {
        let d = s.drop_first();
        assert forall|j: int| 0 < j < k - 1 implies is_marker(#[trigger] d[j]) == is_marker(d[0]) by {
            assert(d[j] == s[j + 1]);
        }
        assert(k - 1 < d.len() ==> is_marker(d[k - 1]) != is_marker(d[0]));
        lemma_run_len_is(d, k - 1);
    }
}

/// The decomposition of an event script into its maximal runs of marker and
/// non-marker bytes: block boundaries are where the marker-ness changes.
pub open spec fn spec_split(s: Seq<u8>) -> Seq<Seq<u8>>
    decreases s.len(),
    via spec_split_via
{
    if s.len() == 0 {
        Seq::empty()
    } else {
        seq![s.take(spec_run_len(s))] + spec_split(s.skip(spec_run_len(s)))
    }
}

#[via_fn]
proof fn spec_split_via(s: Seq<u8>) {
    if s.len() > 0 {
        lemma_run_len_bounds(s);
    }
}

/// The blocks of a script, joined back together.
pub open spec fn spec_concat(blocks: Seq<Seq<u8>>) -> Seq<u8>
    decreases blocks.len(),
{
    if blocks.len() == 0 {
        Seq::empty()
    } else {
        blocks[0] + spec_concat(blocks.drop_first())
    }
}

proof fn lemma_concat_snoc(blocks: Seq<Seq<u8>>, b: Seq<u8>)
    ensures
        spec_concat(blocks.push(b)) == spec_concat(blocks) + b,
    decreases blocks.len(),
{
    if blocks.len() == 0 {
        assert(blocks.push(b).drop_first() =~= Seq::<Seq<u8>>::empty());
        assert(spec_concat(blocks.push(b).drop_first()) == Seq::<u8>::empty());
        assert(blocks.push(b)[0] == b);
        assert(spec_concat(blocks.push(b)) =~= spec_concat(blocks) + b);
    } else {
        assert(blocks.push(b).drop_first() =~= blocks.drop_first().push(b));
        lemma_concat_snoc(blocks.drop_first(), b);
        assert(spec_concat(blocks.push(b)) =~= spec_concat(blocks) + b);
    }
}

/// Joining the runs of a script gives the script back: the decomposition
/// loses nothing.
pub proof fn lemma_split_concat(s: Seq<u8>)
    ensures
        spec_concat(spec_split(s)) == s,
    decreases s.len(),
{
    if s.len() > 0 {
        lemma_run_len_bounds(s);
        let k = spec_run_len(s);
        lemma_split_concat(s.skip(k));
        assert((seq![s.take(k)] + spec_split(s.skip(k))).drop_first() =~= spec_split(s.skip(k)));
        assert(spec_concat(spec_split(s)) == s.take(k) + spec_concat(spec_split(s.skip(k))));
        assert(s.take(k) + s.skip(k) =~= s);
    }
}

/// The views of a list of byte blocks.
pub open spec fn views(blocks: Seq<Vec<u8>>) -> Seq<Seq<u8>> {
    blocks.map_values(|v: Vec<u8>| v@)
}

/// Split an event script into its blocks: maximal runs of marker and
/// non-marker bytes, in order.
pub fn split_events(buf: &Vec<u8>) -> (blocks: Vec<Vec<u8>>)
    ensures
        views(blocks@) == spec_split(buf@),
{
    let n = buf.len();
    let mut blocks: Vec<Vec<u8>> = Vec::new();
    let mut pos: usize = 0;
    proof {
        assert(views(blocks@) =~= Seq::<Seq<u8>>::empty());
        assert(buf@.skip(0) =~= buf@);
        assert(spec_split(buf@) =~= views(blocks@) + spec_split(buf@.skip(pos as int)));
    }
    while pos < n
        invariant
            pos <= n,
            n == buf@.len(),
            spec_split(buf@) == views(blocks@) + spec_split(buf@.skip(pos as int)),
        decreases n - pos,
    {
        let first_marker = buf[pos] == 35;
        let mut end: usize = pos + 1;
        while end < n && (buf[end] == 35) == first_marker
            invariant
                pos < end <= n,
                n == buf@.len(),
                first_marker == is_marker(buf@[pos as int]),
                forall|j: int| pos < j < end ==> is_marker(#[trigger] buf@[j]) == is_marker(buf@[pos as int]),
            decreases n - end,
        {
            end += 1;
        }
        let mut block: Vec<u8> = Vec::new();
        let mut i: usize = pos;
        while i < end
            invariant
                pos <= i <= end <= n,
                n == buf@.len(),
                block@ == buf@.subrange(pos as int, i as int),
            decreases end - i,
        {
            block.push(buf[i]);
            assert(block@ =~= buf@.subrange(pos as int, i as int + 1));
            i += 1;
        }
        proof {
            let rest = buf@.skip(pos as int);
            assert forall|j: int| 0 < j < end - pos implies is_marker(#[trigger] rest[j])
                == is_marker(rest[0]) by {
                assert(rest[j] == buf@[pos + j]);
            }
            assert(end - pos < rest.len() ==> is_marker(rest[(end - pos) as int]) != is_marker(
                rest[0],
            ));
            lemma_run_len_is(rest, end - pos);
            assert(rest.take((end - pos) as int) =~= buf@.subrange(pos as int, end as int));
            assert(rest.skip((end - pos) as int) =~= buf@.skip(end as int));
            assert(views(blocks@.push(block)) =~= views(blocks@).push(block@));
            assert(spec_split(rest) == seq![block@] + spec_split(buf@.skip(end as int)));
            assert(views(blocks@).push(block@) + spec_split(buf@.skip(end as int)) =~= views(
                blocks@,
            ) + spec_split(rest));
        }
        blocks.push(block);
        pos = end;
    }
    proof {
        assert(buf@.skip(n as int) =~= Seq::<u8>::empty());
        assert(spec_split(Seq::<u8>::empty()) =~= Seq::<Seq<u8>>::empty());
        assert(views(blocks@) =~= spec_split(buf@));
    }
    blocks
}

/// Join blocks back into one script.
pub fn concat_events(blocks: &Vec<Vec<u8>>) -> (v: Vec<u8>)
    ensures
        v@ == spec_concat(views(blocks@)),
{
    let mut v: Vec<u8> = Vec::new();
    let n = blocks.len();
    let mut i: usize = 0;
    proof {
        assert(views(blocks@.take(0)) =~= Seq::<Seq<u8>>::empty());
        assert(v@ =~= spec_concat(views(blocks@.take(0))));
    }
    while i < n
        invariant
            i <= n,
            n == blocks@.len(),
            v@ == spec_concat(views(blocks@.take(i as int))),
        decreases n - i,
    {
        crate::stage_data::push_bytes(&mut v, blocks[i].as_slice());
        proof {
            lemma_concat_snoc(views(blocks@.take(i as int)), blocks@[i as int]@);
            assert(views(blocks@.take(i as int)).push(blocks@[i as int]@) =~= views(
                blocks@.take(i as int + 1),
            ));
        }
        i += 1;
    }
    proof {
        assert(blocks@.take(n as int) =~= blocks@);
    }
    v
}

/// Whether a block replaces event `event`: its first four bytes are the
/// four-digit decimal header of that event number. An event number too wide
/// for four digits matches nothing.
pub open spec fn spec_block_matches(block: Seq<u8>, event: u16) -> bool {
    let hdr = spec_dec_pad(event as nat, 4);
    hdr.len() == 4 && block.len() >= 4 && block.subrange(0, 4) == hdr
}

/// The first block that matches `event`, in script order.
pub open spec fn spec_find_event(blocks: Seq<Seq<u8>>, event: u16) -> Option<int>
    decreases blocks.len(),
{
    if blocks.len() == 0 {
        None
    } else if spec_block_matches(blocks[0], event) {
        Some(0)
    } else {
        match spec_find_event(blocks.drop_first(), event) {
            Some(i) => Some(i + 1),
            None => None,
        }
    }
}

proof fn lemma_find_event_hit(blocks: Seq<Seq<u8>>, event: u16, i: int)
    requires
        0 <= i < blocks.len(),
        spec_block_matches(blocks[i], event),
        forall|j: int| 0 <= j < i ==> !spec_block_matches(blocks[j], event),
    ensures
        spec_find_event(blocks, event) == Some(i),
    decreases i,
{
    if i > 0 {
        lemma_find_event_hit(blocks.drop_first(), event, i - 1);
    }
}

proof fn lemma_find_event_miss(blocks: Seq<Seq<u8>>, event: u16)
    requires
        forall|j: int| 0 <= j < blocks.len() ==> !spec_block_matches(blocks[j], event),
    ensures
        spec_find_event(blocks, event) is None,
    decreases blocks.len(),
{
    if blocks.len() > 0 {
        lemma_find_event_miss(blocks.drop_first(), event);
    }
}

/// Find the block whose header names `event`: the first block whose leading
/// four bytes are the event's four-digit decimal header.
pub fn find_event_block(blocks: &Vec<Vec<u8>>, event: u16) -> (r: Option<usize>)
    ensures
        match spec_find_event(views(blocks@), event) {
            Some(i) => r is Some && r->Some_0 == i && i < blocks@.len(),
            None => r is None,
        },
{
    let mut hdr: Vec<u8> = Vec::new();
    push_dec_pad(&mut hdr, event as u32, 4);
    if hdr.len() != 4 {
        proof {
            assert forall|j: int| 0 <= j < views(blocks@).len() implies !spec_block_matches(
                views(blocks@)[j],
                event,
            ) by {}
            lemma_find_event_miss(views(blocks@), event);
        }
        return None;
    }
    let n = blocks.len();
    let mut i: usize = 0;
    while i < n
        invariant
            i <= n,
            n == blocks@.len(),
            hdr@ == spec_dec_pad(event as nat, 4),
            hdr@.len() == 4,
            forall|j: int| 0 <= j < i ==> !spec_block_matches(views(blocks@)[j], event),
        decreases n - i,
    {
        let b = &blocks[i];
        if b.len() >= 4 && b[0] == hdr[0] && b[1] == hdr[1] && b[2] == hdr[2] && b[3] == hdr[3] {
            proof {
                assert(blocks@[i as int]@.subrange(0, 4) =~= hdr@);
                assert(spec_block_matches(views(blocks@)[i as int], event));
                lemma_find_event_hit(views(blocks@), event, i as int);
            }
            return Some(i);
        }
        proof {
            if blocks@[i as int]@.len() >= 4 {
                if blocks@[i as int]@.subrange(0, 4) == hdr@ {
                    assert(blocks@[i as int]@[0] == hdr@[0] && blocks@[i as int]@[1] == hdr@[1]
                        && blocks@[i as int]@[2] == hdr@[2] && blocks@[i as int]@[3] == hdr@[3]);
                }
            }
            assert(!spec_block_matches(views(blocks@)[i as int], event));
        }
        i += 1;
    }
    proof {
        lemma_find_event_miss(views(blocks@), event);
    }
    None
}

/// The first scouted entry for the location that `flag` maps to, in list
/// order.
pub open spec fn spec_scout_for_flag(locs: Seq<NetworkItem>, flag: u16) -> Option<NetworkItem>
    decreases locs.len(),
{
    if locs.len() == 0 {
        None
    } else if locs[0].location == flag + ITEM_BASE {
        Some(locs[0])
    } else {
        spec_scout_for_flag(locs.drop_first(), flag)
    }
}

proof fn lemma_scout_hit(locs: Seq<NetworkItem>, flag: u16, i: int)
    requires
        0 <= i < locs.len(),
        locs[i].location == flag + ITEM_BASE,
        forall|j: int| 0 <= j < i ==> locs[j].location != flag + ITEM_BASE,
    ensures
        spec_scout_for_flag(locs, flag) == Some(locs[i]),
    decreases i,
{
    if i > 0 {
        lemma_scout_hit(locs.drop_first(), flag, i - 1);
    }
}

proof fn lemma_scout_miss(locs: Seq<NetworkItem>, flag: u16)
    requires
        forall|j: int| 0 <= j < locs.len() ==> locs[j].location != flag + ITEM_BASE,
    ensures
        spec_scout_for_flag(locs, flag) is None,
    decreases locs.len(),
{
    if locs.len() > 0 {
        lemma_scout_miss(locs.drop_first(), flag);
    }
}

/// Look the location of `flag` up in the scouted list; first match wins.
fn scout_for_flag(locs: &Vec<NetworkItem>, flag: u16) -> (r: Option<NetworkItem>)
    ensures
        r == spec_scout_for_flag(locs@, flag),
{
    let target: i32 = flag as i32 + ITEM_BASE;
    let n = locs.len();
    let mut i: usize = 0;
    while i < n
        invariant
            i <= n,
            n == locs@.len(),
            target == flag + ITEM_BASE,
            forall|j: int| 0 <= j < i ==> locs@[j].location != flag + ITEM_BASE,
        decreases n - i,
    {
        if locs[i].location == target {
            proof {
                lemma_scout_hit(locs@, flag, i as int);
            }
            return Some(locs[i]);
        }
        i += 1;
    }
    proof {
        lemma_scout_miss(locs@, flag);
    }
    None
}

/// The display name of the scouted item, looked up in the owning slot's own
/// game tables.
pub open spec fn spec_scout_item_name(
    dp: DataPackage,
    conn: ConnectionInfo,
    item: NetworkItem,
) -> Option<Seq<char>> {
    match spec_game_of_slot(conn.slot_games@, item.player) {
        Some(title) => match spec_game_of_title(dp.games@, title) {
            Some(g) => spec_name_of_id(dp.games@[g].1.item_name_to_id@, item.item),
            None => None,
        },
        None => None,
    }
}

/// Who owns the scouted item: `Some(None)` for the local player, the owner's
/// display name for a remote player, and nothing when the roster lacks them.
pub open spec fn spec_owner_name(conn: ConnectionInfo, item: NetworkItem) -> Option<
    Option<Seq<char>>,
> {
    if item.player == conn.slot {
        Some(None)
    } else {
        match spec_player_name(conn.players@, conn.team, item.player) {
            Some(nm) => Some(Some(nm)),
            None => None,
        }
    }
}

/// Whether a scouted record can be patched at all: both names resolve and the
/// item id is a network id (never negative).
pub open spec fn spec_record_resolvable(
    dp: DataPackage,
    conn: ConnectionInfo,
    item: NetworkItem,
) -> bool {
    &&& spec_scout_item_name(dp, conn, item) is Some
    &&& spec_owner_name(conn, item) is Some
    &&& item.item >= 0
}

/// Whether the record becomes a bare life-capsule object rather than a chest:
/// the item is one of the local game's own capsule items and stays with the
/// local player.
pub open spec fn spec_is_capsule(conn: ConnectionInfo, item: NetworkItem) -> bool {
    ITEM_BASE + 203 <= item.item <= ITEM_BASE + 205 && item.player == conn.slot
}

/// The "already opened" placeholder paired with a chest, so the spot shows a
/// single interactable object.
pub open spec fn spec_placeholder(npc: NPCData) -> NPCData {
    NPCData {
        x: npc.x,
        y: npc.y,
        id: 0,
        flag_num: npc.flag_num,
        event_num: npc.event_num,
        npc_type: 21,
        flags: 0x2800,
        layer: 0,
    }
}

/// The record rewritten to its new container category.
pub open spec fn spec_patched_npc(npc: NPCData, capsule: bool) -> NPCData {
    NPCData {
        npc_type: if capsule {
            32
        } else {
            15
        },
        flags: 0x6000,
        ..npc
    }
}

/// The UTF-8 bytes of an optional name.
pub open spec fn spec_opt_utf8(o: Option<Seq<char>>) -> Option<Seq<u8>> {
    match o {
        Some(s) => Some(encode_utf8(s)),
        None => None,
    }
}

/// The scripted-event block injected for a patched record: set the record's
/// flag, then award the scouted item.
pub open spec fn spec_injected_block(
    dp: DataPackage,
    conn: ConnectionInfo,
    npc: NPCData,
    item: NetworkItem,
) -> Seq<u8> {
    spec_generate_tsc(
        npc.flag_num,
        npc.event_num,
        item.item,
        encode_utf8(spec_scout_item_name(dp, conn, item)->Some_0),
        spec_opt_utf8(spec_owner_name(conn, item)->Some_0),
    )
}

/// One record's step of the patcher: what becomes of the block list and which
/// records the output table gains. A record without a scouted entry, a null
/// or save-point record outside the one known exception, or a record whose
/// names cannot be resolved passes through vanilla; an already-open chest
/// placeholder under a scouted flag is dropped; anything else is rewritten to
/// its container category, paired with a placeholder when it is a chest, and
/// its event block — found by header — is replaced by the injected block.
pub open spec fn spec_patch_step(
    dp: DataPackage,
    conn: ConnectionInfo,
    locs: Seq<NetworkItem>,
    blocks: Seq<Seq<u8>>,
    npc: NPCData,
) -> (Seq<Seq<u8>>, Seq<NPCData>) {
    match spec_scout_for_flag(locs, npc.flag_num) {
        None => (blocks, seq![npc]),
        Some(item) => {
            if npc.npc_type == 21 {
                (blocks, Seq::empty())
            } else if (npc.npc_type == 0 || npc.npc_type == 16) && npc.flag_num != 581 {
                (blocks, seq![npc])
            } else if !spec_record_resolvable(dp, conn, item) {
                (blocks, seq![npc])
            } else {
                let capsule = spec_is_capsule(conn, item);
                let new_npc = spec_patched_npc(npc, capsule);
                let emitted = if capsule {
                    seq![new_npc]
                } else {
                    seq![spec_placeholder(npc), new_npc]
                };
                let block = spec_injected_block(dp, conn, npc, item);
                let blocks2 = match spec_find_event(blocks, npc.event_num) {
                    Some(i) => blocks.update(i, block),
                    None => blocks,
                };
                (blocks2, emitted)
            }
        },
    }
}

/// The whole patcher over a table: records in table order, each stepping the
/// block list and emitting its output records.
pub open spec fn spec_patch(
    dp: DataPackage,
    conn: ConnectionInfo,
    locs: Seq<NetworkItem>,
    blocks: Seq<Seq<u8>>,
    npcs: Seq<NPCData>,
) -> (Seq<Seq<u8>>, Seq<NPCData>)
    decreases npcs.len(),
{
    if npcs.len() == 0 {
        (blocks, Seq::empty())
    } else {
        let step = spec_patch_step(dp, conn, locs, blocks, npcs[0]);
        let rest = spec_patch(dp, conn, locs, step.0, npcs.drop_first());
        (rest.0, step.1 + rest.1)
    }
}

proof fn lemma_patch_snoc(
    dp: DataPackage,
    conn: ConnectionInfo,
    locs: Seq<NetworkItem>,
    blocks: Seq<Seq<u8>>,
    npcs: Seq<NPCData>,
    npc: NPCData,
)
    ensures
        spec_patch(dp, conn, locs, blocks, npcs.push(npc)).0 == spec_patch_step(
            dp,
            conn,
            locs,
            spec_patch(dp, conn, locs, blocks, npcs).0,
            npc,
        ).0,
        spec_patch(dp, conn, locs, blocks, npcs.push(npc)).1 == spec_patch(
            dp,
            conn,
            locs,
            blocks,
            npcs,
        ).1 + spec_patch_step(dp, conn, locs, spec_patch(dp, conn, locs, blocks, npcs).0, npc).1,
    decreases npcs.len(),
{
    let prefix = spec_patch(dp, conn, locs, blocks, npcs);
    let step = spec_patch_step(dp, conn, locs, prefix.0, npc);
    if npcs.len() == 0 {
        assert(npcs.push(npc).drop_first() =~= Seq::<NPCData>::empty());
        assert(npcs.push(npc)[0] == npc);
        let first = spec_patch_step(dp, conn, locs, blocks, npc);
        assert(spec_patch(dp, conn, locs, first.0, Seq::<NPCData>::empty()) == (
            first.0,
            Seq::<NPCData>::empty(),
        ));
        assert(spec_patch(dp, conn, locs, blocks, npcs.push(npc)).1 =~= prefix.1 + step.1);
    } else {
        assert(npcs.push(npc).drop_first() =~= npcs.drop_first().push(npc));
        assert(npcs.push(npc)[0] == npcs[0]);
        let head = spec_patch_step(dp, conn, locs, blocks, npcs[0]);
        lemma_patch_snoc(dp, conn, locs, head.0, npcs.drop_first(), npc);
        assert(spec_patch(dp, conn, locs, blocks, npcs.push(npc)).1 =~= prefix.1 + step.1);
    }
}

/// Apply one record's patch step to the live block list and output table.
fn patch_record(
    dp: &DataPackage,
    conn: &ConnectionInfo,
    locs: &Vec<NetworkItem>,
    blocks: &mut Vec<Vec<u8>>,
    out: &mut Vec<NPCData>,
    npc: NPCData,
)
    ensures
        views(final(blocks)@) == spec_patch_step(*dp, *conn, locs@, views(old(blocks)@), npc).0,
        final(out)@ == old(out)@ + spec_patch_step(*dp, *conn, locs@, views(old(blocks)@), npc).1,
{
    let scouted = scout_for_flag(locs, npc.flag_num);
    match scouted {
        None => {
            out.push(npc);
            assert(final(out)@ =~= old(out)@ + seq![npc]);
        },
        Some(item) => {
            if npc.npc_type == 21 {
                assert(final(out)@ =~= old(out)@ + Seq::<NPCData>::empty());
                return ;
            }
            if (npc.npc_type == 0 || npc.npc_type == 16) && npc.flag_num != 581 {
                out.push(npc);
                assert(final(out)@ =~= old(out)@ + seq![npc]);
                return ;
            }
            let owner: Option<Option<String>> = if item.player == conn.slot {
                Some(None)
            } else {
                match conn.player_name(item.player) {
                    Some(nm) => Some(Some(nm)),
                    None => None,
                }
            };
            let item_name: Option<String> = match conn.game_of_slot(item.player) {
                Some(title) => match dp.game(&title) {
                    Some(g) => g.item_name_of_id(item.item),
                    None => None,
                },
                None => None,
            };
            if item.item < 0 || owner.is_none() || item_name.is_none() {
                assert(!spec_record_resolvable(*dp, *conn, item));
                out.push(npc);
                assert(final(out)@ =~= old(out)@ + seq![npc]);
                return ;
            }
            assert(spec_record_resolvable(*dp, *conn, item));
            let owner = owner.unwrap();
            let item_name = item_name.unwrap();
            let capsule: bool = ITEM_BASE + 203 <= item.item && item.item <= ITEM_BASE + 205
                && item.player == conn.slot;
            assert(capsule == spec_is_capsule(*conn, item));
            let new_npc = NPCData {
                npc_type: if capsule {
                    32
                } else {
                    15
                },
                flags: 0x6000,
                ..npc
            };
            assert(new_npc == spec_patched_npc(npc, capsule));
            if !capsule {
                out.push(
                    NPCData {
                        x: npc.x,
                        y: npc.y,
                        id: 0,
                        flag_num: npc.flag_num,
                        event_num: npc.event_num,
                        npc_type: 21,
                        flags: 0x2800,
                        layer: 0,
                    },
                );
            }
            out.push(new_npc);
            proof {
                if capsule {
                    assert(final(out)@ =~= old(out)@ + seq![spec_patched_npc(npc, capsule)]);
                } else {
                    assert(final(out)@ =~= old(out)@ + seq![
                        spec_placeholder(npc),
                        spec_patched_npc(npc, capsule),
                    ]);
                }
            }
            let mut injected: Vec<u8> = Vec::new();
            generate_tsc(&mut injected, npc.flag_num, npc.event_num, item.item, item_name, owner);
            assert(injected@ == spec_injected_block(*dp, *conn, npc, item));
            match find_event_block(blocks, npc.event_num) {
                Some(i) => {
                    blocks.set(i, injected);
                    proof {
                        assert(views(blocks@) =~= views(old(blocks)@).update(
                            i as int,
                            spec_injected_block(*dp, *conn, npc, item),
                        ));
                    }
                },
                None => {},
            }
        },
    }
}

/// A placement record under a scouted flag whose item belongs to a remote
/// player — and which is neither the open-chest placeholder nor an
/// untouchable null record — is rewritten to the chest category, paired with
/// an open-chest placeholder, and its injected scripted block displays
/// "Got {owner}'s" followed by the item's name.
pub proof fn lemma_remote_scout_makes_chest(
    dp: DataPackage,
    conn: ConnectionInfo,
    locs: Seq<NetworkItem>,
    blocks: Seq<Seq<u8>>,
    npc: NPCData,
)
    requires
        npc.npc_type != 21,
        (npc.npc_type == 0 || npc.npc_type == 16) ==> npc.flag_num == 581,
        spec_scout_for_flag(locs, npc.flag_num) is Some,
        spec_scout_for_flag(locs, npc.flag_num)->Some_0.player != conn.slot,
        spec_record_resolvable(dp, conn, spec_scout_for_flag(locs, npc.flag_num)->Some_0),
    ensures
        ({
            let step = spec_patch_step(dp, conn, locs, blocks, npc);
            let item = spec_scout_for_flag(locs, npc.flag_num)->Some_0;
            &&& step.1.len() == 2
            &&& step.1[0] == spec_placeholder(npc)
            &&& step.1[1].npc_type == 15
            &&& step.1[1].flags == 0x6000
            &&& step.1[1].flag_num == npc.flag_num
            &&& step.1[1].event_num == npc.event_num
            &&& spec_owner_name(conn, item)->Some_0 is Some
            &&& ({
                let name = encode_utf8(spec_owner_name(conn, item)->Some_0->Some_0);
                let iname = encode_utf8(spec_scout_item_name(dp, conn, item)->Some_0);
                let seg = text_bytes("Got ") + name + text_bytes("'s\r\n =") + iname;
                let block = spec_injected_block(dp, conn, npc, item);
                exists|i: int|
                    0 <= i && i + seg.len() <= block.len() && #[trigger] block.subrange(
                        i,
                        i + seg.len(),
                    ) == seg
            })
        }),
{
    let step = spec_patch_step(dp, conn, locs, blocks, npc);
    let item = spec_scout_for_flag(locs, npc.flag_num)->Some_0;
    assert(!spec_is_capsule(conn, item));
    assert(step.1 =~= seq![spec_placeholder(npc), spec_patched_npc(npc, false)]);
    let name = encode_utf8(spec_owner_name(conn, item)->Some_0->Some_0);
    let iname = encode_utf8(spec_scout_item_name(dp, conn, item)->Some_0);
    let seg = text_bytes("Got ") + name + text_bytes("'s\r\n =") + iname;
    let block = spec_injected_block(dp, conn, npc, item);
    let prefix = spec_dec_pad(npc.event_num as nat, 4) + text_bytes("\r\n<FL+") + spec_dec_pad(
        npc.flag_num as nat,
        4,
    ) + text_bytes("\r\n") + text_bytes("<MSG<CLR<GIT1005\r\n<CMU0010");
    let off = prefix.len() as int;
    assert(block.subrange(off, off + seg.len() as int) =~= seg);
    assert(0 <= off && off + seg.len() <= block.len() && block.subrange(
        off,
        off + seg.len() as int,
    ) == seg);
}

/// Patch one stage's asset pair against the session caches: split the event
/// script into blocks, step every placement record in table order, and join
/// the blocks back together. A pure function of its inputs, so running it
/// twice on identical inputs yields identical bytes.
pub open spec fn spec_patch_stage(
    dp: DataPackage,
    conn: ConnectionInfo,
    locs: Seq<NetworkItem>,
    tsc: Seq<u8>,
    npcs: Seq<NPCData>,
) -> (Seq<u8>, Seq<NPCData>) {
    let patched = spec_patch(dp, conn, locs, spec_split(tsc), npcs);
    (spec_concat(patched.0), patched.1)
}

/// Rewrite one stage's decoded event script and object table so that every
/// scouted location yields its remote-controlled check.
pub fn patch_stage(
    dp: &DataPackage,
    conn: &ConnectionInfo,
    locs: &Vec<NetworkItem>,
    tsc: &Vec<u8>,
    npcs: &Vec<NPCData>,
) -> (r: (Vec<u8>, Vec<NPCData>))
    ensures
        r.0@ == spec_patch_stage(*dp, *conn, locs@, tsc@, npcs@).0,
        r.1@ == spec_patch_stage(*dp, *conn, locs@, tsc@, npcs@).1,
{
    let mut blocks = split_events(tsc);
    let ghost blocks0 = views(blocks@);
    let mut out: Vec<NPCData> = Vec::new();
    let n = npcs.len();
    let mut i: usize = 0;
    proof {
        assert(npcs@.take(0) =~= Seq::<NPCData>::empty());
        assert(out@ =~= spec_patch(*dp, *conn, locs@, blocks0, npcs@.take(0)).1);
    }
    while i < n
        invariant
            i <= n,
            n == npcs@.len(),
            blocks0 == spec_split(tsc@),
            views(blocks@) == spec_patch(*dp, *conn, locs@, blocks0, npcs@.take(i as int)).0,
            out@ == spec_patch(*dp, *conn, locs@, blocks0, npcs@.take(i as int)).1,
        decreases n - i,
    {
        let npc = npcs[i];
        proof {
            lemma_patch_snoc(*dp, *conn, locs@, blocks0, npcs@.take(i as int), npc);
            assert(npcs@.take(i as int).push(npc) =~= npcs@.take(i as int + 1));
        }
        patch_record(dp, conn, locs, &mut blocks, &mut out, npc);
        i += 1;
    }
    proof {
        assert(npcs@.take(n as int) =~= npcs@);
    }
    let tsc_out = concat_events(&blocks);
    (tsc_out, out)
}

/// Patch generation is deterministic: the output pair is a function of the
/// data package, roster, scouted list and stage assets alone, so two results
/// of the same computation on identical inputs are bit-identical.
pub proof fn lemma_patch_generation_deterministic(
    dp: DataPackage,
    conn: ConnectionInfo,
    locs: Seq<NetworkItem>,
    tsc: Seq<u8>,
    npcs: Seq<NPCData>,
    a: (Seq<u8>, Seq<NPCData>),
    b: (Seq<u8>, Seq<NPCData>),
)
    requires
        a == spec_patch_stage(dp, conn, locs, tsc, npcs),
        b == spec_patch_stage(dp, conn, locs, tsc, npcs),
    ensures
        a == b,
{
}

/// A serialized object table parses back to exactly the table it came from.
#[verifier::rlimit(60)]
pub proof fn lemma_npc_table_round_trip(npcs: Seq<NPCData>)
    requires
        npcs.len() <= u32::MAX,
    ensures
        spec_valid_table(spec_serialize_npc_table(npcs)),
        spec_parse_table(spec_serialize_npc_table(npcs)) == npcs,
{
    let b = spec_serialize_npc_table(npcs);
    lemma_records_len(npcs);
    let count = npcs.len() as u32;
    assert(spec_table_len(b) == count) by {
        assert(b[0] == count % 256);
        assert(b[1] == (count / 256) % 256);
        assert(b[2] == (count / 65536) % 256);
        assert(b[3] == count / 16777216);
    }
    assert(spec_valid_table(b));
    assert forall|k: int| 0 <= k < npcs.len() implies spec_parse_record(b, 4 + 15 * k)
        == npcs[k] by {
        assert forall|o: int| 0 <= o < 15 implies b[4 + 15 * k + o] == spec_record(npcs[k])[o] by {
            lemma_records_index(npcs, k, o);
            assert(b[4 + 15 * k + o] == spec_records(npcs)[15 * k + o]);
        }
        let n = npcs[k];
        let r = spec_record(n);
        assert(r[0] == (n.x as u16) % 256 && r[1] == (n.x as u16) / 256);
        assert(r[2] == (n.y as u16) % 256 && r[3] == (n.y as u16) / 256);
        assert(r[4] == n.id % 256 && r[5] == n.id / 256);
        assert(r[6] == n.flag_num % 256 && r[7] == n.flag_num / 256);
        assert(r[8] == n.event_num % 256 && r[9] == n.event_num / 256);
        assert(r[10] == n.npc_type % 256 && r[11] == n.npc_type / 256);
        assert(r[12] == n.flags % 256 && r[13] == n.flags / 256);
        assert(r[14] == n.layer);
        lemma_i16_cast_round_trip(n.x);
        lemma_i16_cast_round_trip(n.y);
    }
    assert(spec_parse_table(b) =~= npcs);
}

} // verus!
