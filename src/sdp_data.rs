//! SDP data elements: a bounded walk over the bytes of a service search
//! response, looking for the RFCOMM channel of a protocol descriptor list.
//!
//! A data element starts with a descriptor byte: its high five bits give the
//! type, its low three bits the size index. Size indices 0 to 4 give a payload
//! of 1, 2, 4, 8 or 16 bytes (none for the nil type); 5, 6 and 7 say that a
//! length of 1, 2 or 4 big-endian bytes follows the descriptor.
use vstd::prelude::*;

verus! {

/// Descriptor of an unsigned 8-bit integer.
pub const UINT8: u8 = 0x08;

/// Descriptor of an unsigned 16-bit integer (used for attribute ids).
pub const UINT16: u8 = 0x09;

/// Descriptor of a 16-bit UUID.
pub const UUID16: u8 = 0x19;

/// Descriptor of a 32-bit UUID.
pub const UUID32: u8 = 0x1A;

/// Descriptor of a 128-bit UUID.
pub const UUID128: u8 = 0x1C;

/// Attribute id of a record's protocol descriptor list.
pub const PROTO_DESC_LIST: u8 = 0x04;

/// Protocol UUID of RFCOMM.
pub const RFCOMM_UUID: u8 = 0x03;

pub open spec fn is_uuid(tag: u8) -> bool {
    tag == UUID16 || tag == UUID32 || tag == UUID128
}

pub open spec fn is_seq(tag: u8) -> bool {
    0x35 <= tag <= 0x37
}

pub open spec fn is_alt(tag: u8) -> bool {
    0x3D <= tag <= 0x3F
}

/// A sequence or an alternative: the element types that hold other elements.
pub open spec fn is_container(tag: u8) -> bool {
    is_seq(tag) || is_alt(tag)
}

/// Payload length of a size index below 5.
pub open spec fn fixed_len(size_index: u8) -> int {
    if size_index == 0 {
        1
    } else if size_index == 1 {
        2
    } else if size_index == 2 {
        4
    } else if size_index == 3 {
        8
    } else {
        16
    }
}

/// The header of the element at `pos`: its descriptor, where its payload
/// starts, and how long the payload says it is. `None` where the header does
/// not fit in `b`.
pub open spec fn header(b: Seq<u8>, pos: int) -> Option<(u8, int, int)> {
    if pos < 0 || pos >= b.len() {
        None
    } else {
        let tag = b[pos];
        let size_index = tag % 8;
        if tag / 8 == 0 {
            Some((tag, pos + 1, 0))
        } else if size_index < 5 {
            Some((tag, pos + 1, fixed_len(size_index)))
        } else if size_index == 5 {
            if pos + 1 < b.len() {
                Some((tag, pos + 2, b[pos + 1] as int))
            } else {
                None
            }
        } else if size_index == 6 {
            if pos + 2 < b.len() {
                Some((tag, pos + 3, b[pos + 1] * 256 + b[pos + 2]))
            } else {
                None
            }
        } else {
            if pos + 4 < b.len() {
                Some(
                    (
                        tag,
                        pos + 5,
                        b[pos + 1] * 16777216 + b[pos + 2] * 65536 + b[pos + 3] * 256 + b[pos
                            + 4],
                    ),
                )
            } else {
                None
            }
        }
    }
}

/// The element at `pos` that ends at or before `end`: its descriptor, and the
/// start and end of its payload.
pub open spec fn element(b: Seq<u8>, pos: int, end: int) -> Option<(u8, int, int)> {
    match header(b, pos) {
        Some((tag, start, len)) => if start + len <= end {
            Some((tag, start, start + len))
        } else {
            None
        },
        None => None,
    }
}

/// The 128-bit form of the RFCOMM protocol UUID, on the Bluetooth base UUID.
pub open spec fn rfcomm_uuid128() -> Seq<u8> {
    seq![
        0u8, 0u8, 0u8, 3u8, 0u8, 0u8, 0x10u8, 0u8, 0x80u8, 0u8, 0u8, 0x80u8, 0x5Fu8, 0x9Bu8,
        0x34u8, 0xFBu8,
    ]
}

/// Whether the UUID element with descriptor `tag` and payload at `start`
/// names RFCOMM, in any of its three sizes.
pub open spec fn names_rfcomm(b: Seq<u8>, tag: u8, start: int) -> bool {
    if tag == UUID16 {
        b[start] == 0 && b[start + 1] == RFCOMM_UUID
    } else if tag == UUID32 {
        b[start] == 0 && b[start + 1] == 0 && b[start + 2] == 0 && b[start + 3] == RFCOMM_UUID
    } else {
        b.subrange(start, start + 16) == rfcomm_uuid128()
    }
}

/// First RFCOMM channel among the elements of one protocol descriptor in
/// `[pos, end)`: an 8-bit integer that follows a UUID naming RFCOMM, with no
/// other UUID in between. `rfcomm` says whether the latest UUID seen named it.
/// The walk stops at the first element that does not fit.
pub open spec fn descriptor_channel(b: Seq<u8>, pos: int, end: int, rfcomm: bool) -> Option<u8>
    decreases end - pos,
{
    if pos >= end {
        None
    } else {
        match element(b, pos, end) {
            None => None,
            Some((tag, start, stop)) => if stop <= pos {
                None
            } else if is_uuid(tag) {
                descriptor_channel(b, stop, end, names_rfcomm(b, tag, start))
            } else if tag == UINT8 && rfcomm {
                Some(b[start])
            } else {
                descriptor_channel(b, stop, end, rfcomm)
            },
        }
    }
}

/// First RFCOMM channel of one protocol alternative in `[pos, end)`: its
/// elements that are sequences are the protocol descriptors.
pub open spec fn alternative_channel(b: Seq<u8>, pos: int, end: int) -> Option<u8>
    decreases end - pos,
{
    if pos >= end {
        None
    } else {
        match element(b, pos, end) {
            None => None,
            Some((tag, start, stop)) => if stop <= pos {
                None
            } else {
                let here = if is_seq(tag) {
                    descriptor_channel(b, start, stop, false)
                } else {
                    None
                };
                if here is Some {
                    here
                } else {
                    alternative_channel(b, stop, end)
                }
            },
        }
    }
}

/// First RFCOMM channel among the alternatives in `[pos, end)`, the payload of
/// a protocol descriptor list that is an alternative element.
pub open spec fn alternatives_channel(b: Seq<u8>, pos: int, end: int) -> Option<u8>
    decreases end - pos,
{
    if pos >= end {
        None
    } else {
        match element(b, pos, end) {
            None => None,
            Some((tag, start, stop)) => if stop <= pos {
                None
            } else {
                let here = if is_container(tag) {
                    alternative_channel(b, start, stop)
                } else {
                    None
                };
                if here is Some {
                    here
                } else {
                    alternatives_channel(b, stop, end)
                }
            },
        }
    }
}

/// First RFCOMM channel of a protocol descriptor list with descriptor `tag`
/// and payload `[start, stop)`: a sequence is one alternative, an alternative
/// holds several.
pub open spec fn proto_list_channel(b: Seq<u8>, tag: u8, start: int, stop: int) -> Option<u8> {
    if is_seq(tag) {
        alternative_channel(b, start, stop)
    } else if is_alt(tag) {
        alternatives_channel(b, start, stop)
    } else {
        None
    }
}

/// First RFCOMM channel of one service record, whose attribute pairs (a 16-bit
/// id, then a value) lie in `[pos, end)`. Only the protocol descriptor list
/// is read; the walk stops at the first pair that does not fit.
pub open spec fn record_channel(b: Seq<u8>, pos: int, end: int) -> Option<u8>
    decreases end - pos,
{
    if pos >= end {
        None
    } else {
        match element(b, pos, end) {
            None => None,
            Some((tag, start, stop)) => if tag != UINT16 || stop <= pos {
                None
            } else {
                match element(b, stop, end) {
                    None => None,
                    Some((vtag, vstart, vstop)) => if vstop <= stop {
                        None
                    } else {
                        let here = if b[start] == 0 && b[start + 1] == PROTO_DESC_LIST {
                            proto_list_channel(b, vtag, vstart, vstop)
                        } else {
                            None
                        };
                        if here is Some {
                            here
                        } else {
                            record_channel(b, vstop, end)
                        }
                    },
                }
            },
        }
    }
}

/// First RFCOMM channel among the service records from `pos` to the end of
/// `b`. The walk stops at the first record that is not a whole container.
pub open spec fn records_channel(b: Seq<u8>, pos: int) -> Option<u8>
    decreases b.len() - pos,
{
    if pos >= b.len() {
        None
    } else {
        match element(b, pos, b.len() as int) {
            None => None,
            Some((tag, start, stop)) => if !is_container(tag) || stop <= pos {
                None
            } else {
                let here = record_channel(b, start, stop);
                if here is Some {
                    here
                } else {
                    records_channel(b, stop)
                }
            },
        }
    }
}

/// What a walk of a whole response finds.
pub enum Scan {
    Found(u8),
    Absent,
    Malformed,
}

/// The outcome of walking a whole search response: a container whose
/// elements are service records. An empty response holds no record; one that
/// does not start with a container header, or whose first record is not a
/// whole container, is malformed. Records after the first are read up to the
/// first one that does not fit, and the first channel in buffer order wins.
pub open spec fn response_scan(b: Seq<u8>) -> Scan {
    if b.len() == 0 {
        Scan::Absent
    } else {
        match header(b, 0) {
            None => Scan::Malformed,
            Some((tag, start, len)) => if !is_container(tag) {
                Scan::Malformed
            } else if len == 0 || start >= b.len() {
                Scan::Absent
            } else {
                match element(b, start, b.len() as int) {
                    None => Scan::Malformed,
                    Some((rtag, rstart, rstop)) => if !is_container(rtag) {
                        Scan::Malformed
                    } else {
                        let first = record_channel(b, rstart, rstop);
                        let found = if first is Some {
                            first
                        } else {
                            records_channel(b, rstop)
                        };
                        match found {
                            Some(c) => Scan::Found(c),
                            None => Scan::Absent,
                        }
                    },
                }
            },
        }
    }
}

/// Reads the element at `pos` that ends at or before `end`.
pub fn read_element(b: &[u8], pos: usize, end: usize) -> (r: Option<(u8, usize, usize)>)
    requires
        end <= b@.len(),
    ensures
        match element(b@, pos as int, end as int) {
            Some((tag, start, stop)) => r == Some((tag, start as usize, stop as usize)),
            None => r is None,
        },
        r matches Some((t, s, e)) ==> pos < s <= e <= end,
{
    if pos >= b.len() {
        return None;
    }
    let tag = b[pos];
    let size_index = tag % 8;
    let start: usize;
    let len: u64;
    if tag / 8 == 0 {
        start = pos + 1;
        len = 0;
    } else if size_index < 5 {
        start = pos + 1;
        len = if size_index == 0 {
            1
        } else if size_index == 1 {
            2
        } else if size_index == 2 {
            4
        } else if size_index == 3 {
            8
        } else {
            16
        };
    } else if size_index == 5 {
        if b.len() - pos <= 1 {
            return None;
        }
        start = pos + 2;
        len = b[pos + 1] as u64;
    } else if size_index == 6 {
        if b.len() - pos <= 2 {
            return None;
        }
        start = pos + 3;
        len = (b[pos + 1] as u64) * 256 + (b[pos + 2] as u64);
    } else {
        if b.len() - pos <= 4 {
            return None;
        }
        start = pos + 5;
        len = (b[pos + 1] as u64) * 16777216 + (b[pos + 2] as u64) * 65536 + (b[pos + 3] as u64)
            * 256 + (b[pos + 4] as u64);
    }
    if start > end || len > (end - start) as u64 {
        return None;
    }
    Some((tag, start, start + len as usize))
}

/// Whether the UUID element with descriptor `tag` and payload `[start, stop)`
/// names RFCOMM.
fn uuid_names_rfcomm(b: &[u8], tag: u8, start: usize, stop: usize) -> (r: bool)
    requires
        is_uuid(tag),
        stop <= b@.len(),
        start + fixed_len((tag % 8) as u8) == stop,
    ensures
        r == names_rfcomm(b@, tag, start as int),
{
    if tag == UUID16 {
        b[start] == 0 && b[start + 1] == RFCOMM_UUID
    } else if tag == UUID32 {
        b[start] == 0 && b[start + 1] == 0 && b[start + 2] == 0 && b[start + 3] == RFCOMM_UUID
    } else {
        let base: [u8; 16] = [0, 0, 0, 3, 0, 0, 0x10, 0, 0x80, 0, 0, 0x80, 0x5F, 0x9B, 0x34, 0xFB];
        assert(base@ =~= rfcomm_uuid128());
        assert(tag == UUID128 && start + 16 == stop);
        let mut i: usize = 0;
        while i < 16
            invariant
                i <= 16,
                start + 16 == stop,
                stop <= b@.len(),
                tag == UUID128,
                base@ == rfcomm_uuid128(),
                forall|j: int| 0 <= j < i ==> b@[start + j] == base@[j],
            decreases 16 - i,
        {
            if b[start + i] != base[i] {
                assert(b@.subrange(start as int, start + 16)[i as int] != rfcomm_uuid128()[i as int]);
                assert(b@.subrange(start as int, start + 16) != rfcomm_uuid128());
                return false;
            }
            i = i + 1;
        }
        assert(b@.subrange(start as int, start + 16) =~= rfcomm_uuid128());
        true
    }
}

/// Walks one protocol descriptor in `[pos, end)`.
fn scan_descriptor(b: &[u8], pos: usize, end: usize) -> (r: Option<u8>)
    requires
        end <= b@.len(),
    ensures
        r == descriptor_channel(b@, pos as int, end as int, false),
{
    let mut p = pos;
    let mut rfcomm = false;
    while p < end
        invariant
            end <= b@.len(),
            descriptor_channel(b@, pos as int, end as int, false) == descriptor_channel(
                b@,
                p as int,
                end as int,
                rfcomm,
            ),
        decreases end - p,
    {
        match read_element(b, p, end) {
            None => return None,
            Some((tag, start, stop)) => {
                if tag == UUID16 || tag == UUID32 || tag == UUID128 {
                    rfcomm = uuid_names_rfcomm(b, tag, start, stop);
                    p = stop;
                } else if tag == UINT8 && rfcomm {
                    return Some(b[start]);
                } else {
                    p = stop;
                }
            },
        }
    }
    None
}

/// Walks one protocol alternative in `[pos, end)`.
fn scan_alternative(b: &[u8], pos: usize, end: usize) -> (r: Option<u8>)
    requires
        end <= b@.len(),
    ensures
        r == alternative_channel(b@, pos as int, end as int),
{
    let mut p = pos;
    while p < end
        invariant
            end <= b@.len(),
            alternative_channel(b@, pos as int, end as int) == alternative_channel(
                b@,
                p as int,
                end as int,
            ),
        decreases end - p,
    {
        match read_element(b, p, end) {
            None => return None,
            Some((tag, start, stop)) => {
                if 0x35 <= tag && tag <= 0x37 {
                    let here = scan_descriptor(b, start, stop);
                    if here.is_some() {
                        return here;
                    }
                }
                p = stop;
            },
        }
    }
    None
}

/// Walks the alternatives in `[pos, end)`.
fn scan_alternatives(b: &[u8], pos: usize, end: usize) -> (r: Option<u8>)
    requires
        end <= b@.len(),
    ensures
        r == alternatives_channel(b@, pos as int, end as int),
{
    let mut p = pos;
    while p < end
        invariant
            end <= b@.len(),
            alternatives_channel(b@, pos as int, end as int) == alternatives_channel(
                b@,
                p as int,
                end as int,
            ),
        decreases end - p,
    {
        match read_element(b, p, end) {
            None => return None,
            Some((tag, start, stop)) => {
                if (0x35 <= tag && tag <= 0x37) || (0x3D <= tag && tag <= 0x3F) {
                    let here = scan_alternative(b, start, stop);
                    if here.is_some() {
                        return here;
                    }
                }
                p = stop;
            },
        }
    }
    None
}

/// Walks the attribute pairs of one service record in `[pos, end)`.
fn scan_record(b: &[u8], pos: usize, end: usize) -> (r: Option<u8>)
    requires
        end <= b@.len(),
    ensures
        r == record_channel(b@, pos as int, end as int),
{
    let mut p = pos;
    while p < end
        invariant
            end <= b@.len(),
            record_channel(b@, pos as int, end as int) == record_channel(b@, p as int, end as int),
        decreases end - p,
    {
        match read_element(b, p, end) {
            None => return None,
            Some((tag, start, stop)) => {
                if tag != UINT16 {
                    return None;
                }
                match read_element(b, stop, end) {
                    None => return None,
                    Some((vtag, vstart, vstop)) => {
                        if b[start] == 0 && b[start + 1] == PROTO_DESC_LIST {
                            let here = if 0x35 <= vtag && vtag <= 0x37 {
                                scan_alternative(b, vstart, vstop)
                            } else if 0x3D <= vtag && vtag <= 0x3F {
                                scan_alternatives(b, vstart, vstop)
                            } else {
                                None
                            };
                            if here.is_some() {
                                return here;
                            }
                        }
                        p = vstop;
                    },
                }
            },
        }
    }
    None
}

/// Walks the service records from `pos` to the end of `b`. Every record is
/// read; the first channel found is kept.
fn scan_records(b: &[u8], pos: usize) -> (r: Option<u8>)
    ensures
        r == records_channel(b@, pos as int),
{
    let mut p = pos;
    let mut found: Option<u8> = None;
    while p < b.len()
        invariant
            records_channel(b@, pos as int) == if found is Some {
                found
            } else {
                records_channel(b@, p as int)
            },
        decreases b@.len() - p,
    {
        match read_element(b, p, b.len()) {
            None => return found,
            Some((tag, start, stop)) => {
                if !((0x35 <= tag && tag <= 0x37) || (0x3D <= tag && tag <= 0x3F)) {
                    return found;
                }
                let here = scan_record(b, start, stop);
                if found.is_none() {
                    found = here;
                }
                p = stop;
            },
        }
    }
    found
}

/// Walks a whole service search response.
pub fn scan_response(b: &[u8]) -> (r: Scan)
    ensures
        r == response_scan(b@),
{
    if b.len() == 0 {
        return Scan::Absent;
    }
    // The response is one container: its declared length is read, and its
    // records run to the end of the buffer.
    let (tag, start, len) = match read_header(b) {
        None => return Scan::Malformed,
        Some(h) => h,
    };
    if !((0x35 <= tag && tag <= 0x37) || (0x3D <= tag && tag <= 0x3F)) {
        return Scan::Malformed;
    }
    if len == 0 || start >= b.len() {
        return Scan::Absent;
    }
    match read_element(b, start, b.len()) {
        None => Scan::Malformed,
        Some((rtag, rstart, rstop)) => {
            if !((0x35 <= rtag && rtag <= 0x37) || (0x3D <= rtag && rtag <= 0x3F)) {
                return Scan::Malformed;
            }
            let first = scan_record(b, rstart, rstop);
            let found = if first.is_some() {
                first
            } else {
                scan_records(b, rstop)
            };
            match found {
                Some(c) => Scan::Found(c),
                None => Scan::Absent,
            }
        },
    }
}

/// Reads the header of the element at the start of `b`, without asking that
/// its payload fit.
fn read_header(b: &[u8]) -> (r: Option<(u8, usize, u64)>)
    ensures
        match header(b@, 0) {
            Some((tag, start, len)) => r == Some((tag, start as usize, len as u64)),
            None => r is None,
        },
{
    if b.len() == 0 {
        return None;
    }
    let tag = b[0];
    let size_index = tag % 8;
    if tag / 8 == 0 {
        Some((tag, 1, 0))
    } else if size_index < 5 {
        let len: u64 = if size_index == 0 {
            1
        } else if size_index == 1 {
            2
        } else if size_index == 2 {
            4
        } else if size_index == 3 {
            8
        } else {
            16
        };
        Some((tag, 1, len))
    } else if size_index == 5 {
        if b.len() < 2 {
            return None;
        }
        Some((tag, 2, b[1] as u64))
    } else if size_index == 6 {
        if b.len() < 3 {
            return None;
        }
        Some((tag, 3, (b[1] as u64) * 256 + (b[2] as u64)))
    } else {
        if b.len() < 5 {
            return None;
        }
        Some(
            (
                tag,
                5,
                (b[1] as u64) * 16777216 + (b[2] as u64) * 65536 + (b[3] as u64) * 256 + (
                b[4] as u64),
            ),
        )
    }
}

} // verus!
