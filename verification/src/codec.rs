use crate::error::OperationError;
use crate::identity::Identity;
use crate::record::{AuctionRecord, StoredRecord};
use vstd::bytes::*;
use vstd::prelude::*;
use vstd::slice::slice_subrange;

verus! {

/// Byte length of a packed auction record: one flag byte, six identities of
/// 32 bytes each, and two 64-bit fields.
pub const RECORD_LEN: usize = 209;

/// Two's-complement byte-level image of a signed 64-bit timestamp.
pub open spec fn spec_i64_repr(x: i64) -> u64 {
    if x >= 0 {
        x as u64
    } else {
        (x + 0x1_0000_0000_0000_0000) as u64
    }
}

/// Inverse of `spec_i64_repr`.
pub open spec fn spec_i64_unrepr(u: u64) -> i64 {
    if u <= i64::MAX as u64 {
        u as i64
    } else {
        (u - 0x1_0000_0000_0000_0000) as i64
    }
}

pub proof fn lemma_i64_repr_roundtrip(x: i64)
    ensures
        spec_i64_unrepr(spec_i64_repr(x)) == x,
{
}

pub fn i64_repr(x: i64) -> (u: u64)
    ensures
        u == spec_i64_repr(x),
{
    if x >= 0 {
        x as u64
    } else {
        ((x as i128) + 0x1_0000_0000_0000_0000_i128) as u64
    }
}

pub fn i64_unrepr(u: u64) -> (x: i64)
    ensures
        x == spec_i64_unrepr(u),
{
    if u <= i64::MAX as u64 {
        u as i64
    } else {
        ((u as i128) - 0x1_0000_0000_0000_0000_i128) as i64
    }
}

/// The identity whose 32-byte image is `s`.
pub open spec fn spec_identity_from_bytes(s: Seq<u8>) -> Identity
    recommends
        s.len() == 32,
{
    Identity {
        w0: spec_u64_from_le_bytes(s.subrange(0, 8)),
        w1: spec_u64_from_le_bytes(s.subrange(8, 16)),
        w2: spec_u64_from_le_bytes(s.subrange(16, 24)),
        w3: spec_u64_from_le_bytes(s.subrange(24, 32)),
    }
}

pub proof fn lemma_identity_bytes_roundtrip(id: Identity)
    ensures
        id@.len() == 32,
        spec_identity_from_bytes(id@) == id,
{
    lemma_auto_spec_u64_to_from_le_bytes();
    assert(id@.subrange(0, 8) =~= spec_u64_to_le_bytes(id.w0));
    assert(id@.subrange(8, 16) =~= spec_u64_to_le_bytes(id.w1));
    assert(id@.subrange(16, 24) =~= spec_u64_to_le_bytes(id.w2));
    assert(id@.subrange(24, 32) =~= spec_u64_to_le_bytes(id.w3));
}

/// The fixed-layout byte image of a record: the fields in declaration order,
/// packed with no padding, integers little-endian.
pub open spec fn spec_pack_record(r: AuctionRecord) -> Seq<u8> {
    seq![if r.initialized { 1u8 } else { 0u8 }] + r.exhibitor@ + r.exhibited_item_custody@
        + r.exhibitor_payout_destination@ + spec_u64_to_le_bytes(r.current_price)
        + spec_u64_to_le_bytes(spec_i64_repr(r.auction_end)) + r.highest_bidder@
        + r.highest_bidder_currency_custody@ + r.highest_bidder_refund_destination@
}

pub proof fn lemma_pack_record_len(r: AuctionRecord)
    ensures
        spec_pack_record(r).len() == RECORD_LEN,
{
    lemma_auto_spec_u64_to_from_le_bytes();
    r.exhibitor.lemma_view_len();
    r.exhibited_item_custody.lemma_view_len();
    r.exhibitor_payout_destination.lemma_view_len();
    r.highest_bidder.lemma_view_len();
    r.highest_bidder_currency_custody.lemma_view_len();
    r.highest_bidder_refund_destination.lemma_view_len();
}

/// The record a 209-byte image with flag byte 1 describes.
pub open spec fn spec_parse_record(s: Seq<u8>) -> AuctionRecord
    recommends
        s.len() == RECORD_LEN,
{
    AuctionRecord {
        initialized: s[0] == 1,
        exhibitor: spec_identity_from_bytes(s.subrange(1, 33)),
        exhibited_item_custody: spec_identity_from_bytes(s.subrange(33, 65)),
        exhibitor_payout_destination: spec_identity_from_bytes(s.subrange(65, 97)),
        current_price: spec_u64_from_le_bytes(s.subrange(97, 105)),
        auction_end: spec_i64_unrepr(spec_u64_from_le_bytes(s.subrange(105, 113))),
        highest_bidder: spec_identity_from_bytes(s.subrange(113, 145)),
        highest_bidder_currency_custody: spec_identity_from_bytes(s.subrange(145, 177)),
        highest_bidder_refund_destination: spec_identity_from_bytes(s.subrange(177, 209)),
    }
}

/// Parse storage without demanding an initialized record: an image of the
/// wrong length or with a flag byte other than 0 or 1 is rejected; flag 0 is
/// valid-but-uninitialized storage; flag 1 is a live record.
pub open spec fn spec_unpack_unchecked(s: Seq<u8>) -> Result<StoredRecord, OperationError> {
    if s.len() != RECORD_LEN {
        Err(OperationError::InvalidAccountData)
    } else if s[0] == 0 {
        Ok(StoredRecord::Empty)
    } else if s[0] == 1 {
        Ok(StoredRecord::Active(spec_parse_record(s)))
    } else {
        Err(OperationError::InvalidAccountData)
    }
}

/// Parse storage that must already hold an initialized record.
pub open spec fn spec_unpack(s: Seq<u8>) -> Result<AuctionRecord, OperationError> {
    match spec_unpack_unchecked(s) {
        Err(e) => Err(e),
        Ok(StoredRecord::Empty) => Err(OperationError::UninitializedAccount),
        Ok(StoredRecord::Active(r)) => Ok(r),
    }
}

/// Packing a record and parsing the image gives the record back; a record
/// packed with its flag down parses as empty storage.
pub proof fn lemma_pack_unpack_roundtrip(r: AuctionRecord)
    ensures
        spec_unpack_unchecked(spec_pack_record(r)) == (if r.initialized {
            Ok::<StoredRecord, OperationError>(StoredRecord::Active(r))
        } else {
            Ok::<StoredRecord, OperationError>(StoredRecord::Empty)
        }),
        r.initialized ==> spec_unpack(spec_pack_record(r)) == Ok::<
            AuctionRecord,
            OperationError,
        >(r),
{
    lemma_pack_record_len(r);
    lemma_auto_spec_u64_to_from_le_bytes();
    lemma_identity_bytes_roundtrip(r.exhibitor);
    lemma_identity_bytes_roundtrip(r.exhibited_item_custody);
    lemma_identity_bytes_roundtrip(r.exhibitor_payout_destination);
    lemma_identity_bytes_roundtrip(r.highest_bidder);
    lemma_identity_bytes_roundtrip(r.highest_bidder_currency_custody);
    lemma_identity_bytes_roundtrip(r.highest_bidder_refund_destination);
    lemma_i64_repr_roundtrip(r.auction_end);
    let s = spec_pack_record(r);
    assert(s.subrange(1, 33) =~= r.exhibitor@);
    assert(s.subrange(33, 65) =~= r.exhibited_item_custody@);
    assert(s.subrange(65, 97) =~= r.exhibitor_payout_destination@);
    assert(s.subrange(97, 105) =~= spec_u64_to_le_bytes(r.current_price));
    assert(s.subrange(105, 113) =~= spec_u64_to_le_bytes(spec_i64_repr(r.auction_end)));
    assert(s.subrange(113, 145) =~= r.highest_bidder@);
    assert(s.subrange(145, 177) =~= r.highest_bidder_currency_custody@);
    assert(s.subrange(177, 209) =~= r.highest_bidder_refund_destination@);
    if r.initialized {
        assert(spec_parse_record(s) == r);
    }
}

/// Reclaimed storage no longer parses, neither as a record nor as
/// valid-but-uninitialized storage.
pub proof fn lemma_cleared_storage_never_parses()
    ensures
        spec_unpack_unchecked(Seq::<u8>::empty()) == Err::<StoredRecord, OperationError>(
            OperationError::InvalidAccountData,
        ),
        spec_unpack(Seq::<u8>::empty()) == Err::<AuctionRecord, OperationError>(
            OperationError::InvalidAccountData,
        ),
{
}

fn write_identity(out: &mut Vec<u8>, id: &Identity)
    ensures
        final(out)@ == old(out)@ + id@,
{
    let mut b0 = u64_to_le_bytes(id.w0);
    out.append(&mut b0);
    let mut b1 = u64_to_le_bytes(id.w1);
    out.append(&mut b1);
    let mut b2 = u64_to_le_bytes(id.w2);
    out.append(&mut b2);
    let mut b3 = u64_to_le_bytes(id.w3);
    out.append(&mut b3);
    proof {
        assert(out@ =~= old(out)@ + id@);
    }
}

/// Produce the fixed-layout byte image of a record.
pub fn pack_record(r: &AuctionRecord) -> (out: Vec<u8>)
    ensures
        out@ == spec_pack_record(*r),
        out@.len() == RECORD_LEN,
{
    let mut out: Vec<u8> = Vec::new();
    out.push(if r.initialized { 1u8 } else { 0u8 });
    write_identity(&mut out, &r.exhibitor);
    write_identity(&mut out, &r.exhibited_item_custody);
    write_identity(&mut out, &r.exhibitor_payout_destination);
    let mut price = u64_to_le_bytes(r.current_price);
    out.append(&mut price);
    let mut end = u64_to_le_bytes(i64_repr(r.auction_end));
    out.append(&mut end);
    write_identity(&mut out, &r.highest_bidder);
    write_identity(&mut out, &r.highest_bidder_currency_custody);
    write_identity(&mut out, &r.highest_bidder_refund_destination);
    proof {
        lemma_pack_record_len(*r);
        assert(out@ =~= spec_pack_record(*r));
    }
    out
}

fn read_u64(data: &Vec<u8>, off: usize) -> (x: u64)
    requires
        off + 8 <= data@.len(),
    ensures
        x == spec_u64_from_le_bytes(data@.subrange(off as int, off as int + 8)),
{
    let n = data.len();
    assert(off + 8 <= n);
    let s = slice_subrange(data.as_slice(), off, off + 8);
    u64_from_le_bytes(s)
}

fn read_identity(data: &Vec<u8>, off: usize) -> (id: Identity)
    requires
        off + 32 <= data@.len(),
    ensures
        id == spec_identity_from_bytes(data@.subrange(off as int, off as int + 32)),
{
    let n = data.len();
    assert(off + 32 <= n);
    let w0 = read_u64(data, off);
    let w1 = read_u64(data, off + 8);
    let w2 = read_u64(data, off + 16);
    let w3 = read_u64(data, off + 24);
    proof {
        let s = data@.subrange(off as int, off as int + 32);
        assert(s.subrange(0, 8) =~= data@.subrange(off as int, off as int + 8));
        assert(s.subrange(8, 16) =~= data@.subrange(off as int + 8, off as int + 16));
        assert(s.subrange(16, 24) =~= data@.subrange(off as int + 16, off as int + 24));
        assert(s.subrange(24, 32) =~= data@.subrange(off as int + 24, off as int + 32));
    }
    Identity { w0, w1, w2, w3 }
}

/// Rebuild an identity from its 32-byte image.
pub fn identity_from_bytes(data: &Vec<u8>) -> (id: Identity)
    requires
        data@.len() == 32,
    ensures
        id == spec_identity_from_bytes(data@),
{
    proof {
        assert(data@.subrange(0, 32) =~= data@);
    }
    read_identity(data, 0)
}

/// Parse escrow storage without demanding an initialized record.
pub fn unpack_unchecked(data: &Vec<u8>) -> (r: Result<StoredRecord, OperationError>)
    ensures
        r == spec_unpack_unchecked(data@),
{
    if data.len() != RECORD_LEN {
        return Err(OperationError::InvalidAccountData);
    }
    let flag = data[0];
    if flag == 0 {
        Ok(StoredRecord::Empty)
    } else if flag == 1 {
        let rec = AuctionRecord {
            initialized: true,
            exhibitor: read_identity(data, 1),
            exhibited_item_custody: read_identity(data, 33),
            exhibitor_payout_destination: read_identity(data, 65),
            current_price: read_u64(data, 97),
            auction_end: i64_unrepr(read_u64(data, 105)),
            highest_bidder: read_identity(data, 113),
            highest_bidder_currency_custody: read_identity(data, 145),
            highest_bidder_refund_destination: read_identity(data, 177),
        };
        Ok(StoredRecord::Active(rec))
    } else {
        Err(OperationError::InvalidAccountData)
    }
}

/// Parse escrow storage that must already hold an initialized record.
pub fn unpack_record(data: &Vec<u8>) -> (r: Result<AuctionRecord, OperationError>)
    ensures
        r == spec_unpack(data@),
{
    match unpack_unchecked(data) {
        Err(e) => Err(e),
        Ok(StoredRecord::Empty) => Err(OperationError::UninitializedAccount),
        Ok(StoredRecord::Active(rec)) => Ok(rec),
    }
}

} // verus!
