//! Partition geometry planning: given the device length in sectors, the
//! sector size in bytes and the table type, derive where the single
//! partition starts and ends.
//!
//! The partition starts one alignment unit (the sectors spanning one
//! mebibyte) into the device, which keeps it aligned on 4K-sector drives and
//! leaves room for the table metadata. A GPT disk additionally keeps one
//! alignment unit free at the end for the backup GPT header and table, so
//! its reserve is symmetric; an MBR disk runs to the last sector.

use vstd::prelude::*;

use crate::parted::DiskType;

verus! {

/// One mebibyte in bytes: the alignment granule for the partition start and
/// for the trailing reserve of a GPT disk.
pub const MEBIBYTE: u64 = 1048576;

/// Sectors needed to span one mebibyte: `ceil(MEBIBYTE / sector_size)`.
pub open spec fn spec_alignment_unit(sector_size: u64) -> int
    recommends
        1 <= sector_size,
{
    (MEBIBYTE + sector_size - 1) / (sector_size as int)
}

/// The quotient-plus-remainder form of a ceiling division equals the
/// added-divisor form used by `spec_alignment_unit`.
proof fn lemma_ceil_div(m: int, s: int)
    requires
        1 <= s,
        0 <= m,
    ensures
        (m + s - 1) / s == if m % s == 0 {
            m / s
        } else {
            m / s + 1
        },
{
    let q = m / s;
    let r = m % s;
    vstd::arithmetic::div_mod::lemma_fundamental_div_mod(m, s);
    if r == 0 {
        vstd::arithmetic::div_mod::lemma_fundamental_div_mod_converse(m + s - 1, s, q, s - 1);
    } else {
        vstd::arithmetic::mul::lemma_mul_is_distributive_add_other_way(s, q, 1);
        vstd::arithmetic::div_mod::lemma_fundamental_div_mod_converse(m + s - 1, s, q + 1, r - 1);
    }
}

/// The alignment unit is the least number of sectors covering one mebibyte:
/// its sectors span at least `MEBIBYTE` bytes, and one sector fewer spans
/// less.
pub proof fn lemma_alignment_unit_is_least_cover(sector_size: u64)
    requires
        1 <= sector_size,
    ensures
        spec_alignment_unit(sector_size) * sector_size >= MEBIBYTE,
        (spec_alignment_unit(sector_size) - 1) * sector_size < MEBIBYTE,
{
    let m = MEBIBYTE as int;
    let s = sector_size as int;
    let q = (m + s - 1) / s;
    vstd::arithmetic::div_mod::lemma_fundamental_div_mod(m + s - 1, s);
    vstd::arithmetic::mul::lemma_mul_is_distributive_sub_other_way(s, q, 1);
}

/// Sectors needed to span one mebibyte: `ceil(MEBIBYTE / sector_size)`.
///
/// Never zero, and never more than a mebibyte's worth of one-byte sectors.
pub fn alignment_unit(sector_size: u64) -> (r: u64)
    requires
        1 <= sector_size,
    ensures
        r == spec_alignment_unit(sector_size),
        1 <= r <= MEBIBYTE,
{
    if sector_size >= MEBIBYTE {
        proof {
            vstd::arithmetic::div_mod::lemma_fundamental_div_mod_converse(
                MEBIBYTE + sector_size - 1,
                sector_size as int,
                1,
                MEBIBYTE - 1,
            );
        }
        1
    } else {
        let q: u64 = MEBIBYTE / sector_size;
        let rem: u64 = MEBIBYTE % sector_size;
        proof {
            let m = MEBIBYTE as int;
            let s = sector_size as int;
            lemma_ceil_div(m, s);
            vstd::arithmetic::div_mod::lemma_fundamental_div_mod(m, s);
            vstd::arithmetic::div_mod::lemma_div_non_zero(m, s);
            if rem == 0 {
                assert(q <= m) by (nonlinear_arith)
                    requires
                        m == q * s + rem,
                        0 <= rem,
                        1 <= s,
                        0 <= q,
                ;
            } else {
                assert(q + 1 <= m) by (nonlinear_arith)
                    requires
                        m == q * s + rem,
                        1 <= rem,
                        1 <= s,
                        0 <= q,
                ;
            }
        }
        if rem == 0 {
            q
        } else {
            q + 1
        }
    }
}

/// Where the single partition of a provisioning run sits on the device.
///
/// Sector numbers are inclusive: the partition occupies the sectors
/// `start_sector ..= end_sector`.
#[derive(Clone, Copy, Debug, PartialEq, Eq, Structural)]
pub struct PartitionPlan {
    pub start_sector: u64,
    pub end_sector: u64,
    pub table_type: DiskType,
}

/// The one way planning can fail: the device is too small to fit the
/// alignment unit twice.
#[derive(Clone, Copy, Debug, PartialEq, Eq, Structural)]
pub enum GeometryError {
    InvalidGeometry,
}

/// The plan for a device that is large enough: the partition starts one
/// alignment unit in, and ends one alignment unit and one sector early under
/// GPT, at the last sector under MBR.
pub open spec fn spec_plan(length: u64, sector_size: u64, table_type: DiskType) -> PartitionPlan {
    PartitionPlan {
        start_sector: spec_alignment_unit(sector_size) as u64,
        end_sector: match table_type {
            DiskType::GPT => (length - spec_alignment_unit(sector_size) - 1) as u64,
            DiskType::MSDOS => (length - 1) as u64,
        },
        table_type,
    }
}

/// Plans the single partition for a device of `length` sectors of
/// `sector_size` bytes each, under a table of type `table_type`.
///
/// The partition starts one alignment unit into the device. Under GPT it
/// ends one alignment unit and one sector before the end of the device,
/// reserving a symmetric region for the backup GPT structures; under MBR it
/// ends at the last sector. Planning fails, with `InvalidGeometry`, exactly
/// when the device cannot fit the alignment unit twice.
pub fn plan(length: u64, sector_size: u64, table_type: DiskType) -> (r: Result<
    PartitionPlan,
    GeometryError,
>)
    requires
        1 <= sector_size,
    ensures
        r is Err <==> length <= 2 * spec_alignment_unit(sector_size),
        r matches Err(e) ==> e == GeometryError::InvalidGeometry,
        r matches Ok(p) ==> {
            &&& p == spec_plan(length, sector_size, table_type)
            &&& p.start_sector == spec_alignment_unit(sector_size)
            &&& p.table_type == table_type
            &&& (table_type is GPT ==> p.end_sector == length - spec_alignment_unit(sector_size)
                - 1)
            &&& (table_type is GPT ==> length - p.end_sector - 1 == p.start_sector)
            &&& (table_type is MSDOS ==> p.end_sector == length - 1)
            &&& p.start_sector <= p.end_sector < length
            &&& (table_type is MSDOS ==> p.start_sector < p.end_sector)
            &&& (table_type is GPT && length > 2 * spec_alignment_unit(sector_size) + 1
                ==> p.start_sector < p.end_sector)
        },
{
    let unit: u64 = alignment_unit(sector_size);
    if length <= 2 * unit {
        return Err(GeometryError::InvalidGeometry);
    }
    let end_sector: u64 = match table_type {
        DiskType::GPT => length - unit - 1,
        DiskType::MSDOS => length - 1,
    };
    Ok(PartitionPlan { start_sector: unit, end_sector, table_type })
}

} // verus!
