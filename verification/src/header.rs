//! IDX header validation: magic number, declared record count, and, where
//! the format carries geometry, declared row and column counts. Every
//! mismatch is fatal — a structurally wrong source file aborts the decode.

use crate::bytes::be_u32_at;
use crate::bytes::read_be_u32;
use crate::error::FormatError;
use vstd::prelude::*;

verus! {

/// Expected outcome of validating an IDX-style header.
///
/// Checks run in field order, so a wrong magic number is reported before
/// any later header field is even looked at. `Ok` carries the number of
/// header bytes consumed: 8 without geometry fields, 16 with them.
pub open spec fn spec_validate(
    bytes: Seq<u8>,
    expected_magic: u32,
    expected_count: u32,
    expected_geometry: Option<(u32, u32)>,
) -> Result<int, FormatError> {
    if bytes.len() < 4 {
        Err(FormatError::TruncatedData)
    } else if be_u32_at(bytes, 0) != expected_magic {
        Err(FormatError::BadMagic)
    } else if bytes.len() < 8 {
        Err(FormatError::TruncatedData)
    } else if be_u32_at(bytes, 4) != expected_count {
        Err(FormatError::BadLength)
    } else {
        match expected_geometry {
            None => Ok(8),
            Some((rows, cols)) => {
                if bytes.len() < 12 {
                    Err(FormatError::TruncatedData)
                } else if be_u32_at(bytes, 8) != rows {
                    Err(FormatError::BadGeometry)
                } else if bytes.len() < 16 {
                    Err(FormatError::TruncatedData)
                } else if be_u32_at(bytes, 12) != cols {
                    Err(FormatError::BadGeometry)
                } else {
                    Ok(16)
                }
            },
        }
    }
}

/// Validate an IDX-style header against the caller-expected magic number,
/// record count and, if given, geometry. Returns the number of header
/// bytes consumed.
pub fn validate(
    bytes: &Vec<u8>,
    expected_magic: u32,
    expected_count: u32,
    expected_geometry: Option<(u32, u32)>,
) -> (r: Result<usize, FormatError>)
    ensures
        (match r {
            Ok(consumed) => spec_validate(bytes@, expected_magic, expected_count, expected_geometry)
                == Ok::<int, FormatError>(consumed as int),
            Err(e) => spec_validate(bytes@, expected_magic, expected_count, expected_geometry)
                == Err::<int, FormatError>(e),
        }),
{
    if bytes.len() < 4 {
        return Err(FormatError::TruncatedData);
    }
    if read_be_u32(bytes, 0) != expected_magic {
        return Err(FormatError::BadMagic);
    }
    if bytes.len() < 8 {
        return Err(FormatError::TruncatedData);
    }
    if read_be_u32(bytes, 4) != expected_count {
        return Err(FormatError::BadLength);
    }
    match expected_geometry {
        None => Ok(8),
        Some((rows, cols)) => {
            if bytes.len() < 12 {
                return Err(FormatError::TruncatedData);
            }
            if read_be_u32(bytes, 8) != rows {
                return Err(FormatError::BadGeometry);
            }
            if bytes.len() < 16 {
                return Err(FormatError::TruncatedData);
            }
            if read_be_u32(bytes, 12) != cols {
                return Err(FormatError::BadGeometry);
            }
            Ok(16)
        },
    }
}

} // verus!
