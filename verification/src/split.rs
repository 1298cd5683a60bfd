//! The partitioner: re-split concatenated train+test byte sequences into
//! train, validation and test partitions of caller-configured record
//! counts. The logical concatenation is carved in order — first the train
//! records, then the validation records, then the test records — and any
//! remainder is discarded. A zero validation length yields an empty
//! partition, never an absent one.

use crate::bytes::take_range;
use crate::error::ConfigError;
use vstd::arithmetic::mul::lemma_mul_inequality;
use vstd::prelude::*;

verus! {

/// Carve `train ++ test` into consecutive train/validation/test slices of
/// `train_len`, `val_len` and `test_len` records of `record_size` bytes.
///
/// Fails with `ConfigError::LengthExceedsAvailable` exactly when the total
/// requested length exceeds the bytes available.
pub fn split(
    train: &Vec<u8>,
    test: &Vec<u8>,
    train_len: usize,
    val_len: usize,
    test_len: usize,
    record_size: usize,
) -> (r: Result<(Vec<u8>, Vec<u8>, Vec<u8>), ConfigError>)
    requires
        train_len + val_len + test_len <= usize::MAX,
        (train_len + val_len + test_len) * record_size <= usize::MAX,
    ensures
        r is Ok <==> (train_len + val_len + test_len) * record_size <= train@.len()
            + test@.len(),
        r matches Ok(parts) ==> {
            let combined = train@ + test@;
            &&& parts.0@ == combined.subrange(0, train_len * record_size)
            &&& parts.1@ == combined.subrange(
                train_len * record_size,
                (train_len + val_len) * record_size,
            )
            &&& parts.2@ == combined.subrange(
                (train_len + val_len) * record_size,
                (train_len + val_len + test_len) * record_size,
            )
        },
        r matches Err(e) ==> e == ConfigError::LengthExceedsAvailable,
{
    let total = train_len + val_len + test_len;
    let need = total * record_size;
    let fits = if need <= train.len() {
        true
    } else {
        need - train.len() <= test.len()
    };
    if !fits {
        return Err(ConfigError::LengthExceedsAvailable);
    }
    let in_train = if need <= train.len() {
        need
    } else {
        train.len()
    };
    let mut combined = take_range(train, 0, in_train);
    let mut tail = take_range(test, 0, need - in_train);
    combined.append(&mut tail);
    let ghost whole = train@ + test@;
    proof {
        assert(combined@ =~= whole.subrange(0, need as int));
    }
    proof {
        lemma_mul_inequality(train_len as int, total as int, record_size as int);
        lemma_mul_inequality((train_len + val_len) as int, total as int, record_size as int);
        assert(train_len * record_size + val_len * record_size == (train_len + val_len)
            * record_size) by (nonlinear_arith);
        assert((train_len + val_len) * record_size + test_len * record_size == (train_len + val_len
            + test_len) * record_size) by (nonlinear_arith);
        vstd::arithmetic::mul::lemma_mul_nonnegative(val_len as int, record_size as int);
        vstd::arithmetic::mul::lemma_mul_nonnegative(test_len as int, record_size as int);
    }
    let t_end = train_len * record_size;
    let mut rest = combined.split_off(t_end);
    let trn = combined;
    let tst = rest.split_off(val_len * record_size);
    let val = rest;
    proof {
        assert(trn@ =~= whole.subrange(0, train_len * record_size));
        assert(val@ =~= whole.subrange(
            train_len * record_size,
            (train_len + val_len) * record_size,
        ));
        assert(tst@ =~= whole.subrange(
            (train_len + val_len) * record_size,
            (train_len + val_len + test_len) * record_size,
        ));
    }
    Ok((trn, val, tst))
}

} // verus!
