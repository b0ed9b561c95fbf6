//! Primitive domain types: fixed-width identifiers, heights, amounts, and
//! the hex parsing that reads identifiers from strings.

use vstd::prelude::*;
use vstd::string::StrSliceExecFns;
use vstd::string::StringSliceAdditionalSpecFns;

verus! {

/// A 64-bit machine word, the unit of amounts and gas.
pub type Word = u64;

/// A plain 32-byte value (a Merkle root, a block or transaction id).
#[derive(Copy, Clone, Debug, PartialEq, Eq, PartialOrd)]
pub struct Bytes32(pub [u8; 32]);

/// A 32-byte account address.
#[derive(Copy, Clone, Debug, PartialEq, Eq, PartialOrd)]
pub struct Address(pub [u8; 32]);

/// A 32-byte asset identifier: incompatible coins coexist under
/// different asset ids.
#[derive(Copy, Clone, Debug, PartialEq, Eq, PartialOrd)]
pub struct AssetId(pub [u8; 32]);

/// A 32-byte contract identifier.
#[derive(Copy, Clone, Debug, PartialEq, Eq, PartialOrd)]
pub struct ContractId(pub [u8; 32]);

/// A 32-byte message nonce.
#[derive(Copy, Clone, Debug, PartialEq, Eq, PartialOrd)]
pub struct Nonce(pub [u8; 32]);

/// The unique identifier of a utxo: the id of the transaction that
/// created it and the index of its output.
#[derive(Copy, Clone, Debug, PartialEq, Eq, PartialOrd)]
pub struct UtxoId {
    /// Id of the creating transaction.
    pub tx_id: Bytes32,
    /// Index of the output within that transaction.
    pub output_index: u8,
}

/// The block and transaction a coin originated from.
#[derive(Copy, Clone, Debug, PartialEq, Eq, PartialOrd)]
pub struct TxPointer {
    /// Height of the block.
    pub block_height: u32,
    /// Index of the transaction within the block.
    pub tx_index: u16,
}

/// A block height of this chain.
#[derive(Copy, Clone, Debug, PartialEq, Eq, Structural, PartialOrd, Ord, Hash)]
pub struct BlockHeight(pub u32);

/// A block height of the data-availability layer.
#[derive(Copy, Clone, Debug, PartialEq, Eq, Structural, PartialOrd, Ord, Hash)]
pub struct DaBlockHeight(pub u64);

/// A TAI64 timestamp.
#[derive(Copy, Clone, Debug, PartialEq, Eq, Structural)]
pub struct Tai64(pub u64);

/// A 64-bit scalar as the query schema carries it.
#[derive(Copy, Clone, Debug, PartialEq, Eq, Structural)]
pub struct U64(pub u64);

/// An arbitrary-length byte string as the query schema carries it.
#[derive(Clone, Debug, PartialEq, Eq)]
pub struct HexString(pub Vec<u8>);

/// Failure to read a typed value out of its string form.
#[derive(Copy, Clone, Debug, PartialEq, Eq, Structural)]
pub enum ConversionError {
    /// The string is not `0x` followed by the expected run of hex digits.
    HexError,
}

/// Whether a byte is an ASCII hex digit.
pub open spec fn is_hex_digit(b: u8) -> bool {
    (48 <= b && b <= 57) || (97 <= b && b <= 102) || (65 <= b && b <= 70)
}

/// The value of an ASCII hex digit.
pub open spec fn hex_digit_value(b: u8) -> u8 {
    if 48 <= b && b <= 57 {
        (b - 48) as u8
    } else if 97 <= b && b <= 102 {
        (b - 87) as u8
    } else if 65 <= b && b <= 70 {
        (b - 55) as u8
    } else {
        0
    }
}

/// The byte two hex digits denote.
pub open spec fn hex_byte(hi: u8, lo: u8) -> u8 {
    (hex_digit_value(hi) * 16 + hex_digit_value(lo)) as u8
}

/// The `j`-th byte of the hex payload that starts at offset 2 of `bs`.
pub open spec fn hex_byte_at(bs: Seq<u8>, j: int) -> u8 {
    hex_byte(bs[2 + 2 * j], bs[3 + 2 * j])
}

/// A well-formed `0x`-prefixed hex string carrying exactly `n` bytes.
pub open spec fn hex_str_wf(bs: Seq<u8>, n: int) -> bool {
    &&& bs.len() == 2 + 2 * n
    &&& bs[0] == 48
    &&& bs[1] == 120
    &&& forall|i: int| 2 <= i < bs.len() ==> is_hex_digit(#[trigger] bs[i])
}

/// The value of one ASCII hex digit, decided in executable code.
fn hex_val(b: u8) -> (r: Option<u8>)
    ensures
        match r {
            Some(v) => is_hex_digit(b) && v == hex_digit_value(b),
            None => !is_hex_digit(b),
        },
{
    if 48 <= b && b <= 57 {
        Some(b - 48)
    } else if 97 <= b && b <= 102 {
        Some(b - 87)
    } else if 65 <= b && b <= 70 {
        Some(b - 55)
    } else {
        None
    }
}

/// Read a `0x`-prefixed hex string of exactly 32 bytes into an array.
/// Succeeds precisely on well-formed input, returning the denoted bytes.
pub fn parse_hex_bytes32(s: &str) -> (r: Result<[u8; 32], ConversionError>)
    ensures
        match r {
            Ok(a) => hex_str_wf(s.spec_bytes(), 32) && forall|j: int|
                0 <= j < 32 ==> a@[j] == hex_byte_at(s.spec_bytes(), j),
            Err(_) => !hex_str_wf(s.spec_bytes(), 32),
        },
{
    let bs: Vec<u8> = s.as_bytes_vec();
    if bs.len() != 66 {
        return Err(ConversionError::HexError);
    }
    if bs[0] != 48 || bs[1] != 120 {
        return Err(ConversionError::HexError);
    }
    let mut a: [u8; 32] = [0u8; 32];
    let mut j: usize = 0;
    while j < 32
        invariant
            j <= 32,
            bs@ == s.spec_bytes(),
            bs@.len() == 66,
            bs@[0] == 48,
            bs@[1] == 120,
            forall|i: int| 2 <= i < 2 + 2 * j ==> is_hex_digit(#[trigger] bs@[i]),
            forall|i: int| 0 <= i < j ==> a@[i] == hex_byte_at(bs@, i),
        decreases 32 - j,
    {
        let hi = match hex_val(bs[2 + 2 * j]) {
            Some(v) => v,
            None => {
                return Err(ConversionError::HexError);
            }
        };
        let lo = match hex_val(bs[3 + 2 * j]) {
            Some(v) => v,
            None => {
                return Err(ConversionError::HexError);
            }
        };
        a[j] = hi * 16 + lo;
        j = j + 1;
    }
    Ok(a)
}

impl Nonce {
    /// Read a nonce from its `0x`-prefixed 64-digit hex form. Succeeds
    /// precisely on well-formed input.
    pub fn from_str(s: &str) -> (r: Result<Nonce, ConversionError>)
        ensures
            match r {
                Ok(n) => hex_str_wf(s.spec_bytes(), 32) && forall|j: int|
                    0 <= j < 32 ==> n.0@[j] == hex_byte_at(s.spec_bytes(), j),
                Err(_) => !hex_str_wf(s.spec_bytes(), 32),
            },
    {
        match parse_hex_bytes32(s) {
            Ok(a) => Ok(Nonce(a)),
            Err(e) => Err(e),
        }
    }
}

/// A well-formed utxo-id string: `0x`, 64 hex digits of transaction id,
/// 2 hex digits of output index.
pub open spec fn utxo_id_str_wf(bs: Seq<u8>) -> bool {
    hex_str_wf(bs, 33)
}

impl UtxoId {
    /// Read a utxo id from its `0x`-prefixed 66-digit hex form: the
    /// transaction id's 64 digits followed by the output index's 2.
    /// Succeeds precisely on well-formed input.
    pub fn from_str(s: &str) -> (r: Result<UtxoId, ConversionError>)
        ensures
            match r {
                Ok(u) => utxo_id_str_wf(s.spec_bytes()) && u.output_index == hex_byte_at(
                    s.spec_bytes(),
                    32,
                ) && forall|j: int|
                    0 <= j < 32 ==> u.tx_id.0@[j] == hex_byte_at(s.spec_bytes(), j),
                Err(_) => !utxo_id_str_wf(s.spec_bytes()),
            },
    {
        let bs: Vec<u8> = s.as_bytes_vec();
        if bs.len() != 68 {
            return Err(ConversionError::HexError);
        }
        if bs[0] != 48 || bs[1] != 120 {
            return Err(ConversionError::HexError);
        }
        let mut a: [u8; 32] = [0u8; 32];
        let mut j: usize = 0;
        while j < 32
            invariant
                j <= 32,
                bs@ == s.spec_bytes(),
                bs@.len() == 68,
                bs@[0] == 48,
                bs@[1] == 120,
                forall|i: int| 2 <= i < 2 + 2 * j ==> is_hex_digit(#[trigger] bs@[i]),
                forall|i: int| 0 <= i < j ==> a@[i] == hex_byte_at(bs@, i),
            decreases 32 - j,
        {
            let hi = match hex_val(bs[2 + 2 * j]) {
                Some(v) => v,
                None => {
                    return Err(ConversionError::HexError);
                }
            };
            let lo = match hex_val(bs[3 + 2 * j]) {
                Some(v) => v,
                None => {
                    return Err(ConversionError::HexError);
                }
            };
            a[j] = hi * 16 + lo;
            j = j + 1;
        }
        let hi = match hex_val(bs[66]) {
            Some(v) => v,
            None => {
                return Err(ConversionError::HexError);
            }
        };
        let lo = match hex_val(bs[67]) {
            Some(v) => v,
            None => {
                return Err(ConversionError::HexError);
            }
        };
        let out_idx = hi * 16 + lo;
        Ok(UtxoId { tx_id: Bytes32(a), output_index: out_idx })
    }
}

} // verus!
