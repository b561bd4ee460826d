//! Sealed data as the SGX trusted service library lays it out.
//!
//! Sealed data is a fixed header followed by a payload whose length the
//! header declares.  The types here wrap a byte slice and promise one thing:
//! that the slice is long enough for the header and the payload it declares.

use vstd::prelude::*;
use vstd::slice::slice_subrange;

verus! {

/// Size of the fixed part of `sgx_aes_gcm_data_t`: the payload size, twelve
/// reserved bytes and the payload tag.
pub const AES_GCM_DATA_SIZE: usize = 32;

/// Size of the fixed part of `sgx_sealed_data_t`: the key request, the offset
/// of the plain text, twelve reserved bytes and the AES GCM data.
pub const SEALED_DATA_SIZE: usize = 560;

/// Offset of the AES GCM data inside the sealed data.
pub const AES_GCM_DATA_OFFSET: usize = SEALED_DATA_SIZE - AES_GCM_DATA_SIZE;

/// Size of the payload size field at the start of the AES GCM data.
pub const PAYLOAD_SIZE_SIZE: usize = 4;

/// Error of a conversion from bytes to one of the SGX types.
#[derive(Clone, Copy, Debug, PartialEq, Eq, Hash, Structural)]
pub enum FfiError {
    /// The bytes are too few for the type they are meant to hold.
    InvalidInputLength,
}

/// The number that four bytes encode in little-endian order.
pub open spec fn le_u32(b0: u8, b1: u8, b2: u8, b3: u8) -> int {
    b0 as int + 0x100 * (b1 as int) + 0x1_0000 * (b2 as int) + 0x100_0000 * (b3 as int)
}

/// The payload size that AES GCM data declares in its first four bytes.
pub open spec fn declared_payload_size(bytes: Seq<u8>) -> Result<int, FfiError> {
    if bytes.len() >= PAYLOAD_SIZE_SIZE {
        Ok(le_u32(bytes[0], bytes[1], bytes[2], bytes[3]))
    } else {
        Err(FfiError::InvalidInputLength)
    }
}

/// `bytes` holds AES GCM data whole: the fixed part, and as much payload as
/// the fixed part declares.
pub open spec fn holds_aes_gcm_data(bytes: Seq<u8>) -> bool {
    declared_payload_size(bytes) matches Ok(payload_size) && bytes.len() >= payload_size
        + AES_GCM_DATA_SIZE
}

/// `bytes` holds sealed data whole: what starts at the offset of the AES GCM
/// data holds AES GCM data whole.
pub open spec fn holds_sealed_data(bytes: Seq<u8>) -> bool {
    bytes.len() >= AES_GCM_DATA_OFFSET && holds_aes_gcm_data(
        bytes.subrange(AES_GCM_DATA_OFFSET as int, bytes.len() as int),
    )
}

/// AES GCM (Galois/Counter mode) data: a byte slice that holds
/// `sgx_aes_gcm_data_t` with its payload.
#[derive(Debug, Clone, Copy, Hash, PartialEq, Eq)]
pub struct AesGcmData<'a> {
    bytes: &'a [u8],
}

impl<'a> View for AesGcmData<'a> {
    type V = Seq<u8>;

    closed spec fn view(&self) -> Seq<u8> {
        self.bytes@
    }
}

/// What a conversion to [`AesGcmData`] returned, with the data taken by its
/// view.
pub open spec fn aes_gcm_data_view(r: Result<AesGcmData<'_>, FfiError>) -> Result<
    Seq<u8>,
    FfiError,
> {
    match r {
        Ok(data) => Ok(data@),
        Err(e) => Err(e),
    }
}

impl<'a> AesGcmData<'a> {
    /// The bytes that `bytes` must be if it holds AES GCM data whole.
    pub open spec fn of(bytes: Seq<u8>) -> Result<Seq<u8>, FfiError> {
        if holds_aes_gcm_data(bytes) {
            Ok(bytes)
        } else {
            Err(FfiError::InvalidInputLength)
        }
    }

    /// The size of the payload, encrypted data and MAC text together, that
    /// the start of `bytes` declares.
    pub fn payload_size(bytes: &[u8]) -> (r: Result<usize, FfiError>)
        ensures
            match r {
                Ok(size) => declared_payload_size(bytes@) == Ok::<int, FfiError>(size as int),
                Err(e) => declared_payload_size(bytes@) == Err::<int, FfiError>(e),
            },
    {
        if bytes.len() < PAYLOAD_SIZE_SIZE {
            return Err(FfiError::InvalidInputLength);
        }
        let b0: u32 = bytes[0] as u32;
        let b1: u32 = bytes[1] as u32;
        let b2: u32 = bytes[2] as u32;
        let b3: u32 = bytes[3] as u32;
        let size: u32 = b0 + 0x100 * b1 + 0x1_0000 * b2 + 0x100_0000 * b3;
        Ok(size as usize)
    }

    /// The bytes that were wrapped.
    pub fn as_bytes(&self) -> (bytes: &'a [u8])
        ensures
            bytes@ == self@,
    {
        self.bytes
    }
}

impl<'a> TryFrom<&'a [u8]> for AesGcmData<'a> {
    type Error = FfiError;

    /// Wraps `bytes` if it holds AES GCM data whole.
    fn try_from(bytes: &'a [u8]) -> (r: Result<AesGcmData<'a>, FfiError>)
        ensures
            aes_gcm_data_view(r) == Self::of(bytes@),
    {
        match Self::payload_size(bytes) {
            Ok(payload_size) => {
                if bytes.len() < AES_GCM_DATA_SIZE || bytes.len() - AES_GCM_DATA_SIZE
                    < payload_size {
                    Err(FfiError::InvalidInputLength)
                } else {
                    Ok(AesGcmData { bytes })
                }
            },
            Err(e) => Err(e),
        }
    }
}

impl<'a> vstd::std_specs::convert::TryFromSpecImpl<&'a [u8]> for AesGcmData<'a> {
    open spec fn obeys_try_from_spec() -> bool {
        true
    }

    closed spec fn try_from_spec(bytes: &'a [u8]) -> Result<Self, FfiError> {
        if holds_aes_gcm_data(bytes@) {
            Ok(AesGcmData { bytes })
        } else {
            Err(FfiError::InvalidInputLength)
        }
    }
}

/// Sealed data: a byte slice that holds `sgx_sealed_data_t` with its payload.
/// Nothing of what the bytes hold needs to be read here.
#[derive(Debug, Clone, Copy, Hash, PartialEq, Eq)]
pub struct SealedData<'a> {
    bytes: &'a [u8],
}

impl<'a> View for SealedData<'a> {
    type V = Seq<u8>;

    closed spec fn view(&self) -> Seq<u8> {
        self.bytes@
    }
}

/// What a conversion to [`SealedData`] returned, with the data taken by its
/// view.
pub open spec fn sealed_data_view(r: Result<SealedData<'_>, FfiError>) -> Result<
    Seq<u8>,
    FfiError,
> {
    match r {
        Ok(data) => Ok(data@),
        Err(e) => Err(e),
    }
}

impl<'a> SealedData<'a> {
    /// The bytes that `bytes` must be if it holds sealed data whole.
    pub open spec fn of(bytes: Seq<u8>) -> Result<Seq<u8>, FfiError> {
        if holds_sealed_data(bytes) {
            Ok(bytes)
        } else {
            Err(FfiError::InvalidInputLength)
        }
    }

    /// The bytes that were wrapped.
    pub fn as_bytes(&self) -> (bytes: &'a [u8])
        ensures
            bytes@ == self@,
    {
        self.bytes
    }
}

impl<'a> TryFrom<&'a [u8]> for SealedData<'a> {
    type Error = FfiError;

    /// Wraps `bytes` if it holds sealed data whole.
    fn try_from(bytes: &'a [u8]) -> (r: Result<SealedData<'a>, FfiError>)
        ensures
            sealed_data_view(r) == Self::of(bytes@),
    {
        if bytes.len() < AES_GCM_DATA_OFFSET {
            return Err(FfiError::InvalidInputLength);
        }
        let aes_gcm_bytes = slice_subrange(bytes, AES_GCM_DATA_OFFSET, bytes.len());
        match AesGcmData::try_from(aes_gcm_bytes) {
            Ok(_) => Ok(SealedData { bytes }),
            Err(e) => Err(e),
        }
    }
}

impl<'a> vstd::std_specs::convert::TryFromSpecImpl<&'a [u8]> for SealedData<'a> {
    open spec fn obeys_try_from_spec() -> bool {
        true
    }

    closed spec fn try_from_spec(bytes: &'a [u8]) -> Result<Self, FfiError> {
        if holds_sealed_data(bytes@) {
            Ok(SealedData { bytes })
        } else {
            Err(FfiError::InvalidInputLength)
        }
    }
}

} // verus!
