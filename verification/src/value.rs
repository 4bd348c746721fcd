//! The encrypted-value model.
//!
//! An operand is either a ciphertext of one fixed encrypted type or a
//! plaintext scalar carried as raw bytes.  A ciphertext exclusively owns a
//! backing encrypted object; the admission layer reads three facts of it:
//! its logical value (opaque bytes, never changed here), which device it
//! currently lives on, and how many bytes it occupies there.  The
//! accelerator runtime fills those fields in when it materializes an object;
//! this module keeps them coherent through relocation.

use vstd::prelude::*;

verus! {

/// Which fixed encrypted type a ciphertext has.
#[derive(Clone, Copy, Debug, PartialEq, Eq, Structural)]
pub enum CiphertextKind {
    Bool,
    Uint4,
    Uint8,
    Uint16,
    Uint32,
    Uint64,
    Uint128,
    Uint160,
    Uint256,
    Bytes64,
    Bytes128,
    Bytes256,
}

/// A backing encrypted object as this layer reads it.
pub struct EncryptedObject {
    /// The serialized logical value.  Relocation never changes it.
    pub value: Vec<u8>,
    /// Ordinal of the device the object currently lives on; an object is
    /// resident on exactly one device at a time.
    pub device: u64,
    /// Bytes the object occupies on its device.
    pub size_on_device: u64,
}

/// An operand of an encrypted operation: a ciphertext of one of the twelve
/// supported encrypted types, or a plaintext scalar carried as raw bytes.
pub enum SupportedFheCiphertexts {
    FheBool(EncryptedObject),
    FheUint4(EncryptedObject),
    FheUint8(EncryptedObject),
    FheUint16(EncryptedObject),
    FheUint32(EncryptedObject),
    FheUint64(EncryptedObject),
    FheUint128(EncryptedObject),
    FheUint160(EncryptedObject),
    FheUint256(EncryptedObject),
    FheBytes64(EncryptedObject),
    FheBytes128(EncryptedObject),
    FheBytes256(EncryptedObject),
    Scalar(Vec<u8>),
}

/// The encrypted type of a ciphertext operand; a scalar has none.
pub open spec fn spec_kind(v: SupportedFheCiphertexts) -> Option<CiphertextKind> {
    match v {
        SupportedFheCiphertexts::FheBool(_) => Some(CiphertextKind::Bool),
        SupportedFheCiphertexts::FheUint4(_) => Some(CiphertextKind::Uint4),
        SupportedFheCiphertexts::FheUint8(_) => Some(CiphertextKind::Uint8),
        SupportedFheCiphertexts::FheUint16(_) => Some(CiphertextKind::Uint16),
        SupportedFheCiphertexts::FheUint32(_) => Some(CiphertextKind::Uint32),
        SupportedFheCiphertexts::FheUint64(_) => Some(CiphertextKind::Uint64),
        SupportedFheCiphertexts::FheUint128(_) => Some(CiphertextKind::Uint128),
        SupportedFheCiphertexts::FheUint160(_) => Some(CiphertextKind::Uint160),
        SupportedFheCiphertexts::FheUint256(_) => Some(CiphertextKind::Uint256),
        SupportedFheCiphertexts::FheBytes64(_) => Some(CiphertextKind::Bytes64),
        SupportedFheCiphertexts::FheBytes128(_) => Some(CiphertextKind::Bytes128),
        SupportedFheCiphertexts::FheBytes256(_) => Some(CiphertextKind::Bytes256),
        SupportedFheCiphertexts::Scalar(_) => None,
    }
}

/// The logical value of an operand: the backing object's serialized value,
/// or the scalar's raw bytes.
pub open spec fn logical_value(v: SupportedFheCiphertexts) -> Seq<u8> {
    match v {
        SupportedFheCiphertexts::FheBool(o) => o.value@,
        SupportedFheCiphertexts::FheUint4(o) => o.value@,
        SupportedFheCiphertexts::FheUint8(o) => o.value@,
        SupportedFheCiphertexts::FheUint16(o) => o.value@,
        SupportedFheCiphertexts::FheUint32(o) => o.value@,
        SupportedFheCiphertexts::FheUint64(o) => o.value@,
        SupportedFheCiphertexts::FheUint128(o) => o.value@,
        SupportedFheCiphertexts::FheUint160(o) => o.value@,
        SupportedFheCiphertexts::FheUint256(o) => o.value@,
        SupportedFheCiphertexts::FheBytes64(o) => o.value@,
        SupportedFheCiphertexts::FheBytes128(o) => o.value@,
        SupportedFheCiphertexts::FheBytes256(o) => o.value@,
        SupportedFheCiphertexts::Scalar(b) => b@,
    }
}

/// Where the operand is device-resident: the backing object's device, or
/// nowhere for a scalar, which never occupies device memory.
pub open spec fn residency(v: SupportedFheCiphertexts) -> Option<u64> {
    match v {
        SupportedFheCiphertexts::FheBool(o) => Some(o.device),
        SupportedFheCiphertexts::FheUint4(o) => Some(o.device),
        SupportedFheCiphertexts::FheUint8(o) => Some(o.device),
        SupportedFheCiphertexts::FheUint16(o) => Some(o.device),
        SupportedFheCiphertexts::FheUint32(o) => Some(o.device),
        SupportedFheCiphertexts::FheUint64(o) => Some(o.device),
        SupportedFheCiphertexts::FheUint128(o) => Some(o.device),
        SupportedFheCiphertexts::FheUint160(o) => Some(o.device),
        SupportedFheCiphertexts::FheUint256(o) => Some(o.device),
        SupportedFheCiphertexts::FheBytes64(o) => Some(o.device),
        SupportedFheCiphertexts::FheBytes128(o) => Some(o.device),
        SupportedFheCiphertexts::FheBytes256(o) => Some(o.device),
        SupportedFheCiphertexts::Scalar(_) => None,
    }
}

/// The device-resident size of an operand; a scalar reports its byte length
/// so callers can size plaintext-fallback paths uniformly.
pub open spec fn footprint(v: SupportedFheCiphertexts) -> u64 {
    match v {
        SupportedFheCiphertexts::FheBool(o) => o.size_on_device,
        SupportedFheCiphertexts::FheUint4(o) => o.size_on_device,
        SupportedFheCiphertexts::FheUint8(o) => o.size_on_device,
        SupportedFheCiphertexts::FheUint16(o) => o.size_on_device,
        SupportedFheCiphertexts::FheUint32(o) => o.size_on_device,
        SupportedFheCiphertexts::FheUint64(o) => o.size_on_device,
        SupportedFheCiphertexts::FheUint128(o) => o.size_on_device,
        SupportedFheCiphertexts::FheUint160(o) => o.size_on_device,
        SupportedFheCiphertexts::FheUint256(o) => o.size_on_device,
        SupportedFheCiphertexts::FheBytes64(o) => o.size_on_device,
        SupportedFheCiphertexts::FheBytes128(o) => o.size_on_device,
        SupportedFheCiphertexts::FheBytes256(o) => o.size_on_device,
        SupportedFheCiphertexts::Scalar(b) => b@.len() as u64,
    }
}

/// The operand after relocation to `device`: residency moves, everything
/// else stays; a scalar is untouched.
pub open spec fn relocated(v: SupportedFheCiphertexts, device: u64) -> SupportedFheCiphertexts {
    match v {
        SupportedFheCiphertexts::FheBool(o) => SupportedFheCiphertexts::FheBool(
            EncryptedObject { device, ..o },
        ),
        SupportedFheCiphertexts::FheUint4(o) => SupportedFheCiphertexts::FheUint4(
            EncryptedObject { device, ..o },
        ),
        SupportedFheCiphertexts::FheUint8(o) => SupportedFheCiphertexts::FheUint8(
            EncryptedObject { device, ..o },
        ),
        SupportedFheCiphertexts::FheUint16(o) => SupportedFheCiphertexts::FheUint16(
            EncryptedObject { device, ..o },
        ),
        SupportedFheCiphertexts::FheUint32(o) => SupportedFheCiphertexts::FheUint32(
            EncryptedObject { device, ..o },
        ),
        SupportedFheCiphertexts::FheUint64(o) => SupportedFheCiphertexts::FheUint64(
            EncryptedObject { device, ..o },
        ),
        SupportedFheCiphertexts::FheUint128(o) => SupportedFheCiphertexts::FheUint128(
            EncryptedObject { device, ..o },
        ),
        SupportedFheCiphertexts::FheUint160(o) => SupportedFheCiphertexts::FheUint160(
            EncryptedObject { device, ..o },
        ),
        SupportedFheCiphertexts::FheUint256(o) => SupportedFheCiphertexts::FheUint256(
            EncryptedObject { device, ..o },
        ),
        SupportedFheCiphertexts::FheBytes64(o) => SupportedFheCiphertexts::FheBytes64(
            EncryptedObject { device, ..o },
        ),
        SupportedFheCiphertexts::FheBytes128(o) => SupportedFheCiphertexts::FheBytes128(
            EncryptedObject { device, ..o },
        ),
        SupportedFheCiphertexts::FheBytes256(o) => SupportedFheCiphertexts::FheBytes256(
            EncryptedObject { device, ..o },
        ),
        SupportedFheCiphertexts::Scalar(b) => SupportedFheCiphertexts::Scalar(b),
    }
}

/// Idempotent relocation: relocating to the active device twice in a row is
/// the same as doing it once, and relocation changes neither the logical
/// value nor the device-resident footprint.
pub proof fn lemma_relocation_idempotent(v: SupportedFheCiphertexts, device: u64)
    ensures
        relocated(relocated(v, device), device) == relocated(v, device),
        logical_value(relocated(v, device)) == logical_value(v),
        footprint(relocated(v, device)) == footprint(v),
        spec_kind(relocated(v, device)) == spec_kind(v),
{
}

impl SupportedFheCiphertexts {
    /// The encrypted type of the operand, or nothing for a scalar.
    pub fn kind(&self) -> (k: Option<CiphertextKind>)
        ensures
            k == spec_kind(*self),
    {
        match self {
            SupportedFheCiphertexts::FheBool(_) => Some(CiphertextKind::Bool),
            SupportedFheCiphertexts::FheUint4(_) => Some(CiphertextKind::Uint4),
            SupportedFheCiphertexts::FheUint8(_) => Some(CiphertextKind::Uint8),
            SupportedFheCiphertexts::FheUint16(_) => Some(CiphertextKind::Uint16),
            SupportedFheCiphertexts::FheUint32(_) => Some(CiphertextKind::Uint32),
            SupportedFheCiphertexts::FheUint64(_) => Some(CiphertextKind::Uint64),
            SupportedFheCiphertexts::FheUint128(_) => Some(CiphertextKind::Uint128),
            SupportedFheCiphertexts::FheUint160(_) => Some(CiphertextKind::Uint160),
            SupportedFheCiphertexts::FheUint256(_) => Some(CiphertextKind::Uint256),
            SupportedFheCiphertexts::FheBytes64(_) => Some(CiphertextKind::Bytes64),
            SupportedFheCiphertexts::FheBytes128(_) => Some(CiphertextKind::Bytes128),
            SupportedFheCiphertexts::FheBytes256(_) => Some(CiphertextKind::Bytes256),
            SupportedFheCiphertexts::Scalar(_) => None,
        }
    }

    /// Move the backing object to the caller's active device.  A no-op for a
    /// scalar, idempotent for everything else (see
    /// `lemma_relocation_idempotent`).
    pub fn move_to_current_device(&mut self, active_device: u64)
        ensures
            *final(self) == relocated(*old(self), active_device),
            spec_kind(*old(self)) is Some ==> residency(*final(self)) == Some(active_device),
            spec_kind(*old(self)) is None ==> residency(*final(self)) is None,
    {
        match self {
            SupportedFheCiphertexts::FheBool(o) => o.device = active_device,
            SupportedFheCiphertexts::FheUint4(o) => o.device = active_device,
            SupportedFheCiphertexts::FheUint8(o) => o.device = active_device,
            SupportedFheCiphertexts::FheUint16(o) => o.device = active_device,
            SupportedFheCiphertexts::FheUint32(o) => o.device = active_device,
            SupportedFheCiphertexts::FheUint64(o) => o.device = active_device,
            SupportedFheCiphertexts::FheUint128(o) => o.device = active_device,
            SupportedFheCiphertexts::FheUint160(o) => o.device = active_device,
            SupportedFheCiphertexts::FheUint256(o) => o.device = active_device,
            SupportedFheCiphertexts::FheBytes64(o) => o.device = active_device,
            SupportedFheCiphertexts::FheBytes128(o) => o.device = active_device,
            SupportedFheCiphertexts::FheBytes256(o) => o.device = active_device,
            SupportedFheCiphertexts::Scalar(_) => (),
        }
    }

    /// The operand's current device-resident size; a scalar reports its byte
    /// length.
    pub fn get_size_on_gpu(&self) -> (size: u64)
        ensures
            size == footprint(*self),
    {
        match self {
            SupportedFheCiphertexts::FheBool(o) => o.size_on_device,
            SupportedFheCiphertexts::FheUint4(o) => o.size_on_device,
            SupportedFheCiphertexts::FheUint8(o) => o.size_on_device,
            SupportedFheCiphertexts::FheUint16(o) => o.size_on_device,
            SupportedFheCiphertexts::FheUint32(o) => o.size_on_device,
            SupportedFheCiphertexts::FheUint64(o) => o.size_on_device,
            SupportedFheCiphertexts::FheUint128(o) => o.size_on_device,
            SupportedFheCiphertexts::FheUint160(o) => o.size_on_device,
            SupportedFheCiphertexts::FheUint256(o) => o.size_on_device,
            SupportedFheCiphertexts::FheBytes64(o) => o.size_on_device,
            SupportedFheCiphertexts::FheBytes128(o) => o.size_on_device,
            SupportedFheCiphertexts::FheBytes256(o) => o.size_on_device,
            SupportedFheCiphertexts::Scalar(b) => b.len() as u64,
        }
    }
}

} // verus!
